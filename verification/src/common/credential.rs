//! Credential types.
//!
//! The venue separates account ownership from trading authority, and the types keep that
//! separation visible: [`MasterPrivateKey`] and [`ApiPrivateKey`] are distinct even though
//! both wrap a secp256k1 key, so signing a trading action with the master wallet does not
//! compile.
use vstd::prelude::*;

use crate::text::{
    all_id_chars, ascii_lower, chars_of, check_id_chars, hex_digit_char, is_ascii_hexdigit,
    push_char, str_eq, string_from_chars, to_ascii_lower, utf8_len, utf8_width,
};

verus! {

/// Placeholder shown instead of key material in debug output.
pub const REDACTED: &'static str = "<redacted>";

/// Errors raised while constructing credentials.
#[derive(Debug, Clone, PartialEq, Eq)]
pub enum CredentialError {
    /// The key, without its `0x` prefix, is not 64 bytes long; carries the byte length.
    KeyLength(usize),
    /// The key contains a character that is not a hex digit.
    KeyEncoding,
    /// The API key name is malformed or reserved; carries the name.
    KeyName(String),
}

/// The key text after an optional `0x` prefix.
pub open spec fn strip_hex_prefix(s: Seq<char>) -> Seq<char> {
    if s.len() >= 2 && s[0] == '0' && s[1] == 'x' {
        s.skip(2)
    } else {
        s
    }
}

/// A length as `usize`, saturating at `usize::MAX`.
pub open spec fn usize_clamp(n: nat) -> usize {
    if n <= usize::MAX {
        n as usize
    } else {
        usize::MAX
    }
}

pub open spec fn all_hex(s: Seq<char>) -> bool {
    forall|i: int| 0 <= i < s.len() ==> #[trigger] is_ascii_hexdigit(s[i])
}

pub open spec fn lowercase(s: Seq<char>) -> Seq<char> {
    s.map_values(|c: char| ascii_lower(c))
}

/// What parsing a private key yields: the lowercase hex digits, or the first rule broken.
pub open spec fn private_key_outcome(raw: Seq<char>) -> Result<Seq<char>, CredentialError> {
    let stripped = strip_hex_prefix(raw);
    if utf8_len(stripped) != 64 {
        Err(CredentialError::KeyLength(usize_clamp(utf8_len(stripped))))
    } else if !all_hex(stripped) {
        Err(CredentialError::KeyEncoding)
    } else {
        Ok(lowercase(stripped))
    }
}

/// The outcome of a private-key parse, with the key taken by its hex text.
pub open spec fn key_parse_matches<K: View<V = Seq<char>>>(
    raw: Seq<char>,
    r: Result<K, CredentialError>,
) -> bool {
    match private_key_outcome(raw) {
        Ok(hex) => r matches Ok(k) && k@ == hex,
        Err(e) => r == Err::<K, CredentialError>(e),
    }
}

proof fn lemma_utf8_len_prefix(s: Seq<char>, k: int)
    requires
        0 <= k <= s.len(),
    ensures
        utf8_len(s.take(k)) <= utf8_len(s),
    decreases s.len(),
{
    if k < s.len() {
        assert(s.drop_last().take(k) == s.take(k));
        lemma_utf8_len_prefix(s.drop_last(), k);
    } else {
        assert(s.take(k) == s);
    }
}

/// UTF-8 byte length, saturating at `usize::MAX`.
fn utf8_length_saturating(s: &Vec<char>) -> (n: usize)
    ensures
        n == usize_clamp(utf8_len(s@)),
{
    let mut n: usize = 0;
    let mut i: usize = 0;
    while i < s.len()
        invariant
            i <= s.len(),
            n == utf8_len(s@.take(i as int)),
        decreases s.len() - i,
    {
        let c = s[i];
        let w: usize = if (c as u32) < 0x80 {
            1
        } else if (c as u32) < 0x800 {
            2
        } else if (c as u32) < 0x10000 {
            3
        } else {
            4
        };
        proof {
            assert(s@.take(i + 1).drop_last() == s@.take(i as int));
            assert(w == utf8_width(s@[i as int]));
        }
        if n > usize::MAX - w {
            proof {
                lemma_utf8_len_prefix(s@, i + 1);
            }
            return usize::MAX;
        }
        n = n + w;
        i = i + 1;
    }
    proof {
        assert(s@.take(s.len() as int) == s@);
    }
    n
}

/// A 32-byte secp256k1 private key, stored as lowercase hex without the `0x` prefix.
#[derive(Clone)]
struct PrivateKeyHex(String);

impl View for PrivateKeyHex {
    type V = Seq<char>;

    closed spec fn view(&self) -> Seq<char> {
        self.0@
    }
}

impl PrivateKeyHex {
    fn parse(raw: &str) -> (r: Result<Self, CredentialError>)
        ensures
            key_parse_matches(raw@, r),
    {
        let chars = chars_of(raw);
        let skip: usize = if chars.len() >= 2 && chars[0] == '0' && chars[1] == 'x' {
            2
        } else {
            0
        };
        let mut stripped: Vec<char> = Vec::new();
        let mut i: usize = skip;
        while i < chars.len()
            invariant
                skip <= i <= chars.len(),
                stripped@ == chars@.subrange(skip as int, i as int),
            decreases chars.len() - i,
        {
            stripped.push(chars[i]);
            i = i + 1;
        }
        proof {
            assert(stripped@ == strip_hex_prefix(raw@));
        }
        let len = utf8_length_saturating(&stripped);
        if len != 64 {
            return Err(CredentialError::KeyLength(len));
        }
        let mut lower: Vec<char> = Vec::new();
        let mut j: usize = 0;
        while j < stripped.len()
            invariant
                j <= stripped.len(),
                lower@ == lowercase(stripped@.take(j as int)),
                utf8_len(stripped@) == 64,
                stripped@ == strip_hex_prefix(raw@),
                forall|k: int| 0 <= k < j ==> #[trigger] is_ascii_hexdigit(stripped@[k]),
            decreases stripped.len() - j,
        {
            if !hex_digit_char(stripped[j]) {
                proof {
                    assert(!is_ascii_hexdigit(stripped@[j as int]));
                    assert(!all_hex(stripped@));
                }
                return Err(CredentialError::KeyEncoding);
            }
            lower.push(to_ascii_lower(stripped[j]));
            proof {
                assert(lowercase(stripped@.take(j + 1)) == lowercase(stripped@.take(j as int)).push(
                    ascii_lower(stripped@[j as int]),
                ));
            }
            j = j + 1;
        }
        proof {
            assert(stripped@.take(stripped.len() as int) == stripped@);
        }
        Ok(PrivateKeyHex(string_from_chars(&lower)))
    }
}

/// The formatter that `Debug` writes through.
#[verifier::external_type_specification]
#[verifier::external_body]
pub struct ExFormatter<'a>(core::fmt::Formatter<'a>);

/// The error a formatter reports.
#[verifier::external_type_specification]
#[verifier::external_body]
pub struct ExFmtError(core::fmt::Error);

impl core::fmt::Debug for PrivateKeyHex {
    #[verifier::external_body]
    fn fmt(&self, f: &mut core::fmt::Formatter<'_>) -> core::fmt::Result {
        f.write_str(REDACTED)
    }
}

/// The key that owns the account. Signs only `addAPIKey`, `revokeAPIKey` and
/// `approveBuilderFee`; holding it grants full control including withdrawals.
#[derive(Clone, Debug)]
pub struct MasterPrivateKey(PrivateKeyHex);

impl View for MasterPrivateKey {
    type V = Seq<char>;

    closed spec fn view(&self) -> Seq<char> {
        self.0@
    }
}

impl MasterPrivateKey {
    /// Parses 64 hex digits with an optional `0x` prefix.
    pub fn parse(raw: &str) -> (r: Result<Self, CredentialError>)
        ensures
            key_parse_matches(raw@, r),
    {
        match PrivateKeyHex::parse(raw) {
            Ok(k) => Ok(MasterPrivateKey(k)),
            Err(e) => Err(e),
        }
    }

    /// The key as lowercase hex without prefix.
    pub fn as_hex(&self) -> (s: &str)
        ensures
            s@ == self@,
    {
        self.0.0.as_str()
    }
}

/// The key registered via `addAPIKey`. Signs trading actions and nothing else.
#[derive(Clone, Debug)]
pub struct ApiPrivateKey(PrivateKeyHex);

impl View for ApiPrivateKey {
    type V = Seq<char>;

    closed spec fn view(&self) -> Seq<char> {
        self.0@
    }
}

impl ApiPrivateKey {
    /// Parses 64 hex digits with an optional `0x` prefix.
    pub fn parse(raw: &str) -> (r: Result<Self, CredentialError>)
        ensures
            key_parse_matches(raw@, r),
    {
        match PrivateKeyHex::parse(raw) {
            Ok(k) => Ok(ApiPrivateKey(k)),
            Err(e) => Err(e),
        }
    }

    /// The key as lowercase hex without prefix.
    pub fn as_hex(&self) -> (s: &str)
        ensures
            s@ == self@,
    {
        self.0.0.as_str()
    }
}

/// Whether a text is acceptable as an API key name: 1 to 36 characters from
/// `[0-9a-zA-Z_-]`, and not the reserved `default`.
pub open spec fn key_name_valid(s: Seq<char>) -> bool {
    1 <= s.len() <= 36 && all_id_chars(s) && s != "default"@
}

/// The human-readable name of a registered API key; what travels in the `X-API-Key`
/// header, despite the header's name.
#[derive(Clone, Debug, PartialEq, Eq)]
pub struct ApiKeyName(String);

impl View for ApiKeyName {
    type V = Seq<char>;

    closed spec fn view(&self) -> Seq<char> {
        self.0@
    }
}

impl ApiKeyName {
    /// Accepts a name of 1 to 36 characters from `[0-9a-zA-Z_-]` other than `default`.
    pub fn parse(raw: &str) -> (r: Result<Self, CredentialError>)
        ensures
            key_name_valid(raw@) ==> (r matches Ok(k) && k@ == raw@),
            !key_name_valid(raw@) ==> (r matches Err(CredentialError::KeyName(s)) && s@ == raw@),
    {
        let chars = chars_of(raw);
        let valid_chars = check_id_chars(&chars);
        let valid_len = 1 <= chars.len() && chars.len() <= 36;
        if !valid_len || !valid_chars || str_eq(raw, "default") {
            return Err(CredentialError::KeyName(string_from_chars(&chars)));
        }
        Ok(ApiKeyName(string_from_chars(&chars)))
    }

    pub fn as_str(&self) -> (s: &str)
        ensures
            s@ == self@,
    {
        self.0.as_str()
    }
}

} // verus!
