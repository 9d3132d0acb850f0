//! `keccak256`, the payload hash, and the EIP-712 encodings the venue's typed actions use.
//!
//! The signed digest commits to `keccak256(compact_json({type, params}))` through a typed
//! struct, so the encodings here state exactly which bytes are hashed: the `{type, params}`
//! envelope, each typed struct's fields as 32-byte words in declaration order, and the
//! `0x19 0x01` prefix of the final digest.
use vstd::prelude::*;

use vstd::utf8::encode_utf8;

use crate::json::push_lit;
use crate::text::{json_string, owned, push_json_string, push_str};

verus! {

/// `keccak256` of a byte string.
pub uninterp spec fn keccak(data: Seq<u8>) -> Seq<u8>;

/// Hashes bytes with `alloy_primitives::keccak256`. The contract names the hash, a
/// function of the bytes alone, and states its 32-byte length.
#[verifier::external_body]
pub(crate) fn keccak256(data: &[u8]) -> (h: Vec<u8>)
    ensures
        h@ == keccak(data@),
        h@.len() == 32,
{
    alloy_primitives::keccak256(data).to_vec()
}

/// Appends bytes.
pub fn append_bytes(out: &mut Vec<u8>, bytes: &[u8])
    ensures
        final(out)@ == old(out)@ + bytes@,
{
    let ghost start = out@;
    let mut i: usize = 0;
    while i < bytes.len()
        invariant
            i <= bytes.len(),
            out@ == start + bytes@.take(i as int),
        decreases bytes.len() - i,
    {
        out.push(bytes[i]);
        proof {
            assert(bytes@.take(i + 1) == bytes@.take(i as int).push(bytes@[i as int]));
        }
        i = i + 1;
    }
    proof {
        assert(bytes@.take(bytes.len() as int) == bytes@);
    }
}

/// The hash of a text's UTF-8 bytes.
pub open spec fn keccak_text(s: Seq<char>) -> Seq<u8> {
    keccak(encode_utf8(s))
}

/// Hashes a text's UTF-8 bytes.
pub fn keccak_str(s: &str) -> (h: Vec<u8>)
    ensures
        h@ == keccak_text(s@),
        h@.len() == 32,
{
    keccak256(s.as_bytes())
}

/// Byte `i` (0 = most significant) of the big-endian encoding of `n`.
pub open spec fn be_byte(n: u64, i: int) -> u8 {
    ((n >> ((8 * (7 - i)) as u64)) & 0xff) as u8
}

/// An unsigned integer as a 32-byte ABI word: 24 zero bytes, then 8 big-endian bytes.
pub open spec fn word_u64(n: u64) -> Seq<u8> {
    Seq::new(32, |i: int| if i < 24 { 0u8 } else { be_byte(n, i - 24) })
}

/// Appends an integer as an ABI word.
pub fn push_word_u64(out: &mut Vec<u8>, n: u64)
    ensures
        final(out)@ == old(out)@ + word_u64(n),
{
    let ghost start = out@;
    let mut i: usize = 0;
    while i < 32
        invariant
            i <= 32,
            out@ == start + word_u64(n).take(i as int),
        decreases 32 - i,
    {
        let b: u8 = if i < 24 {
            0
        } else {
            let shift: u64 = (8 * (7 - (i - 24))) as u64;
            ((n >> shift) & 0xff) as u8
        };
        out.push(b);
        proof {
            assert(word_u64(n).take(i + 1) == word_u64(n).take(i as int).push(word_u64(n)[i as int]));
        }
        i = i + 1;
    }
    proof {
        assert(word_u64(n).take(32) == word_u64(n));
    }
}

/// The signing envelope: `{"type":<action>,"params":<params>}`.
pub open spec fn envelope_json(action_type: Seq<char>, params_json: Seq<char>) -> Seq<char> {
    "{\"type\":"@ + json_string(action_type) + ",\"params\":"@ + params_json + "}"@
}

/// The payload hash: `keccak256` of the compact envelope's UTF-8 bytes.
pub open spec fn spec_payload_hash(action_type: Seq<char>, params_json: Seq<char>) -> Seq<u8> {
    keccak(encode_utf8(envelope_json(action_type, params_json)))
}

/// The envelope text.
pub fn signing_envelope(action_type: &str, params_json: &str) -> (s: String)
    ensures
        s@ == envelope_json(action_type@, params_json@),
{
    let mut s = owned("{\"type\":");
    push_json_string(&mut s, action_type);
    push_lit(&mut s, ",\"params\":");
    push_str(&mut s, params_json);
    push_lit(&mut s, "}");
    s
}

/// `keccak256` over the compact JSON of `{type, params}`, where `params_json` is the exact
/// body the request carries.
pub fn payload_hash(action_type: &str, params_json: &str) -> (h: Vec<u8>)
    ensures
        h@ == spec_payload_hash(action_type@, params_json@),
        h@.len() == 32,
{
    let envelope = signing_envelope(action_type, params_json);
    keccak256(envelope.as_str().as_bytes())
}

/// The EIP-712 domain type of every domain this venue uses.
pub const DOMAIN_TYPE: &'static str = "EIP712Domain(string name,string version,uint256 chainId,address verifyingContract)";

/// The domain version.
pub const DOMAIN_VERSION: &'static str = "1";

/// An address as a 32-byte ABI word: 12 zero bytes, then its 20 bytes.
pub open spec fn address_word(address: Seq<u8>) -> Seq<u8> {
    Seq::new(12, |i: int| 0u8) + address
}

/// The EIP-712 `hashStruct` of a domain with a name, a version, a chain id and a verifying
/// contract: the hash of the domain type's hash, the hashes of the name and version, and
/// the chain id and contract as words.
pub open spec fn domain_hash(name: Seq<char>, version: Seq<char>, chain_id: u64, contract: Seq<u8>) -> Seq<u8> {
    keccak(
        keccak_text(DOMAIN_TYPE@) + keccak_text(name) + keccak_text(version) + word_u64(chain_id)
            + address_word(contract),
    )
}

/// Computes a domain separator with alloy's `Eip712Domain::new(..).separator()`, the domain
/// given every field but the salt. The contract states the EIP-712 `hashStruct` that
/// alloy's `hash_struct` computes for such a domain: `keccak256` of the type hash of
/// `EIP712Domain(string name,string version,uint256 chainId,address verifyingContract)`,
/// the `keccak256` of the name and of the version, the chain id as a big-endian word and the
/// contract left-padded to a word.
#[verifier::external_body]
fn eip712_domain_separator(name: &str, version: &str, chain_id: u64, contract: &[u8]) -> (h: Vec<u8>)
    requires
        contract@.len() == 20,
    ensures
        h@ == domain_hash(name@, version@, chain_id, contract@),
        h@.len() == 32,
{
    alloy_sol_types::Eip712Domain::new(
        Some(std::borrow::Cow::Owned(name.to_string())),
        Some(std::borrow::Cow::Owned(version.to_string())),
        Some(alloy_primitives::U256::from(chain_id)),
        Some(alloy_primitives::Address::from_slice(contract)),
        None,
    ).separator().to_vec()
}

/// The twenty bytes of the zero address.
pub open spec fn zero_address() -> Seq<u8> {
    Seq::new(20, |i: int| 0u8)
}

/// The domain separator for `name` on `chain_id`: version `1`, zero verifying contract.
pub open spec fn domain_separator(name: Seq<char>, chain_id: u64) -> Seq<u8> {
    domain_hash(name, DOMAIN_VERSION@, chain_id, zero_address())
}

/// Computes the domain separator.
pub fn compute_domain_separator(name: &str, chain_id: u64) -> (h: Vec<u8>)
    ensures
        h@ == domain_separator(name@, chain_id),
        h@.len() == 32,
{
    let mut contract: Vec<u8> = Vec::new();
    let mut i: usize = 0;
    while i < 20
        invariant
            i <= 20,
            contract@ == Seq::new(i as nat, |k: int| 0u8),
        decreases 20 - i,
    {
        contract.push(0);
        proof {
            assert(contract@ =~= Seq::new((i + 1) as nat, |k: int| 0u8));
        }
        i = i + 1;
    }
    eip712_domain_separator(name, DOMAIN_VERSION, chain_id, contract.as_slice())
}

/// The digest signed for a typed struct: `keccak256(0x19 0x01 ‖ domain ‖ struct hash)`.
pub open spec fn typed_digest(domain: Seq<u8>, struct_hash: Seq<u8>) -> Seq<u8> {
    keccak(seq![0x19u8, 0x01u8] + domain + struct_hash)
}

/// Computes the digest signed for a typed struct.
pub fn compute_typed_digest(domain: &[u8], struct_hash: &[u8]) -> (h: Vec<u8>)
    ensures
        h@ == typed_digest(domain@, struct_hash@),
        h@.len() == 32,
{
    let mut data: Vec<u8> = Vec::new();
    data.push(0x19);
    data.push(0x01);
    proof {
        assert(data@ =~= seq![0x19u8, 0x01u8]);
    }
    append_bytes(&mut data, domain);
    append_bytes(&mut data, struct_hash);
    keccak256(data.as_slice())
}

/// The typed struct bound into every trading-action signature.
pub const EXCHANGE_ACTION_TYPE: &'static str = "ExchangeAction(bytes32 payloadHash,uint64 nonce)";

/// The struct hash of an `ExchangeAction`.
pub open spec fn exchange_action_hash(payload_hash: Seq<u8>, nonce: u64) -> Seq<u8> {
    keccak(keccak_text(EXCHANGE_ACTION_TYPE@) + payload_hash + word_u64(nonce))
}

/// Computes the struct hash of an `ExchangeAction`.
pub fn compute_exchange_action_hash(payload_hash: &[u8], nonce: u64) -> (h: Vec<u8>)
    ensures
        h@ == exchange_action_hash(payload_hash@, nonce),
        h@.len() == 32,
{
    let mut data: Vec<u8> = keccak_str(EXCHANGE_ACTION_TYPE);
    append_bytes(&mut data, payload_hash);
    push_word_u64(&mut data, nonce);
    keccak256(data.as_slice())
}

/// The number a byte string spells in big-endian order.
pub open spec fn be_value(bytes: Seq<u8>) -> nat
    decreases bytes.len(),
{
    if bytes.len() == 0 {
        0
    } else {
        be_value(bytes.drop_last()) * 256 + bytes.last() as nat
    }
}

proof fn lemma_be_value_after_zeros(zeros: Seq<u8>, rest: Seq<u8>)
    requires
        be_value(zeros) == 0,
    ensures
        be_value(zeros + rest) == be_value(rest),
    decreases rest.len(),
{
    if rest.len() == 0 {
        assert(zeros + rest =~= zeros);
    } else {
        assert((zeros + rest).drop_last() =~= zeros + rest.drop_last());
        lemma_be_value_after_zeros(zeros, rest.drop_last());
    }
}

proof fn lemma_be_value_of_zeros(n: nat)
    ensures
        be_value(Seq::new(n, |i: int| 0u8)) == 0,
    decreases n,
{
    if n > 0 {
        assert(Seq::new(n, |i: int| 0u8).drop_last() =~= Seq::new((n - 1) as nat, |i: int| 0u8));
        lemma_be_value_of_zeros((n - 1) as nat);
    }
}

/// An integer's ABI word is 32 bytes that spell the integer in big-endian order.
pub proof fn lemma_word_is_big_endian(n: u64)
    ensures
        word_u64(n).len() == 32,
        be_value(word_u64(n)) == n,
{
    let w = word_u64(n);
    let zeros = Seq::new(24, |i: int| 0u8);
    let low = w.subrange(24, 32);
    assert(w =~= zeros + low);
    lemma_be_value_of_zeros(24);
    lemma_be_value_after_zeros(zeros, low);
    reveal_with_fuel(be_value, 9);
    let b0 = be_byte(n, 0);
    let b1 = be_byte(n, 1);
    let b2 = be_byte(n, 2);
    let b3 = be_byte(n, 3);
    let b4 = be_byte(n, 4);
    let b5 = be_byte(n, 5);
    let b6 = be_byte(n, 6);
    let b7 = be_byte(n, 7);
    assert(low =~= seq![b0, b1, b2, b3, b4, b5, b6, b7]);
    assert(seq![b0, b1, b2, b3, b4, b5, b6, b7].drop_last() =~= seq![b0, b1, b2, b3, b4, b5, b6]);
    assert(seq![b0, b1, b2, b3, b4, b5, b6].drop_last() =~= seq![b0, b1, b2, b3, b4, b5]);
    assert(seq![b0, b1, b2, b3, b4, b5].drop_last() =~= seq![b0, b1, b2, b3, b4]);
    assert(seq![b0, b1, b2, b3, b4].drop_last() =~= seq![b0, b1, b2, b3]);
    assert(seq![b0, b1, b2, b3].drop_last() =~= seq![b0, b1, b2]);
    assert(seq![b0, b1, b2].drop_last() =~= seq![b0, b1]);
    assert(seq![b0, b1].drop_last() =~= seq![b0]);
    assert(seq![b0].drop_last() =~= Seq::<u8>::empty());
    let x0: u64 = (n >> 56u64) & 0xff;
    let x1: u64 = (n >> 48u64) & 0xff;
    let x2: u64 = (n >> 40u64) & 0xff;
    let x3: u64 = (n >> 32u64) & 0xff;
    let x4: u64 = (n >> 24u64) & 0xff;
    let x5: u64 = (n >> 16u64) & 0xff;
    let x6: u64 = (n >> 8u64) & 0xff;
    let x7: u64 = (n >> 0u64) & 0xff;
    assert(x0 < 256 && x1 < 256 && x2 < 256 && x3 < 256 && x4 < 256 && x5 < 256 && x6 < 256 && x7
        < 256) by (bit_vector)
        requires
            x0 == (n >> 56u64) & 0xff,
            x1 == (n >> 48u64) & 0xff,
            x2 == (n >> 40u64) & 0xff,
            x3 == (n >> 32u64) & 0xff,
            x4 == (n >> 24u64) & 0xff,
            x5 == (n >> 16u64) & 0xff,
            x6 == (n >> 8u64) & 0xff,
            x7 == (n >> 0u64) & 0xff,
    ;
    assert(b0 == x0 && b1 == x1 && b2 == x2 && b3 == x3 && b4 == x4 && b5 == x5 && b6 == x6 && b7
        == x7);
    assert(be_value(seq![b0]) == x0);
    assert(be_value(seq![b0, b1]) == x0 * 256 + x1);
    assert(be_value(seq![b0, b1, b2]) == (x0 * 256 + x1) * 256 + x2);
    assert(be_value(seq![b0, b1, b2, b3]) == ((x0 * 256 + x1) * 256 + x2) * 256 + x3);
    assert(be_value(seq![b0, b1, b2, b3, b4]) == (((x0 * 256 + x1) * 256 + x2) * 256 + x3) * 256
        + x4);
    assert(be_value(seq![b0, b1, b2, b3, b4, b5]) == ((((x0 * 256 + x1) * 256 + x2) * 256 + x3)
        * 256 + x4) * 256 + x5);
    assert(be_value(seq![b0, b1, b2, b3, b4, b5, b6]) == (((((x0 * 256 + x1) * 256 + x2) * 256
        + x3) * 256 + x4) * 256 + x5) * 256 + x6);
    assert(be_value(seq![b0, b1, b2, b3, b4, b5, b6, b7]) == ((((((x0 * 256 + x1) * 256 + x2)
        * 256 + x3) * 256 + x4) * 256 + x5) * 256 + x6) * 256 + x7);
    assert(((((((x0 * 256 + x1) * 256 + x2) * 256 + x3) * 256 + x4) * 256 + x5) * 256 + x6) * 256
        + x7 == n) by (bit_vector)
        requires
            x0 == (n >> 56u64) & 0xff,
            x1 == (n >> 48u64) & 0xff,
            x2 == (n >> 40u64) & 0xff,
            x3 == (n >> 32u64) & 0xff,
            x4 == (n >> 24u64) & 0xff,
            x5 == (n >> 16u64) & 0xff,
            x6 == (n >> 8u64) & 0xff,
            x7 == (n >> 0u64) & 0xff,
    ;
}

/// A trading action is signed under the EIP-712 `hashStruct` of
/// `ExchangeAction(bytes32 payloadHash,uint64 nonce)`: the hash of the type's hash, then the
/// payload hash as the first field, then the nonce as the second, a 32-byte big-endian
/// word. The fields follow the declaration; the nonce never comes first.
pub proof fn lemma_exchange_action_is_hash_struct(payload_hash: Seq<u8>, nonce: u64)
    ensures
        exists|word: Seq<u8>|
            word.len() == 32 && be_value(word) == nonce && #[trigger] exchange_action_hash(
                payload_hash,
                nonce,
            ) == keccak(
                keccak(encode_utf8("ExchangeAction(bytes32 payloadHash,uint64 nonce)"@))
                    + payload_hash + word,
            ),
{
    lemma_word_is_big_endian(nonce);
    assert(exchange_action_hash(payload_hash, nonce) == keccak(
        keccak(encode_utf8("ExchangeAction(bytes32 payloadHash,uint64 nonce)"@)) + payload_hash
            + word_u64(nonce),
    ));
}

/// The typed struct of `addAPIKey`.
pub const ADD_API_KEY_TYPE: &'static str = "UserSignedAddAPIKeyAction(uint64 chainID,uint64 nonce,uint64 accountID,string name,uint8 keyType,bytes publicKey,uint64 expiresAt)";

/// The typed struct of `addAPIKey` with a permission mask.
pub const ADD_PERMISSIONED_API_KEY_TYPE: &'static str = "UserSignedAddPermissionedAPIKeyAction(uint64 chainID,uint64 nonce,uint64 accountID,string name,uint8 keyType,bytes publicKey,uint64 expiresAt,uint64 permissions)";

/// The fields of an API key registration.
#[derive(Debug, Clone)]
pub struct AddApiKeyAction {
    pub chain_id: u64,
    pub nonce: u64,
    pub account_id: u64,
    pub name: String,
    pub key_type: u8,
    pub public_key: Vec<u8>,
    pub expires_at: u64,
}

/// An API key registration by value.
pub struct AddApiKeyFields {
    pub chain_id: u64,
    pub nonce: u64,
    pub account_id: u64,
    pub name: Seq<char>,
    pub key_type: u8,
    pub public_key: Seq<u8>,
    pub expires_at: u64,
}

impl View for AddApiKeyAction {
    type V = AddApiKeyFields;

    open spec fn view(&self) -> AddApiKeyFields {
        AddApiKeyFields {
            chain_id: self.chain_id,
            nonce: self.nonce,
            account_id: self.account_id,
            name: self.name@,
            key_type: self.key_type,
            public_key: self.public_key@,
            expires_at: self.expires_at,
        }
    }
}

/// The encoded fields shared by both registration structs, after the type hash.
pub open spec fn add_api_key_fields(a: AddApiKeyFields) -> Seq<u8> {
    word_u64(a.chain_id) + word_u64(a.nonce) + word_u64(a.account_id) + keccak_text(a.name)
        + word_u64(a.key_type as u64) + keccak(a.public_key) + word_u64(a.expires_at)
}

/// The struct hash of a registration, with the permission mask when there is one.
pub open spec fn add_api_key_hash(a: AddApiKeyFields, permissions: Option<u64>) -> Seq<u8> {
    match permissions {
        None => keccak(keccak_text(ADD_API_KEY_TYPE@) + add_api_key_fields(a)),
        Some(p) => keccak(
            keccak_text(ADD_PERMISSIONED_API_KEY_TYPE@) + add_api_key_fields(a) + word_u64(p),
        ),
    }
}

/// Computes the struct hash of a registration.
pub fn compute_add_api_key_hash(a: &AddApiKeyAction, permissions: Option<u64>) -> (h: Vec<u8>)
    ensures
        h@ == add_api_key_hash(a@, permissions),
        h@.len() == 32,
{
    let mut data: Vec<u8> = match permissions {
        None => keccak_str(ADD_API_KEY_TYPE),
        Some(_) => keccak_str(ADD_PERMISSIONED_API_KEY_TYPE),
    };
    let ghost type_hash = data@;
    push_word_u64(&mut data, a.chain_id);
    push_word_u64(&mut data, a.nonce);
    push_word_u64(&mut data, a.account_id);
    let n = keccak_str(a.name.as_str());
    append_bytes(&mut data, n.as_slice());
    push_word_u64(&mut data, a.key_type as u64);
    let k = keccak256(a.public_key.as_slice());
    append_bytes(&mut data, k.as_slice());
    push_word_u64(&mut data, a.expires_at);
    proof {
        assert(data@ =~= type_hash + add_api_key_fields(a@));
    }
    match permissions {
        None => {},
        Some(p) => push_word_u64(&mut data, p),
    }
    keccak256(data.as_slice())
}

} // verus!
