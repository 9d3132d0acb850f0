//! Client configuration.
//!
//! Spot and perps are separate venues, [`SODEX_SPOT`] and [`SODEX_PERPS`]: they differ in
//! domain name, batch path, action names, key set, order shape, balances and the reference
//! price of limit bounds, and a client binds to one at construction.
//!
//! Market data needs no credentials. The execution client takes an API key, never the
//! master wallet; each credential comes from the configuration or, failing that, from an
//! environment value, a blank one counting as absent.
use vstd::prelude::*;

use crate::common::Market;
use crate::data::parse::InstrumentId;
use crate::execution::client::{parse_u64, spec_parse_u64};
use crate::http::Network;
use crate::text::{chars_of, debug_quoted, owned, push_str, str_debug, string_from_chars};

verus! {

/// Key under which both client factories register.
pub const SODEX: &'static str = "SODEX";

/// Venue identifier for the spot engine.
pub const SODEX_SPOT: &'static str = "SODEX_SPOT";

/// Venue identifier for the perpetuals engine.
pub const SODEX_PERPS: &'static str = "SODEX_PERPS";

/// Environment variable holding the API key's *name* (not its address).
pub const ENV_API_KEY_NAME: &'static str = "SODEX_API_KEY_NAME";

/// Environment variable holding the API key's private key.
pub const ENV_API_PRIVATE_KEY: &'static str = "SODEX_API_PRIVATE_KEY";

/// Environment variable holding the numeric account id.
pub const ENV_ACCOUNT_ID: &'static str = "SODEX_ACCOUNT_ID";

/// Default HTTP timeout in seconds.
pub const DEFAULT_TIMEOUT_SECS: u64 = 30;

/// A venue identifier.
#[derive(Debug, Clone, PartialEq, Eq, Hash)]
pub struct Venue(String);

impl View for Venue {
    type V = Seq<char>;

    closed spec fn view(&self) -> Seq<char> {
        self.0@
    }
}

impl Venue {
    /// A venue with the given identifier.
    pub fn new(name: &str) -> (v: Venue)
        ensures
            v@ == name@,
    {
        Venue(owned(name))
    }

    pub fn as_str(&self) -> (s: &str)
        ensures
            s@ == self@,
    {
        self.0.as_str()
    }
}

pub open spec fn spec_venue_name(market: Market) -> Seq<char> {
    match market {
        Market::Spot => SODEX_SPOT@,
        Market::Perps => SODEX_PERPS@,
    }
}

/// The venue for a given engine.
pub fn venue_for(market: Market) -> (v: Venue)
    ensures
        v@ == spec_venue_name(market),
{
    match market {
        Market::Spot => Venue(owned(SODEX_SPOT)),
        Market::Perps => Venue(owned(SODEX_PERPS)),
    }
}

/// The two engines are different venues.
pub proof fn lemma_engines_are_distinct_venues()
    ensures
        spec_venue_name(Market::Spot) != spec_venue_name(Market::Perps),
{
    reveal_strlit("SODEX_SPOT");
    reveal_strlit("SODEX_PERPS");
    assert(SODEX_SPOT@[6] != SODEX_PERPS@[6]);
}

/// Errors raised while resolving configuration.
#[derive(Debug, Clone, PartialEq, Eq)]
pub enum ConfigError {
    /// Absent from both the configuration and the named environment variable.
    Missing { what: &'static str, env: &'static str },
    /// The environment value is not an account id.
    InvalidAccountId { env: &'static str, value: String },
}

/// What a configuration error says to the operator.
pub open spec fn config_error_message(e: ConfigError) -> Seq<char> {
    match e {
        ConfigError::Missing { what, env } => "missing "@ + what@ + ": set it in the config or the "@
            + env@ + " environment variable"@,
        ConfigError::InvalidAccountId { env, value } => env@ + " is not a valid account id: "@
            + str_debug(value@),
    }
}

impl ConfigError {
    /// The message for this error, naming the environment variable to set.
    pub fn message(&self) -> (s: String)
        ensures
            s@ == config_error_message(*self),
    {
        match self {
            ConfigError::Missing { what, env } => {
                let mut s = owned("missing ");
                push_str(&mut s, what);
                push_str(&mut s, ": set it in the config or the ");
                push_str(&mut s, env);
                push_str(&mut s, " environment variable");
                s
            },
            ConfigError::InvalidAccountId { env, value } => {
                let mut s = owned(env);
                push_str(&mut s, " is not a valid account id: ");
                let quoted = debug_quoted(value.as_str());
                push_str(&mut s, quoted.as_str());
                s
            },
        }
    }
}

/// Whether a character is white space as `char::is_whitespace` classifies it (the Unicode
/// `White_Space` property).
pub open spec fn is_whitespace(c: char) -> bool {
    let u = c as u32;
    (0x9 <= u && u <= 0xD) || u == 0x20 || u == 0x85 || u == 0xA0 || u == 0x1680 || (0x2000 <= u
        && u <= 0x200A) || u == 0x2028 || u == 0x2029 || u == 0x202F || u == 0x205F || u == 0x3000
}

fn whitespace(c: char) -> (b: bool)
    ensures
        b == is_whitespace(c),
{
    let u = c as u32;
    (0x9 <= u && u <= 0xD) || u == 0x20 || u == 0x85 || u == 0xA0 || u == 0x1680 || (0x2000 <= u
        && u <= 0x200A) || u == 0x2028 || u == 0x2029 || u == 0x202F || u == 0x205F || u == 0x3000
}

/// The text with leading and trailing white space removed, as `str::trim` does.
pub open spec fn trimmed(s: Seq<char>) -> Seq<char> {
    let start = first_kept(s, 0);
    let end = last_kept(s, s.len() as int);
    if start >= end {
        Seq::empty()
    } else {
        s.subrange(start, end)
    }
}

/// The index of the first non-white-space character at or after `i`, or the length.
pub open spec fn first_kept(s: Seq<char>, i: int) -> int
    decreases s.len() - i,
{
    if i >= s.len() || i < 0 {
        s.len() as int
    } else if is_whitespace(s[i]) {
        first_kept(s, i + 1)
    } else {
        i
    }
}

/// One past the index of the last non-white-space character before `j`, or 0.
pub open spec fn last_kept(s: Seq<char>, j: int) -> int
    decreases j,
{
    if j <= 0 || j > s.len() {
        0
    } else if is_whitespace(s[j - 1]) {
        last_kept(s, j - 1)
    } else {
        j
    }
}

/// An environment value as the configuration uses it: trimmed, and absent when blank.
pub open spec fn spec_env_value(raw: Option<Seq<char>>) -> Option<Seq<char>> {
    match raw {
        Some(v) => if trimmed(v).len() == 0 {
            None
        } else {
            Some(trimmed(v))
        },
        None => None,
    }
}

pub open spec fn opt_str_view(o: Option<&str>) -> Option<Seq<char>> {
    match o {
        Some(s) => Some(s@),
        None => None,
    }
}

/// Cleans an environment value: trims it and treats a blank one as absent, since a
/// variable exported empty is a mistake, not an intentional empty credential.
pub fn env_value(raw: Option<&str>) -> (r: Option<String>)
    ensures
        crate::text::opt_view(r) == spec_env_value(opt_str_view(raw)),
{
    match raw {
        None => None,
        Some(v) => {
            let chars = chars_of(v);
            let mut start: usize = 0;
            proof {
                assert(first_kept(chars@, 0) == first_kept(chars@, start as int));
            }
            while start < chars.len() && whitespace(chars[start])
                invariant
                    start <= chars.len(),
                    first_kept(chars@, 0) == first_kept(chars@, start as int),
                decreases chars.len() - start,
            {
                start = start + 1;
            }
            let mut end: usize = chars.len();
            while end > 0 && whitespace(chars[end - 1])
                invariant
                    end <= chars.len(),
                    last_kept(chars@, chars@.len() as int) == last_kept(chars@, end as int),
                decreases end,
            {
                end = end - 1;
            }
            if start >= end {
                return None;
            }
            let mut kept: Vec<char> = Vec::new();
            let mut i: usize = start;
            while i < end
                invariant
                    start <= i <= end <= chars.len(),
                    kept@ == chars@.subrange(start as int, i as int),
                decreases end - i,
            {
                kept.push(chars[i]);
                i = i + 1;
            }
            Some(string_from_chars(&kept))
        },
    }
}

/// A secret held as text, shown as `<redacted>` when debug-formatted.
#[derive(Clone)]
pub struct SecretString(String);

impl View for SecretString {
    type V = Seq<char>;

    closed spec fn view(&self) -> Seq<char> {
        self.0@
    }
}

impl SecretString {
    pub fn new(s: &str) -> (r: Self)
        ensures
            r@ == s@,
    {
        SecretString(owned(s))
    }

    /// The secret text.
    pub fn expose(&self) -> (s: &str)
        ensures
            s@ == self@,
    {
        self.0.as_str()
    }
}

impl core::fmt::Debug for SecretString {
    #[verifier::external_body]
    fn fmt(&self, f: &mut core::fmt::Formatter<'_>) -> core::fmt::Result {
        f.write_str(crate::common::credential::REDACTED)
    }
}

/// Configuration for the market-data client; deliberately credential-free.
#[derive(Debug, Clone)]
pub struct SodexDataClientConfig {
    /// Which gateway to reach.
    pub network: Network,
    /// Which engine this client serves.
    pub market: Market,
    /// Restricts instrument loading to these ids. Empty means load everything.
    pub instrument_ids: Vec<InstrumentId>,
    /// HTTP timeout in seconds.
    pub timeout_secs: u64,
}

impl SodexDataClientConfig {
    /// A data client for one engine on one network.
    pub fn new(network: Network, market: Market) -> (c: Self)
        ensures
            c.network == network,
            c.market == market,
            c.instrument_ids@.len() == 0,
            c.timeout_secs == DEFAULT_TIMEOUT_SECS,
    {
        SodexDataClientConfig { network, market, instrument_ids: Vec::new(), timeout_secs: DEFAULT_TIMEOUT_SECS }
    }

    /// The venue these instruments belong to.
    pub fn venue(&self) -> (v: Venue)
        ensures
            v@ == spec_venue_name(self.market),
    {
        venue_for(self.market)
    }
}

/// Configuration for the execution client.
#[derive(Debug, Clone)]
pub struct SodexExecClientConfig {
    /// Which gateway to reach.
    pub network: Network,
    /// Which engine this client trades on.
    pub market: Market,
    /// Numeric account id. Falls back to [`ENV_ACCOUNT_ID`].
    pub account_id: Option<u64>,
    /// Name of the registered API key, not its address. Falls back to [`ENV_API_KEY_NAME`].
    pub api_key_name: Option<String>,
    /// Private key of the registered API key. Falls back to [`ENV_API_PRIVATE_KEY`].
    pub api_private_key: Option<SecretString>,
    /// HTTP timeout in seconds.
    pub timeout_secs: u64,
}

impl SodexExecClientConfig {
    /// An execution client config that resolves every credential from the environment.
    pub fn from_env(network: Network, market: Market) -> (c: Self)
        ensures
            c.network == network,
            c.market == market,
            c.account_id is None,
            c.api_key_name is None,
            c.api_private_key is None,
            c.timeout_secs == DEFAULT_TIMEOUT_SECS,
    {
        SodexExecClientConfig {
            network,
            market,
            account_id: None,
            api_key_name: None,
            api_private_key: None,
            timeout_secs: DEFAULT_TIMEOUT_SECS,
        }
    }

    /// The venue this client trades on.
    pub fn venue(&self) -> (v: Venue)
        ensures
            v@ == spec_venue_name(self.market),
    {
        venue_for(self.market)
    }

    /// Resolves the account id: the configured one, else the environment value given as
    /// read, which must be a `u64`.
    pub fn resolve_account_id(&self, env: Option<&str>) -> (r: Result<u64, ConfigError>)
        ensures
            self.account_id matches Some(id) ==> r == Ok::<u64, ConfigError>(id),
            self.account_id is None ==> match spec_env_value(opt_str_view(env)) {
                None => r == Err::<u64, ConfigError>(
                    ConfigError::Missing { what: "account id", env: ENV_ACCOUNT_ID },
                ),
                Some(v) => match spec_parse_u64(v) {
                    Some(id) => r == Ok::<u64, ConfigError>(id),
                    None => r matches Err(ConfigError::InvalidAccountId { env: e, value })
                        && e == ENV_ACCOUNT_ID && value@ == v,
                },
            },
    {
        match self.account_id {
            Some(id) => Ok(id),
            None => match env_value(env) {
                None => Err(ConfigError::Missing { what: "account id", env: ENV_ACCOUNT_ID }),
                Some(raw) => match parse_u64(raw.as_str()) {
                    Some(id) => Ok(id),
                    None => Err(ConfigError::InvalidAccountId { env: ENV_ACCOUNT_ID, value: raw }),
                },
            },
        }
    }

    /// Resolves the API key name: the configured one, else the environment value.
    pub fn resolve_api_key_name(&self, env: Option<&str>) -> (r: Result<String, ConfigError>)
        ensures
            self.api_key_name matches Some(n) ==> (r matches Ok(s) && s@ == n@),
            self.api_key_name is None ==> match spec_env_value(opt_str_view(env)) {
                Some(v) => r matches Ok(s) && s@ == v,
                None => r == Err::<String, ConfigError>(
                    ConfigError::Missing { what: "API key name", env: ENV_API_KEY_NAME },
                ),
            },
    {
        match &self.api_key_name {
            Some(n) => Ok(owned(n.as_str())),
            None => match env_value(env) {
                Some(v) => Ok(v),
                None => Err(ConfigError::Missing { what: "API key name", env: ENV_API_KEY_NAME }),
            },
        }
    }

    /// Resolves the API private key: the configured one, else the environment value.
    pub fn resolve_api_private_key(&self, env: Option<&str>) -> (r: Result<
        SecretString,
        ConfigError,
    >)
        ensures
            self.api_private_key matches Some(k) ==> (r matches Ok(s) && s@ == k@),
            self.api_private_key is None ==> match spec_env_value(opt_str_view(env)) {
                Some(v) => r matches Ok(s) && s@ == v,
                None => r == Err::<SecretString, ConfigError>(
                    ConfigError::Missing { what: "API private key", env: ENV_API_PRIVATE_KEY },
                ),
            },
    {
        match &self.api_private_key {
            Some(k) => Ok(SecretString::new(k.expose())),
            None => match env_value(env) {
                Some(v) => Ok(SecretString::new(v.as_str())),
                None => Err(
                    ConfigError::Missing { what: "API private key", env: ENV_API_PRIVATE_KEY },
                ),
            },
        }
    }

    /// Whether every credential resolves, given the three environment values; useful for
    /// failing at startup rather than on the first order.
    pub fn has_credentials(
        &self,
        env_account_id: Option<&str>,
        env_api_key_name: Option<&str>,
        env_api_private_key: Option<&str>,
    ) -> (b: bool)
        ensures
            b == ((match self.account_id {
                Some(_) => true,
                None => match spec_env_value(opt_str_view(env_account_id)) {
                    Some(v) => spec_parse_u64(v) is Some,
                    None => false,
                },
            }) && (self.api_key_name is Some || spec_env_value(opt_str_view(env_api_key_name)) is Some)
                && (self.api_private_key is Some || spec_env_value(
                opt_str_view(env_api_private_key),
            ) is Some)),
    {
        self.resolve_account_id(env_account_id).is_ok() && self.resolve_api_key_name(
            env_api_key_name,
        ).is_ok() && self.resolve_api_private_key(env_api_private_key).is_ok()
    }
}

} // verus!
