//! Signed REST requests.
//!
//! The signature commits to `keccak256` over `{"type": …, "params": …}`, but the HTTP body
//! carries only the `params` object, in the same field order. A [`SignedRequest`] is built
//! without touching the network, so this rule is stated and checked on its own.
use vstd::prelude::*;

use super::models::{ApiResponse, EnvelopeError};
use super::requests::RequestError;
use super::Network;
use crate::common::credential::{ApiKeyName, ApiPrivateKey, CredentialError};
use crate::common::Market;
use crate::json::push_lit;
use crate::signing::eip712::{append_bytes, payload_hash, spec_payload_hash};
use crate::signing::nonce::NonceGenerator;
use crate::signing::signers::{exchange_signature, ExchangeSigner, SigningError};
use crate::text::{decimal, hex_lower, owned, push_hex, push_str, str_eq, u64_decimal};

verus! {

/// Header carrying the API key's *name*.
pub const HEADER_API_KEY: &'static str = "X-API-Key";

/// Header carrying the typed signature.
pub const HEADER_API_SIGN: &'static str = "X-API-Sign";

/// Header carrying the nonce.
pub const HEADER_API_NONCE: &'static str = "X-API-Nonce";

/// HTTP methods the venue's endpoints use.
#[derive(Debug, Clone, Copy, PartialEq, Eq, Structural)]
pub enum HttpMethod {
    Get,
    Post,
    Delete,
}

/// Failures of the REST layer.
#[derive(Debug, Clone, PartialEq, Eq)]
pub enum ClientError {
    CredentialsRequired,
    Credential(CredentialError),
    Signing(SigningError),
    Request(RequestError),
    Transport(String),
    Status { status: u16, body: String },
}

/// Header names and values, by value.
pub open spec fn header_views(h: Seq<(String, String)>) -> Seq<(Seq<char>, Seq<char>)> {
    h.map_values(|p: (String, String)| (p.0@, p.1@))
}

/// A header value as text: `0x` and the lowercase hex of the bytes.
pub open spec fn prefixed_hex(bytes: Seq<u8>) -> Seq<char> {
    "0x"@ + hex_lower(bytes)
}

/// `0x` and the lowercase hex of the bytes.
pub fn encode_prefixed(bytes: &[u8]) -> (s: String)
    ensures
        s@ == prefixed_hex(bytes@),
{
    let mut s = owned("0x");
    push_hex(&mut s, bytes);
    s
}

/// A fully prepared signed request, before it touches the network.
#[derive(Debug, Clone, PartialEq, Eq)]
pub struct SignedRequest {
    pub method: HttpMethod,
    pub url: String,
    pub headers: Vec<(String, String)>,
    pub body: Vec<u8>,
}

/// Decodes bytes with `String::from_utf8_lossy`. The contract states what std documents for
/// valid UTF-8: the text comes back unchanged. It says nothing of how an invalid sequence is
/// replaced.
#[verifier::external_body]
fn utf8_lossy(bytes: &[u8]) -> (s: String)
    ensures
        vstd::utf8::valid_utf8(bytes@) ==> s@ == vstd::utf8::decode_utf8(bytes@),
{
    String::from_utf8_lossy(bytes).into_owned()
}

impl SignedRequest {
    /// The body as text, for assertions and diagnostics.
    pub fn body_str(&self) -> (s: String)
        ensures
            vstd::utf8::valid_utf8(self.body@) ==> s@ == vstd::utf8::decode_utf8(self.body@),
    {
        utf8_lossy(self.body.as_slice())
    }

    /// The value of the first header with the given name.
    pub fn header(&self, name: &str) -> (v: Option<&str>)
        ensures
            match v {
                Some(s) => exists|i: int|
                    0 <= i < self.headers@.len() && self.headers@[i].0@ == name@
                        && self.headers@[i].1@ == s@ && forall|j: int|
                        0 <= j < i ==> self.headers@[j].0@ != name@,
                None => forall|i: int| 0 <= i < self.headers@.len() ==> self.headers@[i].0@ != name@,
            },
    {
        let mut i: usize = 0;
        while i < self.headers.len()
            invariant
                i <= self.headers.len(),
                forall|j: int| 0 <= j < i ==> self.headers@[j].0@ != name@,
            decreases self.headers.len() - i,
        {
            if str_eq(self.headers[i].0.as_str(), name) {
                return Some(self.headers[i].1.as_str());
            }
            i = i + 1;
        }
        None
    }
}

/// Credentials for signed endpoints.
#[derive(Debug)]
struct Credentials {
    key_name: ApiKeyName,
    signer: ExchangeSigner,
    nonces: NonceGenerator,
}

/// REST request builder for one network and market. Bound to a single market because the
/// EIP-712 domain differs between spot and perps.
#[derive(Debug)]
pub struct SodexHttpClient {
    network: Network,
    market: Market,
    credentials: Option<Credentials>,
}

/// What the credentials of a signing client are.
pub struct CredentialState {
    pub key_name: Seq<char>,
    pub key_hex: Seq<char>,
    pub market: Market,
    pub chain_id: u64,
    /// The last nonce issued.
    pub last_nonce: u64,
}

/// What a client is.
pub struct HttpClientState {
    pub network: Network,
    pub market: Market,
    pub credentials: Option<CredentialState>,
}

impl View for SodexHttpClient {
    type V = HttpClientState;

    closed spec fn view(&self) -> HttpClientState {
        HttpClientState {
            network: self.network,
            market: self.market,
            credentials: match self.credentials {
                Some(c) => Some(
                    CredentialState {
                        key_name: c.key_name@,
                        key_hex: c.signer@.key_hex,
                        market: c.signer@.market,
                        chain_id: c.signer@.chain_id,
                        last_nonce: c.nonces@,
                    },
                ),
                None => None,
            },
        }
    }
}

/// The headers of a signed trading request, in the order they are sent.
pub open spec fn trading_headers(key_name: Seq<char>, signature: Seq<u8>, nonce: u64) -> Seq<
    (Seq<char>, Seq<char>),
> {
    seq![
        ("Content-Type"@, "application/json"@),
        ("Accept"@, "application/json"@),
        (HEADER_API_KEY@, key_name),
        (HEADER_API_SIGN@, prefixed_hex(signature)),
        (HEADER_API_NONCE@, decimal(nonce as nat)),
    ]
}

fn pair(a: &str, b: &str) -> (p: (String, String))
    ensures
        p.0@ == a@,
        p.1@ == b@,
{
    (owned(a), owned(b))
}

/// The bytes of a text.
pub fn text_bytes(s: &str) -> (b: Vec<u8>)
    ensures
        b@ == vstd::utf8::encode_utf8(s@),
{
    let mut b: Vec<u8> = Vec::new();
    append_bytes(&mut b, s.as_bytes());
    proof {
        assert(b@ =~= vstd::utf8::encode_utf8(s@));
    }
    b
}

impl SodexHttpClient {
    /// A client for unsigned market-data endpoints.
    pub fn new_public(network: Network, market: Market) -> (r: Result<Self, ClientError>)
        ensures
            r matches Ok(c) && c@.network == network && c@.market == market && c@.credentials is None,
    {
        Ok(SodexHttpClient { network, market, credentials: None })
    }

    /// A client that can sign trading actions with a registered API key, its nonces seeded
    /// from the clock.
    pub fn with_credentials(
        network: Network,
        market: Market,
        key_name: ApiKeyName,
        key: &ApiPrivateKey,
    ) -> (r: Result<Self, ClientError>)
        ensures
            crate::signing::signers::secp256k1_address(key@) is None ==> r matches Err(
                ClientError::Signing(SigningError::Signer(_)),
            ),
            r matches Ok(c) ==> (c@.network == network && c@.market == market && (c@.credentials
                matches Some(k) && k.key_name == key_name@ && k.key_hex == key@ && k.market == market
                && k.chain_id == network.spec_chain_id())),
            crate::signing::signers::secp256k1_address(key@) is Some ==> r is Ok,
    {
        let signer = match ExchangeSigner::new(key, market, network.chain_id()) {
            Ok(s) => s,
            Err(e) => return Err(ClientError::Signing(e)),
        };
        Ok(
            SodexHttpClient {
                network,
                market,
                credentials: Some(Credentials { key_name, signer, nonces: NonceGenerator::new() }),
            },
        )
    }

    /// Whether this client can sign.
    pub fn can_sign(&self) -> (b: bool)
        ensures
            b == self@.credentials is Some,
    {
        self.credentials.is_some()
    }

    /// Absolute URL for a market-scoped path such as `/trade/orders`.
    pub fn url_for(&self, path: &str) -> (u: String)
        ensures
            u@ == self@.network.spec_market_base(self@.market) + path@,
    {
        let mut u = self.network.market_base(self.market);
        push_str(&mut u, path);
        u
    }

    /// Prepares a signed request without sending it. `action_type` goes into the signing
    /// payload but not into the body; `params_json` is the exact body.
    pub fn build_signed(
        &mut self,
        method: HttpMethod,
        path: &str,
        action_type: &str,
        params_json: &str,
    ) -> (r: Result<SignedRequest, ClientError>)
        ensures
            old(self)@.credentials is None ==> r == Err::<SignedRequest, ClientError>(
                ClientError::CredentialsRequired,
            ),
            final(self)@.network == old(self)@.network,
            final(self)@.market == old(self)@.market,
            old(self)@.credentials is None ==> final(self)@.credentials is None,
            old(self)@.credentials matches Some(c) ==> (final(self)@.credentials matches Some(k) && {
                let n = k.last_nonce;
                &&& k.key_name == c.key_name
                &&& k.key_hex == c.key_hex
                &&& k.market == c.market
                &&& k.chain_id == c.chain_id
                &&& (c.last_nonce < u64::MAX ==> n > c.last_nonce)
                &&& match exchange_signature(
                    c.key_hex,
                    c.market,
                    c.chain_id,
                    spec_payload_hash(action_type@, params_json@),
                    n,
                ) {
                    Some(sig) => r matches Ok(req) && req.method == method && req.url@
                        == old(self)@.network.spec_market_base(old(self)@.market) + path@
                        && header_views(req.headers@) == trading_headers(c.key_name, sig, n)
                        && req.body@ == vstd::utf8::encode_utf8(params_json@),
                    None => r matches Err(ClientError::Signing(_)),
                }
            }),
    {
        let url = self.url_for(path);
        match &mut self.credentials {
            None => Err(ClientError::CredentialsRequired),
            Some(credentials) => {
                let digest = payload_hash(action_type, params_json);
                let nonce = credentials.nonces.next();
                let signature = match credentials.signer.sign_action(digest.as_slice(), nonce) {
                    Ok(s) => s,
                    Err(e) => return Err(ClientError::Signing(e)),
                };
                let mut headers: Vec<(String, String)> = Vec::new();
                headers.push(pair("Content-Type", "application/json"));
                headers.push(pair("Accept", "application/json"));
                headers.push(pair(HEADER_API_KEY, credentials.key_name.as_str()));
                let sign = encode_prefixed(signature.as_slice());
                headers.push(pair(HEADER_API_SIGN, sign.as_str()));
                let n = u64_decimal(nonce);
                headers.push(pair(HEADER_API_NONCE, n.as_str()));
                proof {
                    assert(header_views(headers@) =~= trading_headers(
                        credentials.key_name@,
                        signature@,
                        nonce,
                    ));
                }
                Ok(SignedRequest { method, url, headers, body: text_bytes(params_json) })
            },
        }
    }
}

/// The error for a non-success HTTP status, carrying the body as text; `None` for a status
/// in `200..300`.
pub fn status_error(status: u16, body_text: &str) -> (r: Option<ClientError>)
    ensures
        200 <= status < 300 ==> r is None,
        !(200 <= status < 300) ==> (r matches Some(ClientError::Status { status: s, body })
            && s == status && body@ == body_text@),
{
    if 200 <= status && status < 300 {
        None
    } else {
        Some(ClientError::Status { status, body: owned(body_text) })
    }
}

/// What a decoded envelope yields for an endpoint that returns a payload: the payload, or
/// the envelope's error as a transport failure.
pub fn envelope_payload<T>(envelope: ApiResponse<T>) -> (r: Result<T, ClientError>)
    ensures
        envelope.error matches Some(m) ==> (r matches Err(ClientError::Transport(t)) && t@
            == (EnvelopeError::Venue { code: envelope.code, message: m }).spec_message()),
        envelope.error is None && envelope.data is Some ==> r == Ok::<T, ClientError>(envelope.data->0),
        envelope.error is None && envelope.data is None ==> (r matches Err(
            ClientError::Transport(t),
        ) && t@ == super::models::MISSING_DATA@),
{
    match envelope.into_result() {
        Ok(d) => Ok(d),
        Err(e) => Err(ClientError::Transport(e.message())),
    }
}

/// What a decoded envelope yields for an endpoint that may return nothing: an absent
/// payload is success.
pub fn envelope_optional<T>(envelope: ApiResponse<T>) -> (r: Result<Option<T>, ClientError>)
    ensures
        envelope.error matches Some(m) ==> (r matches Err(ClientError::Transport(t)) && t@
            == (EnvelopeError::Venue { code: envelope.code, message: m }).spec_message()),
        envelope.error is None ==> r == Ok::<Option<T>, ClientError>(envelope.data),
{
    match envelope.into_result() {
        Ok(d) => Ok(Some(d)),
        Err(EnvelopeError::MissingData) => Ok(None),
        Err(other) => Err(ClientError::Transport(other.message())),
    }
}

} // verus!
