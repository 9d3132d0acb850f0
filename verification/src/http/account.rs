//! Account-level requests: registering and revoking API keys.
//!
//! These are the only actions signed by the master wallet, and they are one-off setup rather
//! than part of a trading loop, so [`AccountClient`] is separate from the trading client: a
//! trading process never holds the key that can authorize withdrawals.
use vstd::prelude::*;

use super::client::{
    encode_prefixed, header_views, prefixed_hex, text_bytes, ClientError, HttpMethod,
    SignedRequest, HEADER_API_NONCE, HEADER_API_SIGN,
};
use super::Network;
use crate::common::credential::{
    key_parse_matches, private_key_outcome, ApiKeyName, ApiPrivateKey, MasterPrivateKey,
};
use crate::common::enums::{withholds, DisabledPermissions};
use crate::common::Market;
use crate::json::{json_bool, opt_decimal, opt_member, push_lit, push_opt_u64, push_u64, ToJson};
use crate::signing::eip712::{payload_hash, spec_payload_hash, AddApiKeyFields};
use crate::signing::nonce::NonceGenerator;
use crate::signing::signers::{exchange_signature, secp256k1_address, ExchangeSigner};
use crate::signing::universal::{registration_signature, UniversalSigner};
use crate::text::{
    decimal, hex_lower, json_string, owned, push_json_string, push_str, u64_decimal, utf8_len,
    utf8_width,
};

verus! {

/// Header selecting the signature domain's chain id; account-level actions only, and equal
/// to the `chainId` of the signature's domain.
pub const HEADER_API_CHAIN: &'static str = "X-API-Chain";

/// API key type. Only EVM keys are currently supported.
pub const API_KEY_TYPE_EVM: u8 = 1;

/// Never expires.
pub const NO_EXPIRY: u64 = 0;

/// The path of the key-management endpoint.
pub const API_KEYS_PATH: &'static str = "/accounts/api-keys";

/// Refusal of a permissioned key that leaves both trading and cancelling enabled.
pub const PERMISSIONS_REFUSED: &'static str = "a permissioned key must disable TRADE, CANCEL, or both";

/// Body of the add-API-key request. Note `type` here versus `keyType` in the signed struct.
#[derive(Debug, Clone)]
pub struct AddApiKeyRequest {
    pub account_id: u64,
    pub name: String,
    pub key_type: u8,
    pub public_key: String,
    pub expires_at: u64,
    pub permissions: Option<u64>,
}

/// The add-API-key body for the given field values.
pub open spec fn add_body_json(
    account_id: u64,
    name: Seq<char>,
    key_type: u8,
    public_key: Seq<char>,
    expires_at: u64,
    permissions: Option<u64>,
) -> Seq<char> {
    "{\"accountID\":"@ + decimal(account_id as nat) + ",\"name\":"@ + json_string(name)
        + ",\"type\":"@ + decimal(key_type as nat) + ",\"publicKey\":"@ + json_string(public_key)
        + ",\"expiresAt\":"@ + decimal(expires_at as nat) + opt_member(
        ",\"permissions\":"@,
        opt_decimal(permissions),
    ) + "}"@
}

impl ToJson for AddApiKeyRequest {
    open spec fn json(&self) -> Seq<char> {
        add_body_json(
            self.account_id,
            self.name@,
            self.key_type,
            self.public_key@,
            self.expires_at,
            self.permissions,
        )
    }

    fn write_json(&self, out: &mut String) {
        let s = self.to_json();
        push_str(out, s.as_str());
    }
}

impl AddApiKeyRequest {
    /// The exact body.
    pub fn to_json(&self) -> (s: String)
        ensures
            s@ == self.json(),
    {
        let mut out = owned("{\"accountID\":");
        push_u64(&mut out, self.account_id);
        push_lit(&mut out, ",\"name\":");
        push_json_string(&mut out, self.name.as_str());
        push_lit(&mut out, ",\"type\":");
        push_u64(&mut out, self.key_type as u64);
        push_lit(&mut out, ",\"publicKey\":");
        push_json_string(&mut out, self.public_key.as_str());
        push_lit(&mut out, ",\"expiresAt\":");
        push_u64(&mut out, self.expires_at);
        push_opt_u64(&mut out, ",\"permissions\":", self.permissions);
        push_lit(&mut out, "}");
        out
    }
}

/// Body of the revoke request.
#[derive(Debug, Clone)]
pub struct RevokeApiKeyRequest {
    pub account_id: u64,
    pub name: String,
}

/// The revoke body for the given field values.
pub open spec fn revoke_body_json(account_id: u64, name: Seq<char>) -> Seq<char> {
    "{\"accountID\":"@ + decimal(account_id as nat) + ",\"name\":"@ + json_string(name) + "}"@
}

impl ToJson for RevokeApiKeyRequest {
    open spec fn json(&self) -> Seq<char> {
        revoke_body_json(self.account_id, self.name@)
    }

    fn write_json(&self, out: &mut String) {
        let s = self.to_json();
        push_str(out, s.as_str());
    }
}

impl RevokeApiKeyRequest {
    /// The exact body.
    pub fn to_json(&self) -> (s: String)
        ensures
            s@ == self.json(),
    {
        let mut out = owned("{\"accountID\":");
        push_u64(&mut out, self.account_id);
        push_lit(&mut out, ",\"name\":");
        push_json_string(&mut out, self.name.as_str());
        push_lit(&mut out, "}");
        out
    }
}

/// A freshly generated signing credential.
#[derive(Debug)]
pub struct GeneratedApiKey {
    /// The 20-byte address to register with the venue.
    pub public_key: Vec<u8>,
    /// Keep this locally; it signs trading actions.
    pub private_key: ApiPrivateKey,
}

pub open spec fn is_lower_hex_char(c: char) -> bool {
    ('0' <= c && c <= '9') || ('a' <= c && c <= 'f')
}

/// Generates a key with `PrivateKeySigner::random`, returning `hex::encode` of its 32 bytes
/// and its address. The contract states what the construction shows: 64 lowercase hex
/// digits, whose key has exactly that address. The key itself comes from the thread's
/// random number generator, so nothing is said of its value.
#[verifier::external_body]
fn random_key() -> (r: (String, Vec<u8>))
    ensures
        r.0@.len() == 64,
        forall|i: int| 0 <= i < 64 ==> #[trigger] is_lower_hex_char(r.0@[i]),
        secp256k1_address(r.0@) == Some(r.1@),
        r.1@.len() == 20,
{
    let signer = alloy::signers::local::PrivateKeySigner::random();
    (alloy_primitives::hex::encode(signer.to_bytes()), signer.address().to_vec())
}

proof fn lemma_ascii_utf8_len(s: Seq<char>)
    requires
        forall|i: int| 0 <= i < s.len() ==> #[trigger] is_lower_hex_char(s[i]),
    ensures
        utf8_len(s) == s.len(),
    decreases s.len(),
{
    if s.len() > 0 {
        assert(is_lower_hex_char(s[s.len() - 1]));
        assert forall|i: int| 0 <= i < s.drop_last().len() implies #[trigger] is_lower_hex_char(
            s.drop_last()[i],
        ) by {
            assert(s.drop_last()[i] == s[i]);
        }
        lemma_ascii_utf8_len(s.drop_last());
    }
}

/// Generates a fresh secp256k1 keypair for use as an API key. The private key parses as an
/// API key, and the reported address is the address of that key.
pub fn generate_api_key() -> (r: Result<GeneratedApiKey, ClientError>)
    ensures
        r matches Ok(g) && secp256k1_address(g.private_key@) == Some(g.public_key@)
            && g.public_key@.len() == 20 && g.private_key@.len() == 64,
{
    let (hex, public_key) = random_key();
    proof {
        lemma_ascii_utf8_len(hex@);
        assert(is_lower_hex_char(hex@[1]));
        assert(crate::common::credential::strip_hex_prefix(hex@) == hex@);
        assert forall|i: int| 0 <= i < hex@.len() implies #[trigger] crate::text::is_ascii_hexdigit(
            hex@[i],
        ) by {
            assert(is_lower_hex_char(hex@[i]));
        }
        assert(crate::common::credential::all_hex(hex@));
        assert forall|i: int| 0 <= i < hex@.len() implies #[trigger] crate::text::ascii_lower(hex@[i])
            == hex@[i] by {
            assert(is_lower_hex_char(hex@[i]));
        }
        assert(crate::common::credential::lowercase(hex@) =~= hex@);
    }
    match ApiPrivateKey::parse(hex.as_str()) {
        Ok(private_key) => Ok(GeneratedApiKey { public_key, private_key }),
        Err(e) => Err(ClientError::Credential(e)),
    }
}

/// What an account client holds.
pub struct AccountClientState {
    pub network: Network,
    pub market: Market,
    pub master_hex: Seq<char>,
    pub master_address: Seq<u8>,
    pub api_chain: u64,
    pub last_nonce: u64,
}

/// Client for master-wallet-signed account actions.
#[derive(Debug)]
pub struct AccountClient {
    network: Network,
    market: Market,
    signer: UniversalSigner,
    /// Same master key, exchange domain. Only `revokeAPIKey` needs this combination.
    revocation_signer: ExchangeSigner,
    nonces: NonceGenerator,
}

impl View for AccountClient {
    type V = AccountClientState;

    closed spec fn view(&self) -> AccountClientState {
        AccountClientState {
            network: self.network,
            market: self.market,
            master_hex: self.signer@.key_hex,
            master_address: self.signer@.address,
            api_chain: self.signer@.api_chain,
            last_nonce: self.nonces@,
        }
    }
}

/// The headers of an account request: the signature, the nonce, and, for the universal
/// domain only, the domain chain id.
pub open spec fn account_headers(signature: Seq<u8>, nonce: u64, api_chain: Option<u64>) -> Seq<
    (Seq<char>, Seq<char>),
> {
    seq![
        ("Content-Type"@, "application/json"@),
        ("Accept"@, "application/json"@),
        (HEADER_API_SIGN@, prefixed_hex(signature)),
        (HEADER_API_NONCE@, decimal(nonce as nat)),
    ] + match api_chain {
        Some(c) => seq![(HEADER_API_CHAIN@, decimal(c as nat))],
        None => Seq::<(Seq<char>, Seq<char>)>::empty(),
    }
}

fn account_header_list(signature: &[u8], nonce: u64, api_chain: Option<u64>) -> (h: Vec<
    (String, String),
>)
    ensures
        header_views(h@) == account_headers(signature@, nonce, api_chain),
{
    let mut h: Vec<(String, String)> = Vec::new();
    h.push((owned("Content-Type"), owned("application/json")));
    h.push((owned("Accept"), owned("application/json")));
    h.push((owned(HEADER_API_SIGN), encode_prefixed(signature)));
    h.push((owned(HEADER_API_NONCE), u64_decimal(nonce)));
    match api_chain {
        Some(c) => {
            h.push((owned(HEADER_API_CHAIN), u64_decimal(c)));
        },
        None => {},
    }
    proof {
        assert(header_views(h@) =~= account_headers(signature@, nonce, api_chain));
    }
    h
}

/// Whether a permission mask is one the venue refuses: it must withhold trading,
/// cancelling, or both.
pub open spec fn permissions_refused(permissions: Option<DisabledPermissions>) -> bool {
    match permissions {
        Some(mask) => !withholds(mask@, DisabledPermissions::TRADE) && !withholds(
            mask@,
            DisabledPermissions::CANCEL,
        ),
        None => false,
    }
}

impl AccountClient {
    /// Both signers hold the master key; the universal one signs on the network's chain id,
    /// and the revocation one under this market's exchange domain on the same chain.
    #[verifier::type_invariant]
    spec fn bound(self) -> bool {
        &&& self.revocation_signer@.key_hex == self.signer@.key_hex
        &&& self.revocation_signer@.market == self.market
        &&& self.revocation_signer@.chain_id == self.network.spec_chain_id()
    }

    /// A client that signs with the master wallet: under the universal domain with the
    /// network's chain id, and, for revocation, under the market's exchange domain.
    pub fn new(network: Network, market: Market, master_key: &MasterPrivateKey) -> (r: Result<
        Self,
        ClientError,
    >)
        ensures
            secp256k1_address(master_key@) is None ==> r is Err,
            secp256k1_address(master_key@) matches Some(a) ==> (r matches Ok(c) && c@.network
                == network && c@.market == market && c@.master_hex == master_key@
                && c@.master_address == a && c@.api_chain == network.spec_chain_id()),
    {
        let signer = match UniversalSigner::for_network(master_key, network.chain_id()) {
            Ok(s) => s,
            Err(e) => return Err(ClientError::Signing(e)),
        };
        let revocation_signer = match ExchangeSigner::for_master_revocation(
            master_key,
            market,
            network.chain_id(),
        ) {
            Ok(s) => s,
            Err(e) => return Err(ClientError::Signing(e)),
        };
        Ok(AccountClient { network, market, signer, revocation_signer, nonces: NonceGenerator::new() })
    }

    /// The master wallet address the venue will recover from the signature.
    pub fn master_address(&self) -> (a: Vec<u8>)
        ensures
            a@ == self@.master_address,
    {
        self.signer.address()
    }

    fn url_for(&self, path: &str) -> (u: String)
        ensures
            u@ == self@.network.spec_market_base(self@.market) + path@,
    {
        let mut u = self.network.market_base(self.market);
        push_str(&mut u, path);
        u
    }

    /// Prepares a signed add-API-key request without sending it. `permissions` is a mask
    /// of withheld permissions, `None` enabling everything; a mask that leaves both trading
    /// and cancelling enabled is refused here rather than at the gateway.
    pub fn build_add_api_key(
        &mut self,
        account_id: u64,
        name: &ApiKeyName,
        public_key: &[u8],
        expires_at: u64,
        permissions: Option<DisabledPermissions>,
    ) -> (r: Result<SignedRequest, ClientError>)
        ensures
            permissions_refused(permissions) ==> (r matches Err(ClientError::Transport(m)) && m@
                == PERMISSIONS_REFUSED@) && final(self)@ == old(self)@,
            !permissions_refused(permissions) ==> {
                let n = final(self)@.last_nonce;
                let mask = match permissions {
                    Some(p) => Some(p@),
                    None => None,
                };
                &&& final(self)@.network == old(self)@.network
                &&& final(self)@.market == old(self)@.market
                &&& final(self)@.master_hex == old(self)@.master_hex
                &&& final(self)@.api_chain == old(self)@.api_chain
                &&& (old(self)@.last_nonce < u64::MAX ==> n > old(self)@.last_nonce)
                &&& match registration_signature(
                    old(self)@.master_hex,
                    old(self)@.api_chain,
                    (AddApiKeyFields {
                        chain_id: old(self)@.network.spec_chain_id(),
                        nonce: n,
                        account_id,
                        name: name@,
                        key_type: API_KEY_TYPE_EVM,
                        public_key: public_key@,
                        expires_at,
                    }),
                    mask,
                ) {
                        Some(sig) => r matches Ok(req) && req.method == HttpMethod::Post && req.url@
                            == old(self)@.network.spec_market_base(old(self)@.market) + API_KEYS_PATH@
                            && header_views(req.headers@) == account_headers(sig, n, Some(old(self)@.api_chain))
                            && req.body@ == vstd::utf8::encode_utf8(
                            add_body_json(
                                account_id,
                                name@,
                                API_KEY_TYPE_EVM,
                                prefixed_hex(public_key@),
                                expires_at,
                                mask,
                            ),
                        ),
                        None => r is Err,
                    }
            },
    {
        proof {
            use_type_invariant(&*self);
        }
        match permissions {
            Some(mask) => {
                if !mask.is_disabled(DisabledPermissions::TRADE) && !mask.is_disabled(
                    DisabledPermissions::CANCEL,
                ) {
                    return Err(ClientError::Transport(owned(PERMISSIONS_REFUSED)));
                }
            },
            None => {},
        }
        let mut nonces = NonceGenerator::starting_at(self.nonces.last_issued());
        let nonce = nonces.next();
        self.nonces = nonces;
        let network_chain_id = self.network.chain_id();
        let signature = match permissions {
            None => self.signer.sign_add_api_key(
                network_chain_id,
                nonce,
                account_id,
                name.as_str(),
                API_KEY_TYPE_EVM,
                public_key,
                expires_at,
            ),
            Some(mask) => self.signer.sign_add_permissioned_api_key(
                network_chain_id,
                nonce,
                account_id,
                name.as_str(),
                API_KEY_TYPE_EVM,
                public_key,
                expires_at,
                mask.as_mask(),
            ),
        };
        let signature = match signature {
            Ok(s) => s,
            Err(e) => return Err(ClientError::Signing(e)),
        };
        let mask: Option<u64> = match permissions {
            Some(p) => Some(p.as_mask()),
            None => None,
        };
        let body = AddApiKeyRequest {
            account_id,
            name: owned(name.as_str()),
            key_type: API_KEY_TYPE_EVM,
            public_key: encode_prefixed(public_key),
            expires_at,
            permissions: mask,
        };
        let json = body.to_json();
        let headers = account_header_list(signature.as_slice(), nonce, Some(self.signer.api_chain()));
        let url = self.url_for(API_KEYS_PATH);
        Ok(SignedRequest { method: HttpMethod::Post, url, headers, body: text_bytes(json.as_str()) })
    }

    /// Prepares a signed revoke request without sending it. Revocation is signed with the
    /// master key under the market's exchange domain, prefix `0x01`, and carries no
    /// `X-API-Chain` header.
    pub fn build_revoke_api_key(&mut self, account_id: u64, name: &ApiKeyName) -> (r: Result<
        SignedRequest,
        ClientError,
    >)
        ensures
            ({
                let n = final(self)@.last_nonce;
                let body = revoke_body_json(account_id, name@);
                &&& final(self)@.network == old(self)@.network
                &&& final(self)@.market == old(self)@.market
                &&& final(self)@.master_hex == old(self)@.master_hex
                &&& final(self)@.api_chain == old(self)@.api_chain
                &&& (old(self)@.last_nonce < u64::MAX ==> n > old(self)@.last_nonce)
                &&& match exchange_signature(
                    old(self)@.master_hex,
                    old(self)@.market,
                    old(self)@.network.spec_chain_id(),
                    spec_payload_hash("revokeAPIKey"@, body),
                    n,
                ) {
                    Some(sig) => r matches Ok(req) && req.method == HttpMethod::Delete && req.url@
                        == old(self)@.network.spec_market_base(old(self)@.market) + API_KEYS_PATH@
                        && header_views(req.headers@) == account_headers(sig, n, None)
                        && req.body@ == vstd::utf8::encode_utf8(body),
                    None => r is Err,
                }
            }),
    {
        proof {
            use_type_invariant(&*self);
        }
        let mut nonces = NonceGenerator::starting_at(self.nonces.last_issued());
        let nonce = nonces.next();
        self.nonces = nonces;
        let body = RevokeApiKeyRequest { account_id, name: owned(name.as_str()) };
        let json = body.to_json();
        let digest = payload_hash("revokeAPIKey", json.as_str());
        let signature = match self.revocation_signer.sign_action(digest.as_slice(), nonce) {
            Ok(s) => s,
            Err(e) => return Err(ClientError::Signing(e)),
        };
        let headers = account_header_list(signature.as_slice(), nonce, None);
        let url = self.url_for(API_KEYS_PATH);
        Ok(SignedRequest { method: HttpMethod::Delete, url, headers, body: text_bytes(json.as_str()) })
    }
}

} // verus!
