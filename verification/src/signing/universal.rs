//! Account-level signing under the universal domain.
//!
//! Registering and revoking API keys changes who may trade, so the venue requires those
//! actions to be signed by the master wallet under a separate EIP-712 domain named
//! `universal`, with signatures prefixed `0x02`.
//!
//! Two chain ids appear in one signature: `domain.chainId` must equal the `X-API-Chain`
//! header and may be any `u64`; `message.chainID` selects mainnet or testnet.
//!
//! The request body names the key type `type`; the signed struct names it `keyType`.
use vstd::prelude::*;

use super::eip712::{
    add_api_key_hash, compute_add_api_key_hash, compute_domain_separator, compute_typed_digest,
    domain_separator, typed_digest, AddApiKeyAction, AddApiKeyFields,
};
use super::signers::{
    derive_address, secp256k1_address, secp256k1_signature, sign_digest, SigningError,
    INVALID_KEY, SIGNING_FAILED,
};
use crate::common::credential::MasterPrivateKey;
use crate::common::SignatureKind;
use crate::text::owned;

verus! {

/// The domain of account-level actions.
pub const UNIVERSAL_DOMAIN: &'static str = "universal";

/// The `X-API-Sign` value of a registration: prefix `0x02`, then the signature over the
/// registration digest under the universal domain on `api_chain`.
pub open spec fn registration_signature(
    key_hex: Seq<char>,
    api_chain: u64,
    action: AddApiKeyFields,
    permissions: Option<u64>,
) -> Option<Seq<u8>> {
    let digest = typed_digest(
        domain_separator(UNIVERSAL_DOMAIN@, api_chain),
        add_api_key_hash(action, permissions),
    );
    match secp256k1_signature(key_hex, digest) {
        Some(sig) => Some(seq![SignatureKind::Universal.spec_prefix()] + sig),
        None => None,
    }
}

/// Signs account-level actions with the master wallet.
#[derive(Debug, Clone)]
pub struct UniversalSigner {
    key_hex: String,
    address: Vec<u8>,
    api_chain: u64,
}

/// What a universal signer holds.
pub struct UniversalSignerState {
    pub key_hex: Seq<char>,
    pub address: Seq<u8>,
    pub api_chain: u64,
}

impl View for UniversalSigner {
    type V = UniversalSignerState;

    closed spec fn view(&self) -> UniversalSignerState {
        UniversalSignerState { key_hex: self.key_hex@, address: self.address@, api_chain: self.api_chain }
    }
}

impl UniversalSigner {
    /// A signer with an explicit domain chain id.
    pub fn new(key: &MasterPrivateKey, api_chain: u64) -> (r: Result<Self, SigningError>)
        ensures
            secp256k1_address(key@) is None ==> (r matches Err(SigningError::Signer(m)) && m@ == INVALID_KEY@),
            secp256k1_address(key@) matches Some(a) ==> (r matches Ok(s) && s@.key_hex == key@
                && s@.address == a && s@.api_chain == api_chain),
    {
        match derive_address(key.as_hex()) {
            Some(address) => Ok(UniversalSigner { key_hex: owned(key.as_hex()), address, api_chain }),
            None => Err(SigningError::Signer(owned(INVALID_KEY))),
        }
    }

    /// A signer whose domain chain id mirrors the network's chain id.
    pub fn for_network(key: &MasterPrivateKey, chain_id: u64) -> (r: Result<Self, SigningError>)
        ensures
            secp256k1_address(key@) is None ==> (r matches Err(SigningError::Signer(m)) && m@ == INVALID_KEY@),
            secp256k1_address(key@) matches Some(a) ==> (r matches Ok(s) && s@.key_hex == key@
                && s@.address == a && s@.api_chain == chain_id),
    {
        Self::new(key, chain_id)
    }

    /// The value that must be sent as `X-API-Chain`: the domain chain id.
    pub fn api_chain(&self) -> (c: u64)
        ensures
            c == self@.api_chain,
    {
        self.api_chain
    }

    /// The master wallet's address.
    pub fn address(&self) -> (a: Vec<u8>)
        ensures
            a@ == self@.address,
    {
        self.address.clone()
    }

    fn finish(&self, action: &AddApiKeyAction, permissions: Option<u64>) -> (r: Result<
        Vec<u8>,
        SigningError,
    >)
        ensures
            match registration_signature(self@.key_hex, self@.api_chain, action@, permissions) {
                Some(s) => r matches Ok(v) && v@ == s && v@.len() == 66,
                None => r matches Err(SigningError::Sign(m)) && m@ == SIGNING_FAILED@,
            },
    {
        let domain = compute_domain_separator(UNIVERSAL_DOMAIN, self.api_chain);
        let hash = compute_add_api_key_hash(action, permissions);
        let digest = compute_typed_digest(domain.as_slice(), hash.as_slice());
        match sign_digest(self.key_hex.as_str(), digest.as_slice()) {
            Some(sig) => {
                let mut out: Vec<u8> = Vec::new();
                out.push(SignatureKind::Universal.prefix());
                super::eip712::append_bytes(&mut out, sig.as_slice());
                proof {
                    assert(out@ =~= seq![SignatureKind::Universal.spec_prefix()] + sig@);
                }
                Ok(out)
            },
            None => Err(SigningError::Sign(owned(SIGNING_FAILED))),
        }
    }

    /// Signs an `addAPIKey` action. `public_key` is the address of the key being registered.
    pub fn sign_add_api_key(
        &self,
        network_chain_id: u64,
        nonce: u64,
        account_id: u64,
        name: &str,
        key_type: u8,
        public_key: &[u8],
        expires_at: u64,
    ) -> (r: Result<Vec<u8>, SigningError>)
        ensures
            match registration_signature(
                self@.key_hex,
                self@.api_chain,
                (AddApiKeyFields {
                    chain_id: network_chain_id,
                    nonce,
                    account_id,
                    name: name@,
                    key_type,
                    public_key: public_key@,
                    expires_at,
                }),
                None,
            ) {
                Some(s) => r matches Ok(v) && v@ == s,
                None => r is Err,
            },
    {
        let mut key_bytes: Vec<u8> = Vec::new();
        super::eip712::append_bytes(&mut key_bytes, public_key);
        proof {
            assert(key_bytes@ =~= public_key@);
        }
        let action = AddApiKeyAction {
            chain_id: network_chain_id,
            nonce,
            account_id,
            name: owned(name),
            key_type,
            public_key: key_bytes,
            expires_at,
        };
        let r = self.finish(&action, None);
        proof {
            assert(action@ == (AddApiKeyFields {
                chain_id: network_chain_id,
                nonce,
                account_id,
                name: name@,
                key_type,
                public_key: public_key@,
                expires_at,
            }));
        }
        r
    }

    /// Signs an `addPermissionedAPIKey` action; set bits of `permissions` disable the
    /// corresponding permission.
    pub fn sign_add_permissioned_api_key(
        &self,
        network_chain_id: u64,
        nonce: u64,
        account_id: u64,
        name: &str,
        key_type: u8,
        public_key: &[u8],
        expires_at: u64,
        permissions: u64,
    ) -> (r: Result<Vec<u8>, SigningError>)
        ensures
            match registration_signature(
                self@.key_hex,
                self@.api_chain,
                (AddApiKeyFields {
                    chain_id: network_chain_id,
                    nonce,
                    account_id,
                    name: name@,
                    key_type,
                    public_key: public_key@,
                    expires_at,
                }),
                Some(permissions),
            ) {
                Some(s) => r matches Ok(v) && v@ == s,
                None => r is Err,
            },
    {
        let mut key_bytes: Vec<u8> = Vec::new();
        super::eip712::append_bytes(&mut key_bytes, public_key);
        proof {
            assert(key_bytes@ =~= public_key@);
        }
        let action = AddApiKeyAction {
            chain_id: network_chain_id,
            nonce,
            account_id,
            name: owned(name),
            key_type,
            public_key: key_bytes,
            expires_at,
        };
        let r = self.finish(&action, Some(permissions));
        proof {
            assert(action@ == (AddApiKeyFields {
                chain_id: network_chain_id,
                nonce,
                account_id,
                name: name@,
                key_type,
                public_key: public_key@,
                expires_at,
            }));
        }
        r
    }
}

} // verus!
