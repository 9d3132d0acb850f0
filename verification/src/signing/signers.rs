//! Trading-action signing with a registered API key.
use vstd::prelude::*;

use alloy::signers::local::PrivateKeySigner;
use alloy::signers::SignerSync;

use super::eip712::{
    compute_domain_separator, compute_exchange_action_hash, compute_typed_digest, domain_hash,
    domain_separator, exchange_action_hash, keccak, typed_digest,
};
use crate::common::credential::{ApiPrivateKey, MasterPrivateKey};
use crate::common::{Market, SignatureKind};
use crate::text::owned;

verus! {

/// Errors raised while signing.
#[derive(Debug, Clone, PartialEq, Eq)]
pub enum SigningError {
    /// The key is not a usable secp256k1 private key.
    Signer(String),
    /// The digest could not be signed.
    Sign(String),
}

/// Reason given for a key that does not make a signer.
pub const INVALID_KEY: &'static str = "private key is not a valid secp256k1 key";

/// Reason given for a digest that could not be signed.
pub const SIGNING_FAILED: &'static str = "failed to sign digest";

/// The 20-byte address of the key with the given hex, if the hex is a valid key.
pub uninterp spec fn secp256k1_address(key_hex: Seq<char>) -> Option<Seq<u8>>;

/// The 65-byte `r ‖ s ‖ v` signature of a 32-byte digest under the key with the given hex,
/// if the key is valid and signing succeeds.
pub uninterp spec fn secp256k1_signature(key_hex: Seq<char>, digest: Seq<u8>) -> Option<Seq<u8>>;

/// Derives the address of a key with `PrivateKeySigner::from_str` and `address`. The
/// contract names the outcome, a function of the key text alone, and states the address
/// length; which texts are valid keys is left to the name.
#[verifier::external_body]
pub(crate) fn derive_address(key_hex: &str) -> (r: Option<Vec<u8>>)
    ensures
        match r {
            Some(a) => secp256k1_address(key_hex@) == Some(a@) && a@.len() == 20,
            None => secp256k1_address(key_hex@) is None,
        },
{
    let signer = <PrivateKeySigner as core::str::FromStr>::from_str(key_hex).ok()?;
    Some(signer.address().to_vec())
}

/// Signs a 32-byte digest with `PrivateKeySigner::from_str`, `sign_hash_sync` and
/// `Signature::as_bytes`. The contract names the outcome, which RFC 6979 makes a function
/// of the key text and digest alone, and states the 65-byte length.
#[verifier::external_body]
pub(crate) fn sign_digest(key_hex: &str, digest: &[u8]) -> (r: Option<Vec<u8>>)
    requires
        digest@.len() == 32,
    ensures
        match r {
            Some(s) => secp256k1_signature(key_hex@, digest@) == Some(s@) && s@.len() == 65,
            None => secp256k1_signature(key_hex@, digest@) is None,
        },
{
    let signer = <PrivateKeySigner as core::str::FromStr>::from_str(key_hex).ok()?;
    let digest = alloy_primitives::B256::from_slice(digest);
    let signature = signer.sign_hash_sync(&digest).ok()?;
    Some(signature.as_bytes().to_vec())
}

/// The trading-action digest for a payload hash and nonce on a market and chain.
pub open spec fn exchange_digest(market: Market, chain_id: u64, payload_hash: Seq<u8>, nonce: u64) -> Seq<u8> {
    typed_digest(
        domain_separator(market.spec_domain_name(), chain_id),
        exchange_action_hash(payload_hash, nonce),
    )
}

/// The digest a trading action is signed over is EIP-712's: `0x19 0x01`, then the separator
/// of the market's domain (`spot` or `futures`, version `1`, the chain id, the zero verifying
/// contract), then the action's struct hash. Spot and perps, mainnet and testnet, never
/// share a domain.
pub proof fn lemma_exchange_digest_is_typed(market: Market, chain_id: u64, payload_hash: Seq<u8>, nonce: u64)
    ensures
        exchange_digest(market, chain_id, payload_hash, nonce) == keccak(
            seq![0x19u8, 0x01u8] + domain_hash(
                if market == Market::Spot {
                    "spot"@
                } else {
                    "futures"@
                },
                "1"@,
                chain_id,
                Seq::new(20, |i: int| 0u8),
            ) + exchange_action_hash(payload_hash, nonce),
        ),
{
}

/// The `X-API-Sign` value of a trading action: prefix `0x01`, then the signature.
pub open spec fn exchange_signature(
    key_hex: Seq<char>,
    market: Market,
    chain_id: u64,
    payload_hash: Seq<u8>,
    nonce: u64,
) -> Option<Seq<u8>> {
    match secp256k1_signature(key_hex, exchange_digest(market, chain_id, payload_hash, nonce)) {
        Some(sig) => Some(seq![SignatureKind::Exchange.spec_prefix()] + sig),
        None => None,
    }
}

/// Signs trading actions under one market's domain on one chain. The binding is
/// deliberate: `domain.name` distinguishes spot from perps and `domain.chainId` mainnet
/// from testnet.
#[derive(Debug, Clone)]
pub struct ExchangeSigner {
    key_hex: String,
    address: Vec<u8>,
    market: Market,
    chain_id: u64,
}

/// What an exchange signer holds.
pub struct ExchangeSignerState {
    pub key_hex: Seq<char>,
    pub address: Seq<u8>,
    pub market: Market,
    pub chain_id: u64,
}

impl View for ExchangeSigner {
    type V = ExchangeSignerState;

    closed spec fn view(&self) -> ExchangeSignerState {
        ExchangeSignerState {
            key_hex: self.key_hex@,
            address: self.address@,
            market: self.market,
            chain_id: self.chain_id,
        }
    }
}

impl ExchangeSigner {
    /// A signer for a registered API key.
    pub fn new(key: &ApiPrivateKey, market: Market, chain_id: u64) -> (r: Result<Self, SigningError>)
        ensures
            secp256k1_address(key@) is None ==> (r matches Err(SigningError::Signer(m)) && m@ == INVALID_KEY@),
            secp256k1_address(key@) matches Some(a) ==> (r matches Ok(s) && s@.key_hex == key@
                && s@.address == a && s@.market == market && s@.chain_id == chain_id),
    {
        Self::from_hex(key.as_hex(), market, chain_id)
    }

    /// A signer from the master wallet, for `revokeAPIKey`: the one action the master key
    /// signs under the exchange domain, because it changes the key set itself.
    pub fn for_master_revocation(key: &MasterPrivateKey, market: Market, chain_id: u64) -> (r:
        Result<Self, SigningError>)
        ensures
            secp256k1_address(key@) is None ==> (r matches Err(SigningError::Signer(m)) && m@ == INVALID_KEY@),
            secp256k1_address(key@) matches Some(a) ==> (r matches Ok(s) && s@.key_hex == key@
                && s@.address == a && s@.market == market && s@.chain_id == chain_id),
    {
        Self::from_hex(key.as_hex(), market, chain_id)
    }

    fn from_hex(hex: &str, market: Market, chain_id: u64) -> (r: Result<Self, SigningError>)
        ensures
            secp256k1_address(hex@) is None ==> (r matches Err(SigningError::Signer(m)) && m@ == INVALID_KEY@),
            secp256k1_address(hex@) matches Some(a) ==> (r matches Ok(s) && s@.key_hex == hex@
                && s@.address == a && s@.market == market && s@.chain_id == chain_id),
    {
        match derive_address(hex) {
            Some(address) => Ok(ExchangeSigner { key_hex: owned(hex), address, market, chain_id }),
            None => Err(SigningError::Signer(owned(INVALID_KEY))),
        }
    }

    /// The EVM address derived from the signing key: what the venue registered as the API
    /// key's public key and recovers from each signature.
    pub fn address(&self) -> (a: Vec<u8>)
        ensures
            a@ == self@.address,
    {
        self.address.clone()
    }

    /// Signs an action, returning the 66-byte `X-API-Sign` value: the `0x01` prefix and the
    /// 65-byte signature over the `ExchangeAction` digest.
    pub fn sign_action(&self, payload_hash: &[u8], nonce: u64) -> (r: Result<Vec<u8>, SigningError>)
        ensures
            match exchange_signature(self@.key_hex, self@.market, self@.chain_id, payload_hash@, nonce) {
                Some(s) => r matches Ok(v) && v@ == s && v@.len() == 66,
                None => r matches Err(SigningError::Sign(m)) && m@ == SIGNING_FAILED@,
            },
    {
        let domain = compute_domain_separator(self.market.domain_name(), self.chain_id);
        let action = compute_exchange_action_hash(payload_hash, nonce);
        let digest = compute_typed_digest(domain.as_slice(), action.as_slice());
        match sign_digest(self.key_hex.as_str(), digest.as_slice()) {
            Some(sig) => {
                let mut out: Vec<u8> = Vec::new();
                out.push(SignatureKind::Exchange.prefix());
                super::eip712::append_bytes(&mut out, sig.as_slice());
                proof {
                    assert(out@ =~= seq![SignatureKind::Exchange.spec_prefix()] + sig@);
                }
                Ok(out)
            },
            None => Err(SigningError::Sign(owned(SIGNING_FAILED))),
        }
    }
}

} // verus!
