//! Shared types and constants.
use vstd::prelude::*;

pub mod credential;
pub mod decimal;
pub mod enums;

verus! {

/// ValueChain mainnet, used as `message.chainID` and as the trading-action EIP-712 `chainId`.
pub const CHAIN_ID_MAINNET: u64 = 286623;

/// ValueChain testnet.
pub const CHAIN_ID_TESTNET: u64 = 138565;

/// Which orderbook an action targets. Also selects the EIP-712 domain name: signing a perps
/// action under the `spot` domain produces a signature the gateway rejects.
#[derive(Debug, Clone, Copy, PartialEq, Eq, Structural)]
pub enum Market {
    Spot,
    Perps,
}

impl Market {
    /// The EIP-712 `domain.name` for this market.
    pub open spec fn spec_domain_name(self) -> Seq<char> {
        match self {
            Market::Spot => "spot"@,
            Market::Perps => "futures"@,
        }
    }

    /// The REST path segment for this market.
    pub open spec fn spec_path_segment(self) -> Seq<char> {
        match self {
            Market::Spot => "spot"@,
            Market::Perps => "perps"@,
        }
    }

    /// The EIP-712 `domain.name` for this market. Perps actions sign under `futures`,
    /// not `perps`.
    pub fn domain_name(self) -> (s: &'static str)
        ensures
            s@ == self.spec_domain_name(),
    {
        match self {
            Market::Spot => "spot",
            Market::Perps => "futures",
        }
    }

    /// The REST path segment for this market (`/api/v1/{segment}`).
    pub fn path_segment(self) -> (s: &'static str)
        ensures
            s@ == self.spec_path_segment(),
    {
        match self {
            Market::Spot => "spot",
            Market::Perps => "perps",
        }
    }
}

/// Leading byte identifying the signature family. The gateway rejects raw 65-byte
/// signatures that carry no prefix.
#[derive(Debug, Clone, Copy, PartialEq, Eq, Structural)]
pub enum SignatureKind {
    /// Trading actions signed under the `spot`/`futures` domain.
    Exchange,
    /// Account-level actions signed under the `universal` domain by the master wallet.
    Universal,
}

impl SignatureKind {
    pub open spec fn spec_prefix(self) -> u8 {
        match self {
            SignatureKind::Exchange => 1u8,
            SignatureKind::Universal => 2u8,
        }
    }

    pub fn prefix(self) -> (b: u8)
        ensures
            b == self.spec_prefix(),
    {
        match self {
            SignatureKind::Exchange => 0x01,
            SignatureKind::Universal => 0x02,
        }
    }
}

} // verus!
