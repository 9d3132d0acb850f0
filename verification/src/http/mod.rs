//! REST request shapes and endpoint layout.
//!
//! Three base paths per network, all under the same gateway host: `/api/v1` (public,
//! unsigned), `/api/v1/spot` and `/api/v1/perps` (signed with `X-API-Key`, `X-API-Sign`
//! and `X-API-Nonce`).
use vstd::prelude::*;

pub mod account;
pub mod client;
pub mod models;
pub mod requests;
pub mod spot;

use crate::common::{Market, CHAIN_ID_MAINNET, CHAIN_ID_TESTNET};
use crate::text::{owned, push_char, push_str};

verus! {

/// Gateway host for the two networks.
#[derive(Debug, Clone, Copy, PartialEq, Eq, Structural)]
pub enum Network {
    Mainnet,
    Testnet,
}

impl Network {
    pub open spec fn spec_public_base(self) -> Seq<char> {
        match self {
            Network::Mainnet => "https://mainnet-gw.sodex.dev/api/v1"@,
            Network::Testnet => "https://testnet-gw.sodex.dev/api/v1"@,
        }
    }

    pub open spec fn spec_ws_base(self) -> Seq<char> {
        match self {
            Network::Mainnet => "wss://mainnet-gw.sodex.dev/ws"@,
            Network::Testnet => "wss://testnet-gw.sodex.dev/ws"@,
        }
    }

    pub open spec fn spec_chain_id(self) -> u64 {
        match self {
            Network::Mainnet => CHAIN_ID_MAINNET,
            Network::Testnet => CHAIN_ID_TESTNET,
        }
    }

    /// Base URL of one market's REST endpoints.
    pub open spec fn spec_market_base(self, market: Market) -> Seq<char> {
        self.spec_public_base() + seq!['/'] + market.spec_path_segment()
    }

    /// Base URL up to and including `/api/v1`, without a trailing slash.
    pub fn public_base(self) -> (s: &'static str)
        ensures
            s@ == self.spec_public_base(),
    {
        match self {
            Network::Mainnet => "https://mainnet-gw.sodex.dev/api/v1",
            Network::Testnet => "https://testnet-gw.sodex.dev/api/v1",
        }
    }

    /// WebSocket base, without a trailing slash.
    pub fn ws_base(self) -> (s: &'static str)
        ensures
            s@ == self.spec_ws_base(),
    {
        match self {
            Network::Mainnet => "wss://mainnet-gw.sodex.dev/ws",
            Network::Testnet => "wss://testnet-gw.sodex.dev/ws",
        }
    }

    /// The chain id this network signs under; pairing it with the URL keeps a testnet
    /// request from being signed with the mainnet chain id.
    pub fn chain_id(self) -> (id: u64)
        ensures
            id == self.spec_chain_id(),
    {
        match self {
            Network::Mainnet => CHAIN_ID_MAINNET,
            Network::Testnet => CHAIN_ID_TESTNET,
        }
    }

    /// Base URL for one market's REST endpoints.
    pub fn market_base(self, market: Market) -> (s: String)
        ensures
            s@ == self.spec_market_base(market),
    {
        let mut s = owned(self.public_base());
        push_char(&mut s, '/');
        push_str(&mut s, market.path_segment());
        s
    }
}

} // verus!
