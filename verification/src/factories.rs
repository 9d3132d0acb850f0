//! The identities of this adapter's client factories and the account settings they create
//! clients with. One factory per client kind, not per engine: the engine is selected by the
//! configuration's market field.
use vstd::prelude::*;

use crate::common::Market;
use crate::config::{spec_venue_name, venue_for, SODEX};
use crate::json::push_lit;
use crate::text::{decimal, owned, push_str, u64_decimal};

verus! {

/// How the engine settles at a venue.
#[derive(Debug, Clone, Copy, PartialEq, Eq, Structural)]
pub enum AccountType {
    Cash,
    Margin,
    Betting,
}

/// How positions are tracked.
#[derive(Debug, Clone, Copy, PartialEq, Eq, Structural)]
pub enum OmsType {
    Netting,
    Hedging,
}

/// Spot holds balances with nothing to margin; perps posts collateral, one-way only.
pub fn account_type_for(market: Market) -> (t: AccountType)
    ensures
        t == (match market {
            Market::Spot => AccountType::Cash,
            Market::Perps => AccountType::Margin,
        }),
{
    match market {
        Market::Spot => AccountType::Cash,
        Market::Perps => AccountType::Margin,
    }
}

/// Positions are netted: the venue accepts only the one-way position side.
pub fn oms_type() -> (t: OmsType)
    ensures
        t == OmsType::Netting,
{
    OmsType::Netting
}

/// The engine account id of a venue account: the venue name, a hyphen and the venue's own
/// numeric id, so an account event traces back to the account that produced it.
pub fn account_id_for(market: Market, venue_account_id: u64) -> (s: String)
    ensures
        s@ == spec_venue_name(market) + "-"@ + decimal(venue_account_id as nat),
{
    let venue = venue_for(market);
    let mut s = owned(venue.as_str());
    push_lit(&mut s, "-");
    let digits = u64_decimal(venue_account_id);
    push_str(&mut s, digits.as_str());
    s
}

/// Builds market data clients.
#[derive(Debug, Clone, Copy, Default)]
pub struct SodexDataClientFactory;

impl SodexDataClientFactory {
    pub fn new() -> (f: Self)
        ensures
            f == SodexDataClientFactory,
    {
        SodexDataClientFactory
    }

    /// The key this factory registers under.
    pub fn name(&self) -> (s: &'static str)
        ensures
            s@ == SODEX@,
    {
        SODEX
    }

    /// The configuration type this factory accepts.
    pub fn config_type(&self) -> (s: &'static str)
        ensures
            s@ == "SodexDataClientConfig"@,
    {
        "SodexDataClientConfig"
    }
}

/// Builds execution clients.
#[derive(Debug, Clone, Copy, Default)]
pub struct SodexExecutionClientFactory;

impl SodexExecutionClientFactory {
    pub fn new() -> (f: Self)
        ensures
            f == SodexExecutionClientFactory,
    {
        SodexExecutionClientFactory
    }

    /// The key this factory registers under.
    pub fn name(&self) -> (s: &'static str)
        ensures
            s@ == SODEX@,
    {
        SODEX
    }

    /// The configuration type this factory accepts.
    pub fn config_type(&self) -> (s: &'static str)
        ensures
            s@ == "SodexExecClientConfig"@,
    {
        "SodexExecClientConfig"
    }
}

} // verus!
