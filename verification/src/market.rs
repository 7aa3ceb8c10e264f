//! Market identity tags shared by every exchange adapter.

use vstd::prelude::*;

verus! {

/// Asset class served by an adapter.
#[derive(Debug, Clone, Copy, PartialEq, Eq, Hash, Structural)]
pub enum MarketType {
    /// Perpetual futures on centralised exchanges
    CryptoPerp,
    /// Prediction / event markets
    Prediction,
    /// Equities
    Equity,
    /// Spot forex
    Forex,
    /// Equity / index options
    Options,
    /// Date-delivery futures
    Futures,
}

impl MarketType {
    /// Display name of the asset class.
    pub open spec fn spec_name(self) -> Seq<char> {
        match self {
            MarketType::CryptoPerp => "CryptoPerp"@,
            MarketType::Prediction => "Prediction"@,
            MarketType::Equity => "Equity"@,
            MarketType::Forex => "Forex"@,
            MarketType::Options => "Options"@,
            MarketType::Futures => "Futures"@,
        }
    }

    /// Display name of the asset class.
    pub fn name(&self) -> (r: &'static str)
        ensures
            r@ == self.spec_name(),
    {
        match self {
            MarketType::CryptoPerp => "CryptoPerp",
            MarketType::Prediction => "Prediction",
            MarketType::Equity => "Equity",
            MarketType::Forex => "Forex",
            MarketType::Options => "Options",
            MarketType::Futures => "Futures",
        }
    }
}

/// How positions settle.
#[derive(Debug, Clone, Copy, PartialEq, Eq, Structural)]
pub enum SettlementMode {
    /// Instant on-chain settlement
    Instant,
    /// Exchange-internal margin settlement
    Exchange,
    /// T+2 settlement
    T2,
    /// Immediate spot settlement
    Spot,
}

} // verus!
