//! Verified core of a Hyperliquid market-making engine: order and engine
//! lifecycle state machines, per-coin state tracking, toxic-flow evacuation
//! policy, order-response interpretation and CSV field escaping.

pub mod clock;
pub mod engine;
pub mod labels;
pub mod levels;
pub mod market;
pub mod proto;
pub mod shock;
pub mod signer;
pub mod sniper;
pub mod state;
pub mod types;
pub mod text;
pub(crate) mod textmap;
