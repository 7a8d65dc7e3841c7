//! Trade intents: what a strategy asks for, before any gate decides.
use vstd::prelude::*;

verus! {

/// Side of a binary contract.
#[derive(Debug, Clone, Copy, PartialEq, Eq, Structural)]
pub enum Side {
    Yes,
    No,
}

/// Order action.
#[derive(Debug, Clone, Copy, PartialEq, Eq, Structural)]
pub enum Action {
    Buy,
    Sell,
}

/// A strategy's request to trade, before any risk or coherence gate.
#[derive(Debug, Clone, PartialEq)]
pub struct Intent {
    pub symbol_id: u32,
    pub side: Side,
    pub action: Action,
    pub limit_price_cents: i64,
    pub quantity: i64,
    pub edge_bps: i64,
    /// The model probability behind the intent, as `f64` bits.
    pub confidence: u64,
    pub strategy: &'static str,
}

impl Intent {
    /// Cents committed at the limit price: `limit_price_cents * quantity`.
    pub fn notional_cents(&self) -> (n: i128)
        ensures
            n == self.limit_price_cents * self.quantity,
    {
        proof {
            assert(-0x8000_0000_0000_0000 * 0x8000_0000_0000_0000 <= self.limit_price_cents
                * self.quantity <= 0x8000_0000_0000_0000 * 0x8000_0000_0000_0000)
                by (nonlinear_arith);
        }
        (self.limit_price_cents as i128) * (self.quantity as i128)
    }
}

} // verus!
