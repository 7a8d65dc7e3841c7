//! Payload filter expressions, an expected-value Kelly strategy core,
//! a coherence pre-order check and metric wiring, with their contracts.

pub mod coherence;
pub mod filter;
pub mod intent;
pub mod kelly;
pub mod metrics;
pub mod order;
