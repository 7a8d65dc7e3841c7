use ruvector_toolkit::intent::{Action, Side};
use ruvector_toolkit::kelly::{
    fp_to_cents, EventType, ExpectedValueKelly, ExpectedValueKellyConfig, MarketEvent, Quote, SymbolState,
};

fn snapshot(sym: u32, price_cents: i64, seq: u64) -> MarketEvent {
    MarketEvent {
        symbol_id: sym,
        event_type: EventType::BookSnapshot,
        price_fp: price_cents * 1_000_000,
        seq,
    }
}

fn event(sym: u32, event_type: EventType, price_cents: i64, seq: u64) -> MarketEvent {
    MarketEvent { symbol_id: sym, event_type, price_fp: price_cents * 1_000_000, seq }
}

// The clamp of priors and the sizing arithmetic are floating point, so they
// live in the host crate (`app/kelly.rs`), which tests cannot reach. The two
// helpers below restate them so that the library's decisions can be driven
// end to end; what these tests check of the library is the state handling,
// the quoting, the thresholds, the contract count and the throttle.

/// Installs a prior the way the strategy's float front end does: clamped
/// into `[0.01, 0.99]`.
fn set_prior(s: &mut ExpectedValueKelly, sym: u32, prior: f64) {
    s.set_prior(sym, prior.clamp(0.01, 0.99).to_bits());
}

/// The floating-point sizing step: rounded edge in basis points and the
/// cents of bankroll the (clamped) Kelly fraction, scaled by the
/// confidence, allots.
fn sizing(config: &ExpectedValueKellyConfig, q: &Quote) -> (i64, i64) {
    let prior = f64::from_bits(q.prior);
    let m = q.mid_cents as f64 / 100.0;
    let edge = prior - m;
    let edge_bps = (edge * 10_000.0).round() as i64;
    let kelly = (f64::from_bits(config.kelly_fraction) * edge / (1.0 - m)).clamp(0.0, 1.0);
    let alloc_cents = (config.bankroll_cents as f64 * kelly * prior) as i64;
    let alloc_cents = if alloc_cents > 0 {
        alloc_cents.min(config.bankroll_cents)
    } else {
        alloc_cents
    };
    (edge_bps, alloc_cents)
}

fn on_event(
    s: &mut ExpectedValueKelly,
    config: &ExpectedValueKellyConfig,
    e: &MarketEvent,
) -> Option<ruvector_toolkit::intent::Intent> {
    let q = s.on_event(e)?;
    let (edge_bps, alloc_cents) = sizing(config, &q);
    s.emit(&q, edge_bps, alloc_cents)
}

#[test]
fn no_prior_no_intent() {
    let config = ExpectedValueKellyConfig::default();
    let mut s = ExpectedValueKelly::new(config.clone());
    assert!(on_event(&mut s, &config, &snapshot(1, 24, 0)).is_none());
}

#[test]
fn fair_price_no_edge() {
    let config = ExpectedValueKellyConfig::default();
    let mut s = ExpectedValueKelly::new(config.clone());
    set_prior(&mut s, 1, 0.25);
    // Mid exactly at prior -> edge ~ 0 bps -> no intent.
    let intent = on_event(&mut s, &config, &snapshot(1, 25, 0));
    assert!(intent.is_none(), "mid==prior should produce no intent");
}

#[test]
fn positive_edge_sizes_under_bankroll() {
    let config = ExpectedValueKellyConfig {
        kelly_fraction: 0.25f64.to_bits(),
        bankroll_cents: 100_000,
        min_edge_bps: 100,
        strategy_name: "test",
    };
    let mut s = ExpectedValueKelly::new(config.clone());
    set_prior(&mut s, 1, 0.40);
    let intent = on_event(&mut s, &config, &snapshot(1, 24, 0)).expect("should emit");
    assert_eq!(intent.symbol_id, 1);
    assert!(matches!(intent.side, Side::Yes));
    assert_eq!(intent.limit_price_cents, 24);
    assert!(intent.quantity > 0);
    // Notional must not exceed bankroll.
    assert!(intent.notional_cents() <= 100_000);
    // Edge = (0.40 - 0.24) x 10_000 = 1600 bps.
    assert_eq!(intent.edge_bps, 1600);
}

#[test]
fn extreme_prior_is_clamped() {
    let config = ExpectedValueKellyConfig::default();
    let mut s = ExpectedValueKelly::new(config.clone());
    set_prior(&mut s, 1, 1.5); // nonsensical; clamp to 0.99
    let intent = on_event(&mut s, &config, &snapshot(1, 50, 0)).expect("should still emit");
    assert!((f64::from_bits(intent.confidence) - 0.99).abs() < 1e-9);
}

#[test]
fn mid_at_boundary_rejected() {
    let config = ExpectedValueKellyConfig::default();
    let mut s = ExpectedValueKelly::new(config.clone());
    set_prior(&mut s, 1, 0.80);
    // mid = 0 -> boundary
    assert!(on_event(&mut s, &config, &snapshot(1, 0, 0)).is_none());
    // mid = 100 -> boundary
    assert!(on_event(&mut s, &config, &snapshot(1, 100, 1)).is_none());
}

#[test]
fn fp_to_cents_rounds_toward_zero() {
    assert_eq!(fp_to_cents(24_000_000), 24);
    assert_eq!(fp_to_cents(24_999_999), 24);
    assert_eq!(fp_to_cents(-1_500_000), -1);
    assert_eq!(fp_to_cents(999_999), 0);
}

#[test]
fn default_config_values() {
    let c = ExpectedValueKellyConfig::default();
    assert_eq!(f64::from_bits(c.kelly_fraction), 0.25);
    assert_eq!(c.bankroll_cents, 100_000);
    assert_eq!(c.min_edge_bps, 100);
    assert_eq!(c.strategy_name, "ev-kelly");
    let s = ExpectedValueKelly::new(c);
    assert_eq!(s.name(), "ev-kelly");
    assert_eq!(s.config().bankroll_cents, 100_000);
    assert_eq!(ExpectedValueKelly::default().name(), "ev-kelly");
    assert_eq!(
        SymbolState::default(),
        SymbolState { latest_mid_cents: None, prior: None, last_emit_seq: None }
    );
}

#[test]
fn trades_with_non_positive_price_are_ignored() {
    let mut s = ExpectedValueKelly::new(ExpectedValueKellyConfig::default());
    s.set_prior(7, 0.6f64.to_bits());
    assert_eq!(
        s.on_event(&event(7, EventType::Trade, 30, 1)),
        Some(Quote { symbol_id: 7, seq: 1, mid_cents: 30, prior: 0.6f64.to_bits() })
    );
    // A trade at price 0 leaves the mid where it was and yields nothing.
    assert_eq!(s.on_event(&event(7, EventType::Trade, 0, 2)), None);
    assert_eq!(
        s.on_event(&event(7, EventType::VenueStatus, 31, 3)),
        Some(Quote { symbol_id: 7, seq: 3, mid_cents: 31, prior: 0.6f64.to_bits() })
    );
    // A snapshot at 0 does move the mid, out of range.
    assert_eq!(s.on_event(&snapshot(7, 0, 4)), None);
    assert_eq!(s.on_event(&event(7, EventType::Other, 40, 5)), None);
}

#[test]
fn emit_applies_thresholds_and_divides_allocation() {
    let mut s = ExpectedValueKelly::new(ExpectedValueKellyConfig::default());
    s.set_prior(3, 0.5f64.to_bits());
    let q = s.on_event(&snapshot(3, 40, 9)).expect("quote");
    // Below the minimum edge.
    assert!(s.emit(&q, 99, 10_000).is_none());
    // Allocation below one contract.
    assert!(s.emit(&q, 500, 39).is_none());
    // Negative allocation.
    assert!(s.emit(&q, 500, -400).is_none());
    let intent = s.emit(&q, 500, 1_000).expect("emit");
    assert_eq!(intent.quantity, 25);
    assert_eq!(intent.limit_price_cents, 40);
    assert_eq!(intent.edge_bps, 500);
    assert!(matches!(intent.action, Action::Buy));
    assert_eq!(intent.notional_cents(), 1_000);
    assert_eq!(intent.strategy, "ev-kelly");
    // The same quote is not answered twice.
    assert!(s.emit(&q, 500, 1_000).is_none());
    // A quote for an unknown symbol emits nothing.
    let stray = Quote { symbol_id: 99, seq: 1, mid_cents: 10, prior: 0.5f64.to_bits() };
    assert!(s.emit(&stray, 500, 1_000).is_none());
}

#[test]
fn at_most_one_intent_per_event() {
    let config = ExpectedValueKellyConfig::default();
    let mut s = ExpectedValueKelly::new(config.clone());
    set_prior(&mut s, 1, 0.40);
    let e = snapshot(1, 24, 5);
    assert!(on_event(&mut s, &config, &e).is_some());
    // The very same event again: quoted, but answered already.
    assert!(s.on_event(&e).is_some());
    assert!(on_event(&mut s, &config, &e).is_none());
    // The next event may emit again.
    assert!(on_event(&mut s, &config, &snapshot(1, 24, 6)).is_some());
    // An event with sequence number 0 is not taken for an answered one.
    let mut t = ExpectedValueKelly::new(config.clone());
    set_prior(&mut t, 2, 0.40);
    assert!(on_event(&mut t, &config, &snapshot(2, 24, 0)).is_some());
    assert!(on_event(&mut t, &config, &snapshot(2, 24, 0)).is_none());
}

#[test]
fn notional_stays_within_bankroll() {
    let config = ExpectedValueKellyConfig {
        kelly_fraction: 1.0f64.to_bits(),
        bankroll_cents: 1_000,
        min_edge_bps: 1,
        strategy_name: "all-in",
    };
    let mut s = ExpectedValueKelly::new(config.clone());
    set_prior(&mut s, 4, 0.99);
    let intent = on_event(&mut s, &config, &snapshot(4, 3, 1)).expect("should emit");
    assert!(intent.notional_cents() <= 1_000);
    assert!(intent.quantity >= 1);
    // An allotment of the whole bankroll buys as many contracts as fit.
    let q = s.on_event(&snapshot(4, 7, 2)).expect("quote");
    let intent = s.emit(&q, 100, 1_000).expect("emit");
    assert_eq!(intent.quantity, 142);
    assert_eq!(intent.notional_cents(), 994);
}
