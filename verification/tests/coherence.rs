use ruvector_toolkit::coherence::{
    outcome_for, simple_context, CoherenceChecker, CoherenceDecision, CoherenceGate,
    CoherenceOutcome, GateContext, RegimeLabel,
};
use ruvector_toolkit::intent::{Action, Intent, Side};

fn sample_intent() -> Intent {
    Intent {
        symbol_id: 1,
        side: Side::Yes,
        action: Action::Buy,
        limit_price_cents: 24,
        quantity: 10,
        edge_bps: 600,
        confidence: 0.5f64.to_bits(),
        strategy: "t",
    }
}

fn decision(allow_act: bool) -> CoherenceDecision {
    CoherenceDecision {
        allow_retrieve: true,
        allow_write: true,
        allow_learn: true,
        allow_act,
        mincut_value: 7,
        partition_hash: [1u8; 16],
        drift_score: 0.25f32.to_bits(),
        cusum_score: 3.0f32.to_bits(),
        reasons: vec!["r".to_string()],
    }
}

/// A gate that approves when the book is at least `floor` levels deep.
struct DepthGate {
    floor: u64,
}

impl CoherenceGate for DepthGate {
    fn evaluate(&self, ctx: &GateContext) -> Result<CoherenceDecision, String> {
        Ok(decision(ctx.mincut_value >= self.floor))
    }
}

/// A gate that always fails.
struct BrokenGate;

impl CoherenceGate for BrokenGate {
    fn evaluate(&self, _ctx: &GateContext) -> Result<CoherenceDecision, String> {
        Err("boom".to_string())
    }
}

#[test]
fn simple_context_volatile_regime() {
    // Large swings -> CUSUM > 20 -> Volatile regime.
    let ctx = simple_context(1, 1001, 0, 10, &[10, 30, 10, 30, 10]);
    assert!(matches!(ctx.regime, RegimeLabel::Volatile));
}

#[test]
fn simple_context_summarizes_the_window() {
    let ctx = simple_context(1, 1001, 5, 20, &[24, 25, 24]);
    assert_eq!(ctx.cusum_cents, 2);
    assert_eq!(ctx.big_moves, 0);
    assert_eq!(ctx.price_moves, 2);
    assert!(matches!(ctx.regime, RegimeLabel::Calm));
    assert_eq!(ctx.mincut_value, 20);
    assert_eq!(ctx.venue_id, 1001);
    assert_eq!(ctx.ts_ns, 5);
    assert_eq!(ctx.partition_hash, [0u8; 16]);
    assert_eq!(ctx.boundary_stable_count, 10);

    let ctx = simple_context(2, 1, 0, 1, &[10, 13, 12, 15]);
    assert_eq!(ctx.cusum_cents, 7);
    assert_eq!(ctx.big_moves, 2);
    assert!(matches!(ctx.regime, RegimeLabel::Normal));

    let ctx = simple_context(2, 1, 0, 1, &[]);
    assert_eq!((ctx.cusum_cents, ctx.big_moves, ctx.price_moves), (0, 0, 0));
    let ctx = simple_context(2, 1, 0, 1, &[42]);
    assert_eq!((ctx.cusum_cents, ctx.big_moves, ctx.price_moves), (0, 0, 0));
    // Exactly 20 cents of movement is still Normal; 21 is Volatile.
    assert!(matches!(simple_context(0, 0, 0, 0, &[0, 20]).regime, RegimeLabel::Normal));
    assert!(matches!(simple_context(0, 0, 0, 0, &[0, 21]).regime, RegimeLabel::Volatile));
    assert!(matches!(simple_context(0, 0, 0, 0, &[0, 5]).regime, RegimeLabel::Calm));
}

#[test]
fn simple_context_total_move_is_exact() {
    let ctx = simple_context(0, 0, 0, 0, &[0, i64::MAX, 0, i64::MAX]);
    assert_eq!(ctx.cusum_cents, 3 * (i64::MAX as u128));
    assert!(matches!(ctx.regime, RegimeLabel::Volatile));
}

#[test]
fn reversed_window_same_summary() {
    let p = [10, 13, 12, 15, 40, 39];
    let mut q = p;
    q.reverse();
    let a = simple_context(1, 2, 3, 4, &p);
    let b = simple_context(1, 2, 3, 4, &q);
    assert_eq!(a.cusum_cents, b.cusum_cents);
    assert_eq!(a.big_moves, b.big_moves);
    assert_eq!(a.price_moves, b.price_moves);
    assert_eq!(a.regime, b.regime);
}

#[test]
fn deep_book_passes() {
    let checker = CoherenceChecker::new(DepthGate { floor: 5 });
    let ctx = simple_context(1, 1001, 0, 20, &[24, 25, 24]);
    match checker.check(sample_intent(), &ctx) {
        CoherenceOutcome::Pass(i) => assert_eq!(i.quantity, 10),
        other => panic!("expected Pass, got {other:?}"),
    }
}

#[test]
fn shallow_book_blocks() {
    let checker = CoherenceChecker::new(DepthGate { floor: 5 });
    let ctx = simple_context(1, 1001, 0, 1, &[24, 25]);
    match checker.check(sample_intent(), &ctx) {
        CoherenceOutcome::Block { decision, intent } => {
            assert!(!decision.allow_act);
            assert!(!decision.reasons.is_empty());
            assert_eq!(decision.mincut_value, 7);
            assert_eq!(intent.edge_bps, 600);
        }
        other => panic!("expected Block, got {other:?}"),
    }
}

#[test]
fn gate_error_fails_closed() {
    let checker = CoherenceChecker::new(BrokenGate);
    let ctx = simple_context(1, 1001, 0, 50, &[24, 25]);
    match checker.check(sample_intent(), &ctx) {
        CoherenceOutcome::Block { decision, intent } => {
            assert!(!decision.allow_act);
            assert!(!decision.allow_retrieve && !decision.allow_write && !decision.allow_learn);
            assert_eq!(decision.mincut_value, 0);
            assert_eq!(decision.partition_hash, [0u8; 16]);
            assert_eq!(f32::from_bits(decision.drift_score), 0.0);
            assert_eq!(f32::from_bits(decision.cusum_score), 0.0);
            assert_eq!(decision.reasons, vec!["gate error: boom".to_string()]);
            assert_eq!(intent.symbol_id, 1);
        }
        other => panic!("expected Block, got {other:?}"),
    }
}

#[test]
fn outcomes_compare_by_value() {
    assert_eq!(
        outcome_for(sample_intent(), Ok(decision(true))),
        CoherenceOutcome::Pass(sample_intent())
    );
    assert_ne!(
        outcome_for(sample_intent(), Ok(decision(false))),
        CoherenceOutcome::Pass(sample_intent())
    );
}

#[test]
fn outcome_for_passes_only_allowed_decisions() {
    assert!(matches!(outcome_for(sample_intent(), Ok(decision(true))), CoherenceOutcome::Pass(_)));
    match outcome_for(sample_intent(), Ok(decision(false))) {
        CoherenceOutcome::Block { decision, .. } => {
            assert!(!decision.allow_act);
            assert_eq!(decision.reasons, vec!["r".to_string()]);
        }
        other => panic!("expected Block, got {other:?}"),
    }
}

#[test]
fn shifted_window_same_summary() {
    let p = [10, 13, 12, 15, 40, 39];
    let q: Vec<i64> = p.iter().map(|x| x + 1_000).collect();
    let a = simple_context(1, 2, 3, 4, &p);
    let b = simple_context(1, 2, 3, 4, &q);
    assert_eq!(a.cusum_cents, b.cusum_cents);
    assert_eq!(a.big_moves, b.big_moves);
    assert_eq!(a.price_moves, b.price_moves);
    assert_eq!(a.regime, b.regime);
}
