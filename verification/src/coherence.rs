//! Coherence check between a strategy's intent and the risk gate.
//!
//! A coherence gate models the trader's confidence in its own internal
//! state. When it does not allow acting, no strategy output may reach the
//! exchange, even if the risk gate would approve. The actuation path is
//! `Strategy -> Intent -> CoherenceChecker::check -> RiskGate -> Order`.
//!
//! Scores that gates produce are `f32` values; decisions carry them as
//! their IEEE-754 bit patterns.
use vstd::prelude::*;
use vstd::string::StringExecFns;
use crate::intent::Intent;

verus! {

/// Market regime as the coherence gate sees it.
#[derive(Debug, Clone, Copy, PartialEq, Eq, Structural)]
pub enum RegimeLabel {
    Calm,
    Normal,
    Volatile,
}

/// What a coherence gate is told about the current market.
#[derive(Debug, Clone, Copy)]
pub struct GateContext {
    pub symbol_id: u32,
    pub venue_id: u16,
    pub ts_ns: u64,
    pub mincut_value: u64,
    pub partition_hash: [u8; 16],
    /// CUSUM approximation: the total absolute price move over the window,
    /// in cents (exact: at most `2^63` per move, so it fits in 128 bits).
    pub cusum_cents: u128,
    /// Moves of at least 2 cents in the window; the drift score is
    /// `big_moves / price_moves` (0 when there are no moves).
    pub big_moves: u64,
    /// Price moves in the window: one fewer than the prices.
    pub price_moves: u64,
    pub regime: RegimeLabel,
    pub boundary_stable_count: u64,
}

/// The change from price `i` to price `i + 1`.
pub open spec fn price_step(p: Seq<i64>, i: int) -> int {
    p[i + 1] - p[i]
}

/// The absolute change between consecutive prices `i` and `i + 1`.
pub open spec fn price_move(p: Seq<i64>, i: int) -> int {
    let d = price_step(p, i);
    if d >= 0 {
        d
    } else {
        -d
    }
}

/// Total absolute price move over the window.
pub open spec fn total_move(p: Seq<i64>) -> int
    decreases p.len(),
{
    if p.len() < 2 {
        0
    } else {
        total_move(p.drop_last()) + price_move(p, p.len() - 2)
    }
}

/// Number of price moves of at least 2 cents over the window.
pub open spec fn big_move_count(p: Seq<i64>) -> int
    decreases p.len(),
{
    if p.len() < 2 {
        0
    } else {
        big_move_count(p.drop_last()) + if price_move(p, p.len() - 2) >= 2 {
            1int
        } else {
            0int
        }
    }
}

/// Volatile above 20 cents of total move, normal above 5, calm otherwise.
pub open spec fn regime_for(total: int) -> RegimeLabel {
    if total > 20 {
        RegimeLabel::Volatile
    } else if total > 5 {
        RegimeLabel::Normal
    } else {
        RegimeLabel::Calm
    }
}

/// Every difference of consecutive prices is a representable `i64` other
/// than `i64::MIN`, so its absolute value is one too.
pub open spec fn moves_representable(p: Seq<i64>) -> bool {
    forall|i: int| 0 <= i < p.len() - 1 ==> i64::MIN < #[trigger] price_step(p, i) <= i64::MAX
}

proof fn lemma_total_move_prefix(p: Seq<i64>, n: int)
    requires
        2 <= n <= p.len(),
    ensures
        total_move(p.take(n)) == total_move(p.take(n - 1)) + price_move(p, n - 2),
        big_move_count(p.take(n)) == big_move_count(p.take(n - 1)) + if price_move(p, n - 2)
            >= 2 {
            1int
        } else {
            0int
        },
{
    assert(p.take(n).drop_last() =~= p.take(n - 1));
}

/// The total move and the big moves can as well be counted from the front.
proof fn lemma_moves_from_front(p: Seq<i64>)
    requires
        p.len() >= 2,
    ensures
        total_move(p) == price_move(p, 0) + total_move(p.drop_first()),
        big_move_count(p) == (if price_move(p, 0) >= 2 {
            1int
        } else {
            0int
        }) + big_move_count(p.drop_first()),
    decreases p.len(),
{
    let q = p.drop_first();
    if p.len() > 2 {
        lemma_moves_from_front(p.drop_last());
        assert(p.drop_last().drop_first() =~= q.drop_last());
        assert(price_step(q, q.len() - 2) == price_step(p, p.len() - 2));
        assert(price_step(p.drop_last(), 0) == price_step(p, 0));
        assert(total_move(q) == total_move(q.drop_last()) + price_move(q, q.len() - 2));
        assert(total_move(p) == total_move(p.drop_last()) + price_move(p, p.len() - 2));
    } else {
        assert(total_move(p.drop_last()) == 0);
        assert(total_move(q) == 0);
        assert(big_move_count(p.drop_last()) == 0);
        assert(big_move_count(q) == 0);
    }
}

/// Reading a price window backwards gives the same total move, the same
/// number of big moves, and so the same regime: the summary does not depend
/// on the direction of time.
pub proof fn law_reversed_window_same_summary(p: Seq<i64>)
    ensures
        total_move(p.reverse()) == total_move(p),
        big_move_count(p.reverse()) == big_move_count(p),
        regime_for(total_move(p.reverse())) == regime_for(total_move(p)),
    decreases p.len(),
{
    let r = p.reverse();
    if p.len() >= 2 {
        law_reversed_window_same_summary(p.drop_first());
        assert(r.drop_last() =~= p.drop_first().reverse());
        assert(price_move(r, r.len() - 2) == price_move(p, 0));
        lemma_moves_from_front(p);
    }
}

/// The summary grows one move at a time: a window of fewer than two prices
/// has no movement, and appending a price adds its absolute change from the
/// last price to the total, and one big move when that change is at least 2.
pub proof fn law_window_grows_by_moves(p: Seq<i64>, x: i64)
    ensures
        p.len() < 2 ==> total_move(p) == 0 && big_move_count(p) == 0,
        p.len() >= 1 ==> ({
            let d = if x >= p.last() {
                x - p.last()
            } else {
                p.last() - x
            };
            &&& total_move(p.push(x)) == total_move(p) + d
            &&& big_move_count(p.push(x)) == big_move_count(p) + if d >= 2 {
                1int
            } else {
                0int
            }
        }),
{
    if p.len() >= 1 {
        let q = p.push(x);
        assert(q.drop_last() =~= p);
        assert(q[q.len() - 1] == x && q[q.len() - 2] == p.last());
    }
}

/// The regime by total move: volatile above 20 cents, normal above 5 and up
/// to 20, calm up to 5.
pub proof fn law_regime_thresholds(total: int)
    ensures
        total > 20 ==> regime_for(total) == RegimeLabel::Volatile,
        5 < total <= 20 ==> regime_for(total) == RegimeLabel::Normal,
        total <= 5 ==> regime_for(total) == RegimeLabel::Calm,
{
}

/// Shifting every price of a window by the same amount changes neither the
/// total move nor the big moves, and so not the regime.
pub proof fn law_shifted_window_same_summary(p: Seq<i64>, q: Seq<i64>, k: int)
    requires
        q.len() == p.len(),
        forall|i: int| 0 <= i < p.len() ==> #[trigger] q[i] == p[i] + k,
    ensures
        total_move(q) == total_move(p),
        big_move_count(q) == big_move_count(p),
        regime_for(total_move(q)) == regime_for(total_move(p)),
    decreases p.len(),
{
    if p.len() >= 2 {
        let n = p.len();
        assert(q[n - 1] == p[n - 1] + k && q[n - 2] == p[n - 2] + k);
        assert(price_step(q, n - 2) == price_step(p, n - 2));
        law_shifted_window_same_summary(p.drop_last(), q.drop_last(), k);
    }
}

proof fn lemma_total_move_nonneg(p: Seq<i64>)
    ensures
        total_move(p) >= 0,
        0 <= big_move_count(p) <= if p.len() < 2 {
            0
        } else {
            p.len() - 1
        },
    decreases p.len(),
{
    if p.len() >= 2 {
        lemma_total_move_nonneg(p.drop_last());
    }
}

/// Builds a plausible gate context from a sliding window of observed prices
/// (in cents): the CUSUM approximation is the total absolute price move,
/// the drift counts moves of at least 2 cents, the regime follows the
/// total move, and the order book depth stands in for the mincut value.
pub fn simple_context(
    symbol_id: u32,
    venue_id: u16,
    ts_ns: u64,
    n_levels: u64,
    recent_price_cents: &[i64],
) -> (ctx: GateContext)
    requires
        moves_representable(recent_price_cents@),
    ensures
        ctx.symbol_id == symbol_id,
        ctx.venue_id == venue_id,
        ctx.ts_ns == ts_ns,
        ctx.mincut_value == n_levels,
        ctx.partition_hash@ == Seq::new(16, |i: int| 0u8),
        ctx.cusum_cents == total_move(recent_price_cents@),
        ctx.big_moves == big_move_count(recent_price_cents@),
        ctx.price_moves == if recent_price_cents@.len() < 2 {
            0
        } else {
            recent_price_cents@.len() - 1
        },
        ctx.regime == regime_for(total_move(recent_price_cents@)),
        ctx.boundary_stable_count == 10,
{
    let p = recent_price_cents;
    let ghost ps = p@;
    let mut cusum: u128 = 0;
    let mut big: u64 = 0;
    let mut i: usize = 1;
    if p.len() == 0 {
        i = 0;
    }
    while i < p.len()
        invariant
            ps == p@,
            moves_representable(ps),
            i <= ps.len(),
            ps.len() > 0 ==> i >= 1,
            cusum == total_move(ps.take(i as int)),
            cusum <= i * 0x8000_0000_0000_0000,
            big == big_move_count(ps.take(i as int)),
            big <= i,
        decreases p@.len() - i,
    {
        proof {
            assert(i64::MIN < price_step(ps, i - 1) <= i64::MAX);
        }
        let d: i64 = p[i] - p[i - 1];
        let m: u64 = if d >= 0 {
            d as u64
        } else {
            (-d) as u64
        };
        proof {
            lemma_total_move_prefix(ps, i + 1);
            lemma_total_move_nonneg(ps.take(i as int));
        }
        cusum = cusum + m as u128;
        if m >= 2 {
            big = big + 1;
        }
        i = i + 1;
    }
    let total = cusum;
    let regime = if total > 20 {
        RegimeLabel::Volatile
    } else if total > 5 {
        RegimeLabel::Normal
    } else {
        RegimeLabel::Calm
    };
    proof {
        assert(ps.take(ps.len() as int) =~= ps);
    }
    let moves: u64 = if p.len() < 2 {
        0
    } else {
        (p.len() - 1) as u64
    };
    GateContext {
        symbol_id,
        venue_id,
        ts_ns,
        mincut_value: n_levels,
        partition_hash: [0u8; 16],
        cusum_cents: cusum,
        big_moves: big,
        price_moves: moves,
        regime,
        boundary_stable_count: 10,
    }
}

/// A gate's verdict on the current state.
#[derive(Debug, Clone, PartialEq)]
pub struct CoherenceDecision {
    pub allow_retrieve: bool,
    pub allow_write: bool,
    pub allow_learn: bool,
    pub allow_act: bool,
    pub mincut_value: u64,
    pub partition_hash: [u8; 16],
    /// `f32` bits.
    pub drift_score: u32,
    /// `f32` bits.
    pub cusum_score: u32,
    pub reasons: Vec<String>,
}

/// A coherence gate: decides from a context whether the trader may act.
/// An `Err` carries the coherence gate's error message.
pub trait CoherenceGate {
    fn evaluate(&self, ctx: &GateContext) -> Result<CoherenceDecision, String>;
}

/// Outcome of a coherence check.
#[derive(Debug, Clone, PartialEq)]
pub enum CoherenceOutcome {
    /// The coherence gate approved: proceed to the risk gate.
    Pass(Intent),
    /// The coherence gate blocked actuation; the intent is returned unchanged for logging.
    Block { intent: Intent, decision: CoherenceDecision },
}

/// The decision that stands in for a gate that failed: nothing allowed,
/// every score zero, and the error as the only reason.
pub open spec fn is_fail_closed_decision(d: CoherenceDecision, error: Seq<char>) -> bool {
    &&& !d.allow_retrieve
    &&& !d.allow_write
    &&& !d.allow_learn
    &&& !d.allow_act
    &&& d.mincut_value == 0
    &&& d.partition_hash@ == Seq::new(16, |i: int| 0u8)
    &&& d.drift_score == 0
    &&& d.cusum_score == 0
    &&& d.reasons@.len() == 1
    &&& d.reasons@[0]@ == "gate error: "@ + error
}

/// The outcome for an intent once the coherence gate has answered.
pub open spec fn outcome_matches(
    out: CoherenceOutcome,
    intent: Intent,
    evaluation: Result<CoherenceDecision, String>,
) -> bool {
    match evaluation {
        Ok(d) => if d.allow_act {
            out == CoherenceOutcome::Pass(intent)
        } else {
            out == (CoherenceOutcome::Block { intent, decision: d })
        },
        Err(msg) => out matches CoherenceOutcome::Block { intent: i, decision: d } && i == intent
            && is_fail_closed_decision(d, msg@),
    }
}

/// Decides an intent's fate from the coherence gate's answer. A gate error blocks
/// the intent (fail closed): a failing gate never authorizes actuation.
pub fn outcome_for(intent: Intent, evaluation: Result<CoherenceDecision, String>) -> (out:
    CoherenceOutcome)
    ensures
        outcome_matches(out, intent, evaluation),
        evaluation matches Ok(d) ==> (d.allow_act ==> out == CoherenceOutcome::Pass(intent)),
        evaluation matches Ok(d) ==> (!d.allow_act ==> out == (CoherenceOutcome::Block {
            intent,
            decision: d,
        })),
        evaluation matches Err(msg) ==> (out matches CoherenceOutcome::Block {
            intent: i,
            decision: d,
        } && i == intent && !d.allow_act && !d.allow_retrieve && !d.allow_write && !d.allow_learn
            && d.mincut_value == 0 && d.drift_score == 0 && d.cusum_score == 0
            && d.partition_hash@ == Seq::new(16, |k: int| 0u8) && d.reasons@.len() == 1
            && d.reasons@[0]@ == "gate error: "@ + msg@),
{
    match evaluation {
        Ok(d) => {
            if d.allow_act {
                CoherenceOutcome::Pass(intent)
            } else {
                CoherenceOutcome::Block { intent, decision: d }
            }
        },
        Err(e) => {
            let mut reason = "gate error: ".to_owned();
            reason.append(e.as_str());
            let mut reasons: Vec<String> = Vec::new();
            reasons.push(reason);
            let decision = CoherenceDecision {
                allow_retrieve: false,
                allow_write: false,
                allow_learn: false,
                allow_act: false,
                mincut_value: 0,
                partition_hash: [0u8; 16],
                drift_score: 0,
                cusum_score: 0,
                reasons,
            };
            proof {
                assert(decision.partition_hash@ =~= Seq::new(16, |i: int| 0u8));
            }
            CoherenceOutcome::Block { intent, decision }
        },
    }
}

/// An outcome lets its intent through only when the coherence gate answered and
/// allowed acting; every block carries a decision that does not allow acting.
pub proof fn law_fail_closed(
    out: CoherenceOutcome,
    intent: Intent,
    evaluation: Result<CoherenceDecision, String>,
)
    requires
        outcome_matches(out, intent, evaluation),
    ensures
        out is Pass <==> (evaluation matches Ok(d) && d.allow_act),
        out matches CoherenceOutcome::Block { decision, .. } ==> !decision.allow_act,
        out matches CoherenceOutcome::Pass(i) ==> i == intent,
        out matches CoherenceOutcome::Block { intent: i, .. } ==> i == intent,
{
}

/// The coherence gate's own answer is what an outcome carries: an allowing
/// decision lets the intent pass untouched, a refusing decision blocks it
/// and is handed on unchanged, and a failure blocks it with nothing allowed.
pub proof fn law_outcome_carries_gate_answer(
    out: CoherenceOutcome,
    intent: Intent,
    evaluation: Result<CoherenceDecision, String>,
)
    requires
        outcome_matches(out, intent, evaluation),
    ensures
        evaluation matches Ok(d) ==> (d.allow_act ==> out == CoherenceOutcome::Pass(intent)),
        evaluation matches Ok(d) ==> (!d.allow_act ==> out == (CoherenceOutcome::Block {
            intent,
            decision: d,
        })),
        evaluation matches Err(msg) ==> (out matches CoherenceOutcome::Block {
            intent: i,
            decision: d,
        } && i == intent && !d.allow_act && !d.allow_retrieve && !d.allow_write && !d.allow_learn
            && d.mincut_value == 0 && d.drift_score == 0 && d.cusum_score == 0
            && d.partition_hash@ == Seq::new(16, |k: int| 0u8) && d.reasons@.len() == 1
            && d.reasons@[0]@ == "gate error: "@ + msg@),
{
}

/// Pre-order coherence check around any gate.
pub struct CoherenceChecker<G: CoherenceGate> {
    pub gate: G,
}

impl<G: CoherenceGate> CoherenceChecker<G> {
    pub fn new(gate: G) -> (c: Self)
        ensures
            c.gate == gate,
    {
        CoherenceChecker { gate }
    }

    /// Runs the coherence gate on `ctx` and decides the intent's fate by
    /// [`outcome_for`]. Whatever the coherence gate answers, the intent comes back
    /// unchanged, and it is blocked unless the coherence gate allowed acting.
    pub fn check(&self, intent: Intent, ctx: &GateContext) -> (out: CoherenceOutcome)
        ensures
            exists|evaluation: Result<CoherenceDecision, String>|
                call_ensures(G::evaluate, (&self.gate, ctx), evaluation) && outcome_matches(
                    out,
                    intent,
                    evaluation,
                ),
            exists|evaluation: Result<CoherenceDecision, String>|
                call_ensures(G::evaluate, (&self.gate, ctx), evaluation) && (match evaluation {
                    Ok(d) => if d.allow_act {
                        out == CoherenceOutcome::Pass(intent)
                    } else {
                        out == (CoherenceOutcome::Block { intent, decision: d })
                    },
                    Err(_) => out is Block,
                }),
            out matches CoherenceOutcome::Pass(i) ==> i == intent,
            out matches CoherenceOutcome::Block { intent: i, decision } ==> i == intent
                && !decision.allow_act,
    {
        let evaluation = self.gate.evaluate(ctx);
        let out = outcome_for(intent, evaluation);
        proof {
            law_fail_closed(out, intent, evaluation);
            law_outcome_carries_gate_answer(out, intent, evaluation);
        }
        out
    }
}

} // verus!
