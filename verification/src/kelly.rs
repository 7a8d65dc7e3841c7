//! Expected-value Kelly strategy core.
//!
//! Given a model probability `p` for the YES side of a binary contract and
//! a current market price `m` in cents (`0..=100`), the sizing is
//! `edge = p - m / 100`, `kelly = edge / (1 - m / 100)`; the fraction of
//! the bankroll staked is `kelly` scaled by a conservative Kelly fraction
//! (clamped to `[0, 1]`) and by the intent's confidence `p`. At most one
//! intent is emitted per event.
//!
//! This module keeps the per-symbol state and makes every decision that
//! does not need floating point: which events move the mid, when a symbol
//! is ready to be sized (a [`Quote`]), and, given the sized edge and the
//! cents allocated to it, whether an [`Intent`] is emitted and for how many
//! contracts. Probabilities and the Kelly fraction are `f64` values carried
//! here as their IEEE-754 bit patterns.
use vstd::prelude::*;
use std::collections::HashMap;
use crate::intent::{Action, Intent, Side};

verus! {

broadcast use vstd::std_specs::hash::group_hash_axioms;

/// Fixed-point prices carry `cents * 1_000_000`.
pub const PRICE_FP_PER_CENT: i64 = 1_000_000;

/// Bit pattern of the `f64` value `0.25`, the default (quarter) Kelly fraction.
pub const QUARTER_KELLY_BITS: u64 = 0x3FD0_0000_0000_0000u64;

/// `a / b` rounded toward zero, as Rust's integer division does.
pub open spec fn div_toward_zero(a: int, b: int) -> int
    recommends
        b > 0,
{
    if a >= 0 {
        a / b
    } else {
        -((-a) / b)
    }
}

/// Converts a fixed-point price (`cents * 1e6`) back to whole cents,
/// rounding toward zero.
pub fn fp_to_cents(fp: i64) -> (cents: i64)
    ensures
        cents == div_toward_zero(fp as int, PRICE_FP_PER_CENT as int),
{
    fp / PRICE_FP_PER_CENT
}

/// Kind of a market event, as far as this strategy distinguishes them.
#[derive(Debug, Clone, Copy, PartialEq, Eq, Structural)]
pub enum EventType {
    Trade,
    VenueStatus,
    BookSnapshot,
    /// Any other event kind; the strategy ignores it.
    Other,
}

/// The parts of a normalized market event that the strategy reads.
#[derive(Debug, Clone, Copy, PartialEq, Eq, Structural)]
pub struct MarketEvent {
    pub symbol_id: u32,
    pub event_type: EventType,
    /// Price as `cents * 1_000_000`.
    pub price_fp: i64,
    pub seq: u64,
}

/// Strategy configuration.
#[derive(Debug, Clone)]
pub struct ExpectedValueKellyConfig {
    /// Kelly fraction in `(0, 1]`, as `f64` bits.
    pub kelly_fraction: u64,
    /// Total bankroll in cents used for sizing.
    pub bankroll_cents: i64,
    /// Minimum edge in basis points to emit an intent.
    pub min_edge_bps: i64,
    /// Attribution name.
    pub strategy_name: &'static str,
}

impl Default for ExpectedValueKellyConfig {
    fn default() -> (c: Self)
        ensures
            c.kelly_fraction == QUARTER_KELLY_BITS,
            c.bankroll_cents == 100_000,
            c.min_edge_bps == 100,
            c.strategy_name@ == "ev-kelly"@,
    {
        ExpectedValueKellyConfig {
            kelly_fraction: QUARTER_KELLY_BITS,
            bankroll_cents: 100_000,
            min_edge_bps: 100,
            strategy_name: "ev-kelly",
        }
    }
}

/// Per-symbol state tracked by the strategy.
#[derive(Debug, Clone, Copy, PartialEq, Eq, Structural)]
pub struct SymbolState {
    /// Latest YES-side mid in cents.
    pub latest_mid_cents: Option<i64>,
    /// External YES-side probability prior, as `f64` bits.
    pub prior: Option<u64>,
    /// Sequence number of the last event that produced an intent, if any:
    /// it throttles the strategy to at most one intent per event.
    pub last_emit_seq: Option<u64>,
}

/// The state of a symbol not seen before.
pub open spec fn fresh_state() -> SymbolState {
    SymbolState { latest_mid_cents: None, prior: None, last_emit_seq: None }
}

impl Default for SymbolState {
    fn default() -> (st: Self)
        ensures
            st == fresh_state(),
    {
        SymbolState { latest_mid_cents: None, prior: None, last_emit_seq: None }
    }
}

/// The state of `symbol_id` in `m`, or a fresh one.
pub open spec fn state_of(m: Map<u32, SymbolState>, symbol_id: u32) -> SymbolState {
    if m.contains_key(symbol_id) {
        m[symbol_id]
    } else {
        fresh_state()
    }
}

/// A symbol whose mid and prior are known and whose mid lies strictly
/// inside `(0, 100)` cents: ready to be sized.
#[derive(Debug, Clone, Copy, PartialEq, Eq, Structural)]
pub struct Quote {
    pub symbol_id: u32,
    /// Sequence number of the event that produced the quote.
    pub seq: u64,
    pub mid_cents: i64,
    /// The prior, as `f64` bits.
    pub prior: u64,
}

/// The quote for `symbol_id` in state `m`, if it is ready to be sized.
pub open spec fn quote_in(m: Map<u32, SymbolState>, symbol_id: u32, seq: u64) -> Option<Quote> {
    if m.contains_key(symbol_id) && m[symbol_id].latest_mid_cents is Some
        && m[symbol_id].prior is Some && 0 < m[symbol_id].latest_mid_cents->0 < 100 {
        Some(
            Quote {
                symbol_id,
                seq,
                mid_cents: m[symbol_id].latest_mid_cents->0,
                prior: m[symbol_id].prior->0,
            },
        )
    } else {
        None
    }
}

/// Whether an event of this kind moves the mid at all: trades and venue
/// status updates do only with a positive price, book snapshots always.
pub open spec fn moves_mid(e: MarketEvent) -> bool {
    match e.event_type {
        EventType::Trade | EventType::VenueStatus => div_toward_zero(
            e.price_fp as int,
            PRICE_FP_PER_CENT as int,
        ) > 0,
        EventType::BookSnapshot => true,
        EventType::Other => false,
    }
}

/// The symbol states after an event.
pub open spec fn state_after(m: Map<u32, SymbolState>, e: MarketEvent) -> Map<u32, SymbolState> {
    if moves_mid(e) {
        let cents = div_toward_zero(e.price_fp as int, PRICE_FP_PER_CENT as int) as i64;
        m.insert(
            e.symbol_id,
            SymbolState { latest_mid_cents: Some(cents), ..state_of(m, e.symbol_id) },
        )
    } else {
        m
    }
}

/// What an event hands on for sizing.
pub open spec fn quote_after(m: Map<u32, SymbolState>, e: MarketEvent) -> Option<Quote> {
    if moves_mid(e) {
        quote_in(state_after(m, e), e.symbol_id, e.seq)
    } else {
        None
    }
}

/// The number of contracts `alloc_cents` buys at `mid_cents` each.
pub open spec fn contracts_for(alloc_cents: int, mid_cents: int) -> int {
    div_toward_zero(alloc_cents, mid_cents)
}

/// The intent emitted for a sized quote, if any.
pub open spec fn intent_for(
    config: ExpectedValueKellyConfig,
    m: Map<u32, SymbolState>,
    q: Quote,
    edge_bps: i64,
    alloc_cents: i64,
) -> Option<Intent> {
    let contracts = contracts_for(alloc_cents as int, if q.mid_cents >= 1 {
        q.mid_cents as int
    } else {
        1
    });
    if edge_bps < config.min_edge_bps || contracts <= 0 || !m.contains_key(q.symbol_id)
        || m[q.symbol_id].last_emit_seq == Some(q.seq) {
        None
    } else {
        Some(
            Intent {
                symbol_id: q.symbol_id,
                side: Side::Yes,
                action: Action::Buy,
                limit_price_cents: q.mid_cents,
                quantity: contracts as i64,
                edge_bps,
                confidence: q.prior,
                strategy: config.strategy_name,
            },
        )
    }
}

/// Rounding toward zero: the whole cents never exceed the price in size,
/// and less than one cent is dropped.
pub proof fn law_cents_round_toward_zero(fp: i64)
    ensures
        ({
            let c = div_toward_zero(fp as int, PRICE_FP_PER_CENT as int);
            &&& fp >= 0 ==> (c * 1_000_000 <= fp < (c + 1) * 1_000_000 && c >= 0)
            &&& fp < 0 ==> ((c - 1) * 1_000_000 < fp <= c * 1_000_000 && c <= 0)
        }),
{
}

/// Which events move the mid, and what they do to the symbol's state:
/// trades and venue status updates with a positive price in cents, and
/// every book snapshot, set the mid to that price and keep the prior and
/// the throttle; other events change nothing.
pub proof fn law_events_set_the_mid(m: Map<u32, SymbolState>, e: MarketEvent)
    ensures
        ({
            let cents = div_toward_zero(e.price_fp as int, PRICE_FP_PER_CENT as int);
            &&& moves_mid(e) <==> (e.event_type == EventType::BookSnapshot || ((e.event_type
                == EventType::Trade || e.event_type == EventType::VenueStatus) && cents > 0))
            &&& moves_mid(e) ==> {
                &&& state_after(m, e).contains_key(e.symbol_id)
                &&& state_after(m, e)[e.symbol_id].latest_mid_cents == Some(cents as i64)
                &&& state_after(m, e)[e.symbol_id].prior == state_of(m, e.symbol_id).prior
                &&& state_after(m, e)[e.symbol_id].last_emit_seq == state_of(
                    m,
                    e.symbol_id,
                ).last_emit_seq
            }
            &&& !moves_mid(e) ==> state_after(m, e) == m
        }),
{
}

/// An event that moves the mid of a symbol with a prior to a price strictly
/// between 0 and 100 cents always yields the quote of that price and prior;
/// any other event yields none.
pub proof fn law_quote_exactly_when_sizable(m: Map<u32, SymbolState>, e: MarketEvent)
    ensures
        ({
            let cents = div_toward_zero(e.price_fp as int, PRICE_FP_PER_CENT as int);
            &&& (moves_mid(e) && state_of(m, e.symbol_id).prior is Some && 0 < cents < 100)
                ==> quote_after(m, e) == Some(
                Quote {
                    symbol_id: e.symbol_id,
                    seq: e.seq,
                    mid_cents: cents as i64,
                    prior: state_of(m, e.symbol_id).prior->0,
                },
            )
            &&& quote_after(m, e) is Some ==> (moves_mid(e) && state_of(m, e.symbol_id).prior
                is Some && 0 < cents < 100)
        }),
{
}

/// An emitted intent carries its quote's symbol, price and prior, the
/// sizing's edge and the configured attribution; and a quote whose edge
/// reaches the minimum, whose allotment pays for one contract, and whose
/// event has not been answered yet is emitted.
pub proof fn law_intent_carries_quote(
    config: ExpectedValueKellyConfig,
    m: Map<u32, SymbolState>,
    q: Quote,
    edge_bps: i64,
    alloc_cents: i64,
)
    ensures
        intent_for(config, m, q, edge_bps, alloc_cents) matches Some(i) ==> {
            &&& i.symbol_id == q.symbol_id
            &&& i.limit_price_cents == q.mid_cents
            &&& i.edge_bps == edge_bps
            &&& i.confidence == q.prior
            &&& i.strategy == config.strategy_name
        },
        (edge_bps >= config.min_edge_bps && q.mid_cents >= 1 && alloc_cents >= q.mid_cents
            && m.contains_key(q.symbol_id) && m[q.symbol_id].last_emit_seq != Some(q.seq))
            ==> intent_for(config, m, q, edge_bps, alloc_cents) is Some,
{
    if alloc_cents >= q.mid_cents && q.mid_cents >= 1 {
        let a = alloc_cents as int;
        let d = q.mid_cents as int;
        assert(a / d >= 1) by (nonlinear_arith)
            requires
                a >= d,
                d >= 1,
        ;
    }
}

/// Without a prior for its symbol an event never yields a quote, so no
/// intent can follow it.
pub proof fn law_no_prior_no_quote(m: Map<u32, SymbolState>, e: MarketEvent)
    requires
        state_of(m, e.symbol_id).prior is None,
    ensures
        quote_after(m, e) is None,
{
}

/// A quote always carries the event's symbol and sequence number, the
/// event's price in whole cents as mid, strictly between 0 and 100 cents,
/// and the symbol's current prior.
pub proof fn law_quote_reflects_event(m: Map<u32, SymbolState>, e: MarketEvent)
    ensures
        quote_after(m, e) matches Some(q) ==> {
            &&& q.symbol_id == e.symbol_id
            &&& q.seq == e.seq
            &&& q.mid_cents == div_toward_zero(e.price_fp as int, PRICE_FP_PER_CENT as int)
            &&& 0 < q.mid_cents < 100
            &&& state_of(m, e.symbol_id).prior == Some(q.prior)
        },
{
}

/// An event changes the state of its own symbol only.
pub proof fn law_event_touches_own_symbol(m: Map<u32, SymbolState>, e: MarketEvent, other: u32)
    requires
        other != e.symbol_id,
    ensures
        state_after(m, e).contains_key(other) == m.contains_key(other),
        m.contains_key(other) ==> state_after(m, e)[other] == m[other],
{
}

/// An emitted intent buys at least one YES contract at the quote's mid,
/// with at least the configured edge; its notional is the largest multiple
/// of the mid that fits in the allotted cents, so it stays within the
/// bankroll whenever the allotment does; and an event already answered with
/// an intent gets no second one.
pub proof fn law_intent_within_allocation(
    config: ExpectedValueKellyConfig,
    m: Map<u32, SymbolState>,
    q: Quote,
    edge_bps: i64,
    alloc_cents: i64,
)
    requires
        q.mid_cents > 0,
    ensures
        intent_for(config, m, q, edge_bps, alloc_cents) matches Some(i) ==> {
            &&& i.side == Side::Yes
            &&& i.action == Action::Buy
            &&& i.limit_price_cents == q.mid_cents
            &&& i.quantity >= 1
            &&& i.edge_bps >= config.min_edge_bps
            &&& i.limit_price_cents * i.quantity <= alloc_cents
            &&& alloc_cents < i.limit_price_cents * (i.quantity + 1)
            &&& (alloc_cents <= config.bankroll_cents ==> i.limit_price_cents * i.quantity
                <= config.bankroll_cents)
        },
        m.contains_key(q.symbol_id) && m[q.symbol_id].last_emit_seq == Some(q.seq) ==> intent_for(
            config,
            m,
            q,
            edge_bps,
            alloc_cents,
        ) is None,
{
    if intent_for(config, m, q, edge_bps, alloc_cents) is Some {
        let mid = q.mid_cents as int;
        let a = alloc_cents as int;
        assert(a >= 0) by {
            if a < 0 {
                assert((-a) / mid >= 0) by (nonlinear_arith)
                    requires
                        -a > 0,
                        mid > 0,
                ;
            }
        }
        assert(mid * (a / mid) <= a && a < mid * (a / mid + 1)) by (nonlinear_arith)
            requires
                a >= 0,
                mid > 0,
        ;
    }
}

/// The throttle across deliveries: once an event has been answered with an
/// intent, delivering the very same event again (same kind, symbol and
/// sequence number) may quote it, but the quote yields no second intent,
/// whatever the sizing hands back.
pub proof fn law_answered_event_gets_no_second_intent(
    config: ExpectedValueKellyConfig,
    m: Map<u32, SymbolState>,
    e: MarketEvent,
    edge_bps: i64,
    alloc_cents: i64,
    edge_bps2: i64,
    alloc_cents2: i64,
)
    requires
        quote_after(m, e) is Some,
        intent_for(config, state_after(m, e), quote_after(m, e)->0, edge_bps, alloc_cents) is Some,
    ensures
        ({
            let m1 = state_after(m, e);
            let m2 = m1.insert(
                e.symbol_id,
                SymbolState { last_emit_seq: Some(e.seq), ..m1[e.symbol_id] },
            );
            quote_after(m2, e) matches Some(q2) ==> intent_for(
                config,
                state_after(m2, e),
                q2,
                edge_bps2,
                alloc_cents2,
            ) is None
        }),
{
}

/// Expected-value Kelly strategy state.
#[derive(Debug, Clone)]
pub struct ExpectedValueKelly {
    config: ExpectedValueKellyConfig,
    symbols: HashMap<u32, SymbolState>,
}

impl View for ExpectedValueKelly {
    type V = Map<u32, SymbolState>;

    closed spec fn view(&self) -> Map<u32, SymbolState> {
        self.symbols@
    }
}

impl Default for ExpectedValueKelly {
    fn default() -> (s: Self)
        ensures
            s.configured().kelly_fraction == QUARTER_KELLY_BITS,
            s.configured().bankroll_cents == 100_000,
            s.configured().min_edge_bps == 100,
            s.configured().strategy_name@ == "ev-kelly"@,
            s@ == Map::<u32, SymbolState>::empty(),
    {
        ExpectedValueKelly::new(ExpectedValueKellyConfig::default())
    }
}

impl ExpectedValueKelly {
    /// The configuration the strategy runs with.
    pub closed spec fn configured(&self) -> ExpectedValueKellyConfig {
        self.config
    }

    /// A strategy that knows no symbol yet.
    pub fn new(config: ExpectedValueKellyConfig) -> (s: Self)
        ensures
            s.configured() == config,
            s@ == Map::<u32, SymbolState>::empty(),
    {
        ExpectedValueKelly { config, symbols: HashMap::new() }
    }

    /// The configuration the strategy runs with.
    pub fn config(&self) -> (c: &ExpectedValueKellyConfig)
        ensures
            *c == self.configured(),
    {
        &self.config
    }

    /// The attribution name.
    pub fn name(&self) -> (n: &'static str)
        ensures
            n == self.configured().strategy_name,
    {
        self.config.strategy_name
    }

    fn state(&self, symbol_id: u32) -> (st: SymbolState)
        ensures
            st == state_of(self@, symbol_id),
    {
        match self.symbols.get(&symbol_id) {
            Some(st) => *st,
            None => SymbolState::default(),
        }
    }

    /// Installs or updates the probability prior (as `f64` bits) of a symbol.
    /// Callers clamp the probability into `[0.01, 0.99]` first.
    pub fn set_prior(&mut self, symbol_id: u32, prior: u64)
        ensures
            final(self).configured() == old(self).configured(),
            final(self)@ == old(self)@.insert(
                symbol_id,
                SymbolState { prior: Some(prior), ..state_of(old(self)@, symbol_id) },
            ),
    {
        let st = self.state(symbol_id);
        self.symbols.insert(symbol_id, SymbolState { prior: Some(prior), ..st });
    }

    fn set_mid(&mut self, symbol_id: u32, cents: i64)
        ensures
            final(self).configured() == old(self).configured(),
            final(self)@ == old(self)@.insert(
                symbol_id,
                SymbolState { latest_mid_cents: Some(cents), ..state_of(old(self)@, symbol_id) },
            ),
    {
        let st = self.state(symbol_id);
        self.symbols.insert(symbol_id, SymbolState { latest_mid_cents: Some(cents), ..st });
    }

    /// The quote for a symbol if its mid and prior are known and the mid is
    /// strictly between 0 and 100 cents.
    fn maybe_quote(&self, symbol_id: u32, seq: u64) -> (q: Option<Quote>)
        ensures
            q == quote_in(self@, symbol_id, seq),
    {
        let state = match self.symbols.get(&symbol_id) {
            Some(st) => *st,
            None => {
                return None;
            },
        };
        let mid = match state.latest_mid_cents {
            Some(m) => m,
            None => {
                return None;
            },
        };
        let prior = match state.prior {
            Some(p) => p,
            None => {
                return None;
            },
        };
        if mid <= 0 || mid >= 100 {
            return None;
        }
        Some(Quote { symbol_id, seq, mid_cents: mid, prior })
    }

    /// A book snapshot: its YES bid becomes the mid.
    fn handle_snapshot(&mut self, event: &MarketEvent) -> (q: Option<Quote>)
        requires
            event.event_type == EventType::BookSnapshot,
        ensures
            final(self).configured() == old(self).configured(),
            final(self)@ == state_after(old(self)@, *event),
            q == quote_after(old(self)@, *event),
    {
        let cents = fp_to_cents(event.price_fp);
        self.set_mid(event.symbol_id, cents);
        self.maybe_quote(event.symbol_id, event.seq)
    }

    /// A trade or venue status update: a positive price becomes the mid.
    fn handle_ticker_or_trade(&mut self, event: &MarketEvent) -> (q: Option<Quote>)
        requires
            event.event_type == EventType::Trade || event.event_type == EventType::VenueStatus,
        ensures
            final(self).configured() == old(self).configured(),
            final(self)@ == state_after(old(self)@, *event),
            q == quote_after(old(self)@, *event),
    {
        let cents = fp_to_cents(event.price_fp);
        if cents <= 0 {
            return None;
        }
        self.set_mid(event.symbol_id, cents);
        self.maybe_quote(event.symbol_id, event.seq)
    }

    /// Feeds one market event: updates the symbol's mid and returns the
    /// quote to size, if the symbol is ready.
    pub fn on_event(&mut self, event: &MarketEvent) -> (q: Option<Quote>)
        ensures
            ({
                let cents = div_toward_zero(event.price_fp as int, PRICE_FP_PER_CENT as int);
                &&& moves_mid(*event) && state_of(old(self)@, event.symbol_id).prior is Some && 0
                    < cents < 100 ==> q == Some(
                    Quote {
                        symbol_id: event.symbol_id,
                        seq: event.seq,
                        mid_cents: cents as i64,
                        prior: state_of(old(self)@, event.symbol_id).prior->0,
                    },
                )
                &&& q is Some ==> moves_mid(*event) && state_of(old(self)@, event.symbol_id).prior
                    is Some && 0 < cents < 100
            }),
            final(self).configured() == old(self).configured(),
            final(self)@ == state_after(old(self)@, *event),
            q == quote_after(old(self)@, *event),
    {
        match event.event_type {
            EventType::Trade | EventType::VenueStatus => self.handle_ticker_or_trade(event),
            EventType::BookSnapshot => self.handle_snapshot(event),
            EventType::Other => None,
        }
    }

    /// Completes a sized quote: `edge_bps` is the rounded edge in basis
    /// points and `alloc_cents` the cents of bankroll the sizing allots
    /// (a fraction in `[0, 1]` of a non-negative bankroll, so never more
    /// than the bankroll). Emits an intent when the edge reaches the
    /// configured minimum, the allotment buys at least one contract at the
    /// mid (at least one cent a contract) and no intent was emitted for this
    /// event yet; then records the event's sequence number for the symbol.
    pub fn emit(&mut self, quote: &Quote, edge_bps: i64, alloc_cents: i64) -> (r: Option<Intent>)
        requires
            alloc_cents <= 0 || alloc_cents <= old(self).configured().bankroll_cents,
        ensures
            state_of(old(self)@, quote.symbol_id).last_emit_seq == Some(quote.seq) ==> r is None,
            r matches Some(i) ==> {
                &&& i.symbol_id == quote.symbol_id
                &&& i.side == Side::Yes
                &&& i.action == Action::Buy
                &&& i.limit_price_cents == quote.mid_cents
                &&& i.quantity >= 1
                &&& i.edge_bps == edge_bps
                &&& i.edge_bps >= old(self).configured().min_edge_bps
                &&& i.confidence == quote.prior
                &&& i.strategy == old(self).configured().strategy_name
            },
            (edge_bps >= old(self).configured().min_edge_bps && quote.mid_cents >= 1
                && alloc_cents >= quote.mid_cents && old(self)@.contains_key(quote.symbol_id)
                && old(self)@[quote.symbol_id].last_emit_seq != Some(quote.seq)) ==> r is Some,
            r matches Some(i) ==> i.limit_price_cents * i.quantity <= old(
                self,
            ).configured().bankroll_cents,
            final(self).configured() == old(self).configured(),
            r == intent_for(old(self).configured(), old(self)@, *quote, edge_bps, alloc_cents),
            final(self)@ == (if r is Some {
                old(self)@.insert(
                    quote.symbol_id,
                    SymbolState { last_emit_seq: Some(quote.seq), ..old(self)@[quote.symbol_id] },
                )
            } else {
                old(self)@
            }),
    {
        proof {
            law_intent_carries_quote(self.config, self@, *quote, edge_bps, alloc_cents);
        }
        if edge_bps < self.config.min_edge_bps {
            return None;
        }
        let per_contract: i64 = if quote.mid_cents >= 1 {
            quote.mid_cents
        } else {
            1
        };
        let contracts: i64 = alloc_cents / per_contract;
        if contracts <= 0 {
            return None;
        }
        let st = match self.symbols.get(&quote.symbol_id) {
            Some(st) => *st,
            None => {
                return None;
            },
        };
        if st.last_emit_seq == Some(quote.seq) {
            return None;
        }
        proof {
            let a = alloc_cents as int;
            let d = per_contract as int;
            let c = contracts as int;
            assert(a > 0) by {
                if a <= 0 {
                    assert((-a) / d >= 0) by (nonlinear_arith)
                        requires
                            -a >= 0,
                            d > 0,
                    ;
                }
            }
            assert(d * c <= a) by (nonlinear_arith)
                requires
                    a >= 0,
                    d > 0,
                    c == a / d,
            ;
            assert(quote.mid_cents * c <= d * c) by (nonlinear_arith)
                requires
                    quote.mid_cents <= d,
                    c > 0,
            ;
        }
        self.symbols.insert(quote.symbol_id, SymbolState { last_emit_seq: Some(quote.seq), ..st });
        Some(
            Intent {
                symbol_id: quote.symbol_id,
                side: Side::Yes,
                action: Action::Buy,
                limit_price_cents: quote.mid_cents,
                quantity: contracts,
                edge_bps,
                confidence: quote.prior,
                strategy: self.config.strategy_name,
            },
        )
    }
}

} // verus!
