# ruvector_toolkit

Verified core logic of a vector database's payload filters and of a
prediction-market trading strategy, written in Verus.

- `src/filter.rs` — filter expressions over JSON payloads; `get_fields`
  returns every referenced field once, in `String` order.
- `src/order.rs` — the byte-wise lexicographic order on strings and its laws.
- `src/kelly.rs`, `src/intent.rs` — per-symbol state and the integer
  decisions of an expected-value Kelly strategy.
- `src/coherence.rs` — a fail-closed coherence check in front of the risk
  gate, and a gate context built from a price window.
- `src/metrics.rs` — the exported metric families and their validity.
- `app/` — the parts that need floating point, serde or process-wide
  statics: JSON forms of filters, Kelly sizing, float scores, the
  Prometheus registry.
