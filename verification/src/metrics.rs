//! The metric families the vector database exports, as data: name, help
//! text, label names and, for histograms, bucket bounds. The registry that
//! holds the live metrics is built from these definitions by the host.
//!
//! Every definition satisfies the Prometheus data model's naming rules as
//! written in `valid_def` (metric names `[a-zA-Z_:][a-zA-Z0-9_:]*`, label
//! names `[a-zA-Z_][a-zA-Z0-9_]*`, non-empty help, distinct label names, no
//! `le` label on a histogram, increasing positive buckets), and no two
//! families share a name. These are the conditions the `prometheus` crate
//! checks when a family is created and registered; that its checks are
//! exactly these is not proved here.
use vstd::prelude::*;

verus! {

/// The kind of a metric family.
#[derive(Debug, Clone, Copy, PartialEq, Eq, Structural)]
pub enum MetricKind {
    Counter,
    CounterVec,
    Gauge,
    GaugeVec,
    HistogramVec,
}

/// One metric family.
#[derive(Debug, Clone)]
pub struct MetricDef {
    pub kind: MetricKind,
    pub name: &'static str,
    pub help: &'static str,
    pub labels: Vec<&'static str>,
    /// Histogram bucket upper bounds, as `f64` bits (empty for other kinds).
    pub buckets: Vec<u64>,
}

pub open spec fn is_ascii_letter(c: char) -> bool {
    ('a' <= c && c <= 'z') || ('A' <= c && c <= 'Z')
}

pub open spec fn is_ascii_digit(c: char) -> bool {
    '0' <= c && c <= '9'
}

/// `[a-zA-Z_:][a-zA-Z0-9_:]*`
pub open spec fn valid_metric_name(s: Seq<char>) -> bool {
    &&& s.len() > 0
    &&& forall|i: int|
        0 <= i < s.len() ==> {
            let c = #[trigger] s[i];
            is_ascii_letter(c) || c == '_' || c == ':' || (i > 0 && is_ascii_digit(c))
        }
}

/// `[a-zA-Z_][a-zA-Z0-9_]*`
pub open spec fn valid_label_name(s: Seq<char>) -> bool {
    &&& s.len() > 0
    &&& forall|i: int|
        0 <= i < s.len() ==> {
            let c = #[trigger] s[i];
            is_ascii_letter(c) || c == '_' || (i > 0 && is_ascii_digit(c))
        }
}

/// Bucket bounds are positive finite `f64` values in increasing order; for
/// such values the order of the bit patterns is the order of the values.
pub open spec fn valid_buckets(b: Seq<u64>) -> bool {
    &&& forall|i: int| 0 <= i < b.len() ==> 0 < #[trigger] b[i] < 0x7FF0_0000_0000_0000u64
    &&& forall|i: int, j: int| 0 <= i < j < b.len() ==> #[trigger] b[i] < #[trigger] b[j]
}

/// A family the registry accepts.
pub open spec fn valid_def(d: MetricDef) -> bool {
    &&& valid_metric_name(d.name@)
    &&& d.help@.len() > 0
    &&& forall|i: int| 0 <= i < d.labels@.len() ==> valid_label_name(#[trigger] d.labels@[i]@)
    &&& forall|i: int, j: int|
        0 <= i < j < d.labels@.len() ==> #[trigger] d.labels@[i]@ != #[trigger] d.labels@[j]@
    &&& match d.kind {
        MetricKind::Counter | MetricKind::Gauge => d.labels@.len() == 0 && d.buckets@.len() == 0,
        MetricKind::CounterVec | MetricKind::GaugeVec => d.labels@.len() > 0 && d.buckets@.len()
            == 0,
        MetricKind::HistogramVec => {
            &&& d.labels@.len() > 0
            &&& forall|i: int| 0 <= i < d.labels@.len() ==> #[trigger] d.labels@[i]@ != "le"@
            &&& d.buckets@.len() > 0
            &&& valid_buckets(d.buckets@)
        },
    }
}

/// `d` is the family of this kind, name, help text, labels and buckets.
pub open spec fn is_def(
    d: MetricDef,
    kind: MetricKind,
    name: Seq<char>,
    help: Seq<char>,
    labels: Seq<Seq<char>>,
    buckets: Seq<u64>,
) -> bool {
    &&& d.kind == kind
    &&& d.name@ == name
    &&& d.help@ == help
    &&& d.labels@.len() == labels.len()
    &&& forall|i: int| 0 <= i < labels.len() ==> #[trigger] d.labels@[i]@ == labels[i]
    &&& d.buckets@ == buckets
}

/// The naming rules of a definition with at most two labels, in the form
/// `valid_def` states them in: two labels are distinct when they differ.
proof fn lemma_names_follow_rules(d: MetricDef)
    requires
        valid_metric_name(d.name@),
        d.labels@.len() <= 2,
        forall|i: int| 0 <= i < d.labels@.len() ==> valid_label_name(#[trigger] d.labels@[i]@),
        d.labels@.len() == 2 ==> d.labels@[0]@ != d.labels@[1]@,
    ensures
        valid_metric_name(d.name@),
        forall|i: int| 0 <= i < d.labels@.len() ==> valid_label_name(#[trigger] d.labels@[i]@),
        forall|i: int, j: int|
            0 <= i < j < d.labels@.len() ==> #[trigger] d.labels@[i]@ != #[trigger] d.labels@[j]@,
{
}

/// Latency histogram bucket bounds in seconds: 0.0001, 0.0005, 0.001,
/// 0.005, 0.01, 0.05, 0.1, 0.5 and 1.0, as `f64` bits.
pub open spec fn latency_buckets() -> Seq<u64> {
    seq![
        0x3F1A_36E2_EB1C_432Du64,
        0x3F40_624D_D2F1_A9FCu64,
        0x3F50_624D_D2F1_A9FCu64,
        0x3F74_7AE1_47AE_147Bu64,
        0x3F84_7AE1_47AE_147Bu64,
        0x3FA9_9999_9999_999Au64,
        0x3FB9_9999_9999_999Au64,
        0x3FE0_0000_0000_0000u64,
        0x3FF0_0000_0000_0000u64,
    ]
}

fn latency_bucket_bits() -> (b: Vec<u64>)
    ensures
        b@ == latency_buckets(),
        valid_buckets(b@),
{
    let b = vec![
        0x3F1A_36E2_EB1C_432Du64,
        0x3F40_624D_D2F1_A9FCu64,
        0x3F50_624D_D2F1_A9FCu64,
        0x3F74_7AE1_47AE_147Bu64,
        0x3F84_7AE1_47AE_147Bu64,
        0x3FA9_9999_9999_999Au64,
        0x3FB9_9999_9999_999Au64,
        0x3FE0_0000_0000_0000u64,
        0x3FF0_0000_0000_0000u64,
    ];
    assert(b@ =~= latency_buckets());
    b
}

/// `ruvector_search_requests_total`: total search requests.
pub fn search_requests_total() -> (d: MetricDef)
    ensures
        is_def(
            d,
            MetricKind::CounterVec,
            "ruvector_search_requests_total"@,
            "Total search requests"@,
            seq!["collection"@, "status"@],
            seq![],
        ),
        valid_def(d),
{
    let labels: Vec<&'static str> = vec!["collection", "status"];
    let d = MetricDef {
        kind: MetricKind::CounterVec,
        name: "ruvector_search_requests_total",
        help: "Total search requests",
        labels,
        buckets: Vec::new(),
    };
    proof {
        reveal_strlit("ruvector_search_requests_total");
        reveal_strlit("Total search requests");
        reveal_strlit("collection");
        reveal_strlit("status");
        assert(d.labels@[0]@ =~= "collection"@);
        lemma_names_follow_rules(d);
    }
    d
}

/// `ruvector_search_latency_seconds`: search latency in seconds.
pub fn search_latency_seconds() -> (d: MetricDef)
    ensures
        is_def(
            d,
            MetricKind::HistogramVec,
            "ruvector_search_latency_seconds"@,
            "Search latency in seconds"@,
            seq!["collection"@],
            latency_buckets(),
        ),
        valid_def(d),
{
    let labels: Vec<&'static str> = vec!["collection"];
    let d = MetricDef {
        kind: MetricKind::HistogramVec,
        name: "ruvector_search_latency_seconds",
        help: "Search latency in seconds",
        labels,
        buckets: latency_bucket_bits(),
    };
    proof {
        reveal_strlit("ruvector_search_latency_seconds");
        reveal_strlit("Search latency in seconds");
        reveal_strlit("collection");
        reveal_strlit("le");
        lemma_names_follow_rules(d);
    }
    d
}

/// `ruvector_insert_requests_total`: total insert requests.
pub fn insert_requests_total() -> (d: MetricDef)
    ensures
        is_def(
            d,
            MetricKind::CounterVec,
            "ruvector_insert_requests_total"@,
            "Total insert requests"@,
            seq!["collection"@, "status"@],
            seq![],
        ),
        valid_def(d),
{
    let labels: Vec<&'static str> = vec!["collection", "status"];
    let d = MetricDef {
        kind: MetricKind::CounterVec,
        name: "ruvector_insert_requests_total",
        help: "Total insert requests",
        labels,
        buckets: Vec::new(),
    };
    proof {
        reveal_strlit("ruvector_insert_requests_total");
        reveal_strlit("Total insert requests");
        reveal_strlit("collection");
        reveal_strlit("status");
        assert(d.labels@[0]@ =~= "collection"@);
        lemma_names_follow_rules(d);
    }
    d
}

/// `ruvector_insert_latency_seconds`: insert latency in seconds.
pub fn insert_latency_seconds() -> (d: MetricDef)
    ensures
        is_def(
            d,
            MetricKind::HistogramVec,
            "ruvector_insert_latency_seconds"@,
            "Insert latency in seconds"@,
            seq!["collection"@],
            latency_buckets(),
        ),
        valid_def(d),
{
    let labels: Vec<&'static str> = vec!["collection"];
    let d = MetricDef {
        kind: MetricKind::HistogramVec,
        name: "ruvector_insert_latency_seconds",
        help: "Insert latency in seconds",
        labels,
        buckets: latency_bucket_bits(),
    };
    proof {
        reveal_strlit("ruvector_insert_latency_seconds");
        reveal_strlit("Insert latency in seconds");
        reveal_strlit("collection");
        reveal_strlit("le");
        lemma_names_follow_rules(d);
    }
    d
}

/// `ruvector_vectors_inserted_total`: total vectors inserted.
pub fn vectors_inserted_total() -> (d: MetricDef)
    ensures
        is_def(
            d,
            MetricKind::CounterVec,
            "ruvector_vectors_inserted_total"@,
            "Total vectors inserted"@,
            seq!["collection"@],
            seq![],
        ),
        valid_def(d),
{
    let labels: Vec<&'static str> = vec!["collection"];
    let d = MetricDef {
        kind: MetricKind::CounterVec,
        name: "ruvector_vectors_inserted_total",
        help: "Total vectors inserted",
        labels,
        buckets: Vec::new(),
    };
    proof {
        reveal_strlit("ruvector_vectors_inserted_total");
        reveal_strlit("Total vectors inserted");
        reveal_strlit("collection");
        lemma_names_follow_rules(d);
    }
    d
}

/// `ruvector_delete_requests_total`: total delete requests.
pub fn delete_requests_total() -> (d: MetricDef)
    ensures
        is_def(
            d,
            MetricKind::CounterVec,
            "ruvector_delete_requests_total"@,
            "Total delete requests"@,
            seq!["collection"@, "status"@],
            seq![],
        ),
        valid_def(d),
{
    let labels: Vec<&'static str> = vec!["collection", "status"];
    let d = MetricDef {
        kind: MetricKind::CounterVec,
        name: "ruvector_delete_requests_total",
        help: "Total delete requests",
        labels,
        buckets: Vec::new(),
    };
    proof {
        reveal_strlit("ruvector_delete_requests_total");
        reveal_strlit("Total delete requests");
        reveal_strlit("collection");
        reveal_strlit("status");
        assert(d.labels@[0]@ =~= "collection"@);
        lemma_names_follow_rules(d);
    }
    d
}

/// `ruvector_vectors_total`: total vectors stored.
pub fn vectors_total() -> (d: MetricDef)
    ensures
        is_def(
            d,
            MetricKind::GaugeVec,
            "ruvector_vectors_total"@,
            "Total vectors stored"@,
            seq!["collection"@],
            seq![],
        ),
        valid_def(d),
{
    let labels: Vec<&'static str> = vec!["collection"];
    let d = MetricDef {
        kind: MetricKind::GaugeVec,
        name: "ruvector_vectors_total",
        help: "Total vectors stored",
        labels,
        buckets: Vec::new(),
    };
    proof {
        reveal_strlit("ruvector_vectors_total");
        reveal_strlit("Total vectors stored");
        reveal_strlit("collection");
        lemma_names_follow_rules(d);
    }
    d
}

/// `ruvector_collections_total`: total number of collections.
pub fn collections_total() -> (d: MetricDef)
    ensures
        is_def(
            d,
            MetricKind::Gauge,
            "ruvector_collections_total"@,
            "Total number of collections"@,
            seq![],
            seq![],
        ),
        valid_def(d),
{
    let labels: Vec<&'static str> = Vec::new();
    let d = MetricDef {
        kind: MetricKind::Gauge,
        name: "ruvector_collections_total",
        help: "Total number of collections",
        labels,
        buckets: Vec::new(),
    };
    proof {
        reveal_strlit("ruvector_collections_total");
        reveal_strlit("Total number of collections");
        lemma_names_follow_rules(d);
    }
    d
}

/// `ruvector_memory_usage_bytes`: memory usage in bytes.
pub fn memory_usage_bytes() -> (d: MetricDef)
    ensures
        is_def(
            d,
            MetricKind::Gauge,
            "ruvector_memory_usage_bytes"@,
            "Memory usage in bytes"@,
            seq![],
            seq![],
        ),
        valid_def(d),
{
    let labels: Vec<&'static str> = Vec::new();
    let d = MetricDef {
        kind: MetricKind::Gauge,
        name: "ruvector_memory_usage_bytes",
        help: "Memory usage in bytes",
        labels,
        buckets: Vec::new(),
    };
    proof {
        reveal_strlit("ruvector_memory_usage_bytes");
        reveal_strlit("Memory usage in bytes");
        lemma_names_follow_rules(d);
    }
    d
}

/// `ruvector_uptime_seconds`: uptime in seconds.
pub fn uptime_seconds() -> (d: MetricDef)
    ensures
        is_def(
            d,
            MetricKind::Counter,
            "ruvector_uptime_seconds"@,
            "Uptime in seconds"@,
            seq![],
            seq![],
        ),
        valid_def(d),
{
    let labels: Vec<&'static str> = Vec::new();
    let d = MetricDef {
        kind: MetricKind::Counter,
        name: "ruvector_uptime_seconds",
        help: "Uptime in seconds",
        labels,
        buckets: Vec::new(),
    };
    proof {
        reveal_strlit("ruvector_uptime_seconds");
        reveal_strlit("Uptime in seconds");
        lemma_names_follow_rules(d);
    }
    d
}

/// Every metric family the vector database exports, in a fixed order: each
/// one satisfies the naming rules above and no two share a name.
pub fn metric_definitions() -> (defs: Vec<MetricDef>)
    ensures
        defs@.len() == 10,
        is_def(defs@[0], MetricKind::CounterVec, "ruvector_search_requests_total"@, "Total search requests"@, seq!["collection"@, "status"@], seq![]),
        is_def(defs@[1], MetricKind::HistogramVec, "ruvector_search_latency_seconds"@, "Search latency in seconds"@, seq!["collection"@], latency_buckets()),
        is_def(defs@[2], MetricKind::CounterVec, "ruvector_insert_requests_total"@, "Total insert requests"@, seq!["collection"@, "status"@], seq![]),
        is_def(defs@[3], MetricKind::HistogramVec, "ruvector_insert_latency_seconds"@, "Insert latency in seconds"@, seq!["collection"@], latency_buckets()),
        is_def(defs@[4], MetricKind::CounterVec, "ruvector_vectors_inserted_total"@, "Total vectors inserted"@, seq!["collection"@], seq![]),
        is_def(defs@[5], MetricKind::CounterVec, "ruvector_delete_requests_total"@, "Total delete requests"@, seq!["collection"@, "status"@], seq![]),
        is_def(defs@[6], MetricKind::GaugeVec, "ruvector_vectors_total"@, "Total vectors stored"@, seq!["collection"@], seq![]),
        is_def(defs@[7], MetricKind::Gauge, "ruvector_collections_total"@, "Total number of collections"@, seq![], seq![]),
        is_def(defs@[8], MetricKind::Gauge, "ruvector_memory_usage_bytes"@, "Memory usage in bytes"@, seq![], seq![]),
        is_def(defs@[9], MetricKind::Counter, "ruvector_uptime_seconds"@, "Uptime in seconds"@, seq![], seq![]),
        forall|i: int| 0 <= i < defs@.len() ==> valid_def(#[trigger] defs@[i]),
        forall|i: int, j: int|
            0 <= i < j < defs@.len() ==> #[trigger] defs@[i].name@ != #[trigger] defs@[j].name@,
{
    let mut defs: Vec<MetricDef> = Vec::new();
    defs.push(search_requests_total());
    defs.push(search_latency_seconds());
    defs.push(insert_requests_total());
    defs.push(insert_latency_seconds());
    defs.push(vectors_inserted_total());
    defs.push(delete_requests_total());
    defs.push(vectors_total());
    defs.push(collections_total());
    defs.push(memory_usage_bytes());
    defs.push(uptime_seconds());
    proof {
        reveal_strlit("ruvector_search_requests_total");
        reveal_strlit("ruvector_search_latency_seconds");
        reveal_strlit("ruvector_insert_requests_total");
        reveal_strlit("ruvector_insert_latency_seconds");
        reveal_strlit("ruvector_vectors_inserted_total");
        reveal_strlit("ruvector_delete_requests_total");
        reveal_strlit("ruvector_vectors_total");
        reveal_strlit("ruvector_collections_total");
        reveal_strlit("ruvector_memory_usage_bytes");
        reveal_strlit("ruvector_uptime_seconds");
        let names = seq!["ruvector_search_requests_total"@, "ruvector_search_latency_seconds"@, "ruvector_insert_requests_total"@, "ruvector_insert_latency_seconds"@, "ruvector_vectors_inserted_total"@, "ruvector_delete_requests_total"@, "ruvector_vectors_total"@, "ruvector_collections_total"@, "ruvector_memory_usage_bytes"@, "ruvector_uptime_seconds"@];
        assert forall|i: int| 0 <= i < 10 implies #[trigger] defs@[i].name@ == names[i] by {}
        assert forall|i: int, j: int| 0 <= i < j < 10 implies names[i] != names[j] by {
            if names[i].len() == names[j].len() {
                assert(names[i][9] != names[j][9] || names[i][10] != names[j][10]);
            }
        }
    }
    defs
}

} // verus!
