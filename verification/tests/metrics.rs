use prometheus::{
    Counter, CounterVec, Encoder, Gauge, GaugeVec, HistogramOpts, HistogramVec, Opts, Registry,
    TextEncoder,
};
use ruvector_toolkit::metrics::{
    metric_definitions, search_latency_seconds, search_requests_total, MetricDef, MetricKind,
};

fn opts(d: &MetricDef) -> Opts {
    Opts::new(d.name, d.help)
}

fn counter_vec(d: &MetricDef) -> CounterVec {
    CounterVec::new(opts(d), &d.labels).unwrap()
}

fn histogram_vec(d: &MetricDef) -> HistogramVec {
    let buckets = d.buckets.iter().map(|b| f64::from_bits(*b)).collect();
    HistogramVec::new(HistogramOpts::new(d.name, d.help).buckets(buckets), &d.labels).unwrap()
}

fn register(registry: &Registry, d: &MetricDef) -> prometheus::Result<()> {
    match d.kind {
        MetricKind::Counter => registry.register(Box::new(Counter::with_opts(opts(d))?)),
        MetricKind::CounterVec => registry.register(Box::new(counter_vec(d))),
        MetricKind::Gauge => registry.register(Box::new(Gauge::with_opts(opts(d))?)),
        MetricKind::GaugeVec => {
            registry.register(Box::new(GaugeVec::new(opts(d), &d.labels)?))
        }
        MetricKind::HistogramVec => registry.register(Box::new(histogram_vec(d))),
    }
}

#[test]
fn test_record_search() {
    let search_requests = counter_vec(&search_requests_total());
    let search_latency = histogram_vec(&search_latency_seconds());

    search_requests.with_label_values(&["test", "success"]).inc();

    search_latency.with_label_values(&["test"]).observe(0.001);
}

// `gather_metrics` itself works on the process-wide registry in the host
// crate; this test registers the library's definitions in a registry of its
// own and checks the exposition built from them.
#[test]
fn test_gather_metrics() {
    let registry = Registry::new();
    for d in metric_definitions() {
        register(&registry, &d).unwrap();
    }
    let mut buffer = Vec::new();
    TextEncoder::new().encode(&registry.gather(), &mut buffer).unwrap();
    let metrics = String::from_utf8(buffer).unwrap();
    assert!(metrics.contains("ruvector"));
}

#[test]
fn every_definition_registers_in_one_registry() {
    let defs = metric_definitions();
    assert_eq!(defs.len(), 10);
    let registry = Registry::new();
    for d in &defs {
        assert!(register(&registry, d).is_ok(), "{} failed to register", d.name);
    }
}

#[test]
fn latency_buckets_are_the_documented_bounds() {
    let d = search_latency_seconds();
    let bounds: Vec<f64> = d.buckets.iter().map(|b| f64::from_bits(*b)).collect();
    assert_eq!(bounds, vec![0.0001, 0.0005, 0.001, 0.005, 0.01, 0.05, 0.1, 0.5, 1.0]);
    assert_eq!(d.labels, vec!["collection"]);
    assert_eq!(search_requests_total().labels, vec!["collection", "status"]);
    assert_eq!(search_requests_total().name, "ruvector_search_requests_total");
}
