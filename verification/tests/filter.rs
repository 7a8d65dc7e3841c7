use ruvector_toolkit::filter::{FilterExpression, GeoPoint};
use serde_json::Value;

fn text(s: &str) -> Value {
    Value::String(s.to_string())
}

#[test]
fn test_filter_builders() {
    let filter = FilterExpression::eq("status", text("active"));
    assert!(matches!(filter, FilterExpression::Eq { .. }));

    let filter = FilterExpression::and(vec![
        FilterExpression::eq("status", text("active")),
        FilterExpression::gte("age", Value::from(18)),
    ]);
    assert!(matches!(filter, FilterExpression::And { .. }));
}

#[test]
fn test_get_fields() {
    let filter = FilterExpression::and(vec![
        FilterExpression::eq("status", text("active")),
        FilterExpression::or(vec![
            FilterExpression::gte("age", Value::from(18)),
            FilterExpression::lt("score", Value::from(100)),
        ]),
    ]);

    let fields = filter.get_fields();
    assert_eq!(fields, vec!["age", "score", "status"]);
}

#[test]
fn get_fields_deduplicates_repeated_fields() {
    let filter = FilterExpression::or(vec![
        FilterExpression::gt("price", Value::from(1)),
        FilterExpression::lt("price", Value::from(9)),
        FilterExpression::not(FilterExpression::field_exists("price")),
        FilterExpression::is_null("brand"),
    ]);
    assert_eq!(filter.get_fields(), vec!["brand", "price"]);
}

#[test]
fn get_fields_orders_by_bytes() {
    // Upper case sorts before lower case, a prefix before its extensions,
    // and multi-byte characters after ASCII, as `String`'s order has it.
    let filter = FilterExpression::and(vec![
        FilterExpression::match_text("zeta", "x"),
        FilterExpression::field_exists("é"),
        FilterExpression::range("ab", None, Some(Value::from(3))),
        FilterExpression::in_values("a", vec![Value::from(1), Value::from(2)]),
        FilterExpression::ne("Zed", Value::Null),
    ]);
    let fields = filter.get_fields();
    let mut expected = vec!["zeta", "é", "ab", "a", "Zed"];
    expected.sort();
    assert_eq!(fields, expected);
    assert_eq!(fields, vec!["Zed", "a", "ab", "zeta", "é"]);
}

#[test]
fn get_fields_of_leaf_and_empty_combinators() {
    let geo = FilterExpression::geo_radius("loc", 1.5f64.to_bits(), (-2.0f64).to_bits(), 300.0f64.to_bits());
    assert_eq!(geo.get_fields(), vec!["loc"]);
    let bbox = FilterExpression::geo_bounding_box(
        "area",
        GeoPoint { lat: 1.0f64.to_bits(), lon: 2.0f64.to_bits() },
        GeoPoint { lat: 0.5f64.to_bits(), lon: 3.0f64.to_bits() },
    );
    assert_eq!(bbox.get_fields(), vec!["area"]);
    assert!(FilterExpression::and(vec![]).get_fields().is_empty());
    assert!(FilterExpression::or(vec![]).get_fields().is_empty());
}

#[test]
fn negation_references_the_same_fields() {
    let inner = FilterExpression::or(vec![
        FilterExpression::lte("b", Value::from(2)),
        FilterExpression::eq("a", Value::from(1)),
    ]);
    let negated = FilterExpression::not(inner.clone());
    assert_eq!(negated.get_fields(), inner.get_fields());
    assert_eq!(negated.get_fields(), vec!["a", "b"]);
}

#[test]
fn constructors_keep_their_arguments() {
    match FilterExpression::range("age", Some(Value::from(18)), None) {
        FilterExpression::Range { field, gte, lte } => {
            assert_eq!(field, "age");
            assert_eq!(gte, Some(Value::from(18)));
            assert_eq!(lte, None);
        }
        other => panic!("expected Range, got {other:?}"),
    }
    match FilterExpression::geo_radius("loc", 1.5f64.to_bits(), 2.5f64.to_bits(), 10.0f64.to_bits()) {
        FilterExpression::GeoRadius { field, lat, lon, radius_m } => {
            assert_eq!(field, "loc");
            assert_eq!(f64::from_bits(lat), 1.5);
            assert_eq!(f64::from_bits(lon), 2.5);
            assert_eq!(f64::from_bits(radius_m), 10.0);
        }
        other => panic!("expected GeoRadius, got {other:?}"),
    }
    match FilterExpression::match_text("title", "rust") {
        FilterExpression::Match { field, text } => {
            assert_eq!(field, "title");
            assert_eq!(text, "rust");
        }
        other => panic!("expected Match, got {other:?}"),
    }
}

#[test]
fn clone_is_a_deep_copy() {
    let original = FilterExpression::and(vec![
        FilterExpression::eq("status", text("active")),
        FilterExpression::not(FilterExpression::in_values("tag", vec![text("x")])),
    ]);
    let copy = original.clone();
    assert_eq!(format!("{copy:?}"), format!("{original:?}"));
}

#[test]
fn and_or_report_the_union_of_members() {
    let members = vec![
        FilterExpression::eq("b", Value::from(1)),
        FilterExpression::not(FilterExpression::is_null("a")),
        FilterExpression::lt("b", Value::from(3)),
        FilterExpression::field_exists("c"),
    ];
    let and = FilterExpression::and(members.clone()).get_fields();
    let or = FilterExpression::or(members.clone()).get_fields();
    assert_eq!(and, or);
    let mut union: Vec<String> = members.iter().flat_map(|m| m.get_fields()).collect();
    union.sort();
    union.dedup();
    assert_eq!(and, union);
}
