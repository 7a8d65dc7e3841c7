//! Filter expressions for querying vectors by payload.
//!
//! Geographic coordinates and radii are `f64` in the wire format; here
//! they are carried, untouched, as their IEEE-754 bit patterns
//! (`f64::to_bits`), since nothing in this module computes with them.
use vstd::prelude::*;
use serde_json::Value;
use crate::order::{strictly_sorted, string_lt, str_lt, lemma_str_lt_strict_total_order};

verus! {

/// A JSON payload value, carried through filter expressions unread.
#[verifier::external_type_specification]
#[verifier::external_body]
pub struct ExJsonValue(serde_json::Value);

/// `Clone` of a JSON value, derived in `serde_json`: the copy is the same
/// value as the original.
pub assume_specification[ <serde_json::Value as Clone>::clone ](v: &serde_json::Value) -> (r:
    serde_json::Value)
    ensures
        r == *v,
;

/// A `(lat, lon)` pair; each coordinate is an `f64` bit pattern.
#[derive(Debug, Clone, Copy, PartialEq, Eq, Structural)]
pub struct GeoPoint {
    pub lat: u64,
    pub lon: u64,
}

/// Filter expression for querying vectors by payload.
#[derive(Debug)]
pub enum FilterExpression {
    Eq { field: String, value: Value },
    Ne { field: String, value: Value },
    Gt { field: String, value: Value },
    Gte { field: String, value: Value },
    Lt { field: String, value: Value },
    Lte { field: String, value: Value },
    Range { field: String, gte: Option<Value>, lte: Option<Value> },
    In { field: String, values: Vec<Value> },
    Match { field: String, text: String },
    /// `lat`, `lon` and `radius_m` are `f64` bit patterns.
    GeoRadius { field: String, lat: u64, lon: u64, radius_m: u64 },
    GeoBoundingBox { field: String, top_left: GeoPoint, bottom_right: GeoPoint },
    And { filters: Vec<FilterExpression> },
    Or { filters: Vec<FilterExpression> },
    Not { filter: Box<FilterExpression> },
    Exists { field: String },
    IsNull { field: String },
}

/// The field names an expression references, in the order a left-to-right
/// walk of the expression meets them (repetitions kept).
pub open spec fn fields_of(e: FilterExpression) -> Seq<Seq<char>>
    decreases e,
{
    match e {
        FilterExpression::Eq { field, .. } => seq![field@],
        FilterExpression::Ne { field, .. } => seq![field@],
        FilterExpression::Gt { field, .. } => seq![field@],
        FilterExpression::Gte { field, .. } => seq![field@],
        FilterExpression::Lt { field, .. } => seq![field@],
        FilterExpression::Lte { field, .. } => seq![field@],
        FilterExpression::Range { field, .. } => seq![field@],
        FilterExpression::In { field, .. } => seq![field@],
        FilterExpression::Match { field, .. } => seq![field@],
        FilterExpression::GeoRadius { field, .. } => seq![field@],
        FilterExpression::GeoBoundingBox { field, .. } => seq![field@],
        FilterExpression::Exists { field } => seq![field@],
        FilterExpression::IsNull { field } => seq![field@],
        FilterExpression::And { filters } => fields_of_all(filters@),
        FilterExpression::Or { filters } => fields_of_all(filters@),
        FilterExpression::Not { filter } => fields_of(*filter),
    }
}

/// The field names of a list of expressions, one expression after another.
pub open spec fn fields_of_all(s: Seq<FilterExpression>) -> Seq<Seq<char>>
    decreases s,
{
    if s.len() == 0 {
        seq![]
    } else {
        fields_of_all(s.drop_last()) + fields_of(s.last())
    }
}

fn clone_values(v: &Vec<Value>) -> (r: Vec<Value>)
    ensures
        r@ == v@,
{
    let mut r: Vec<Value> = Vec::new();
    for i in 0..v.len()
        invariant
            r@ == v@.take(i as int),
    {
        r.push(v[i].clone());
        assert(r@ =~= v@.take(i + 1));
    }
    assert(v@.take(v.len() as int) =~= v@);
    r
}

fn clone_option_value(v: &Option<Value>) -> (r: Option<Value>)
    ensures
        r == *v,
{
    match v {
        Some(x) => Some(x.clone()),
        None => None,
    }
}

/// The contents of each string of a sequence.
pub open spec fn views(v: Seq<String>) -> Seq<Seq<char>> {
    v.map_values(|s: String| s@)
}

/// Every leaf filter references exactly its own field, once; a negation
/// references what the negated filter does. Together with
/// `law_combinator_fields`, a leaf's field is among the fields of every
/// expression that contains the leaf.
pub proof fn law_leaf_reports_its_field(e: FilterExpression)
    ensures
        e matches FilterExpression::Eq { field, .. } ==> fields_of(e) == seq![field@],
        e matches FilterExpression::Ne { field, .. } ==> fields_of(e) == seq![field@],
        e matches FilterExpression::Gt { field, .. } ==> fields_of(e) == seq![field@],
        e matches FilterExpression::Gte { field, .. } ==> fields_of(e) == seq![field@],
        e matches FilterExpression::Lt { field, .. } ==> fields_of(e) == seq![field@],
        e matches FilterExpression::Lte { field, .. } ==> fields_of(e) == seq![field@],
        e matches FilterExpression::Range { field, .. } ==> fields_of(e) == seq![field@],
        e matches FilterExpression::In { field, .. } ==> fields_of(e) == seq![field@],
        e matches FilterExpression::Match { field, .. } ==> fields_of(e) == seq![field@],
        e matches FilterExpression::GeoRadius { field, .. } ==> fields_of(e) == seq![field@],
        e matches FilterExpression::GeoBoundingBox { field, .. } ==> fields_of(e) == seq![field@],
        e matches FilterExpression::Exists { field } ==> fields_of(e) == seq![field@],
        e matches FilterExpression::IsNull { field } ==> fields_of(e) == seq![field@],
        e matches FilterExpression::Not { filter } ==> fields_of(e) == fields_of(*filter),
{
}

/// The same expression is the same variant with equal fields: equal leaves
/// (for `In`, the same field and the same values), and for `And`, `Or` and
/// `Not` the same members, member by member.
pub proof fn law_same_expression_is_equality(a: FilterExpression, b: FilterExpression)
    requires
        same_expression(a, b),
    ensures
        !(a is And || a is Or || a is Not || a is In) ==> a == b,
        a matches FilterExpression::In { field, values } ==> (b matches FilterExpression::In {
            field: f2,
            values: v2,
        } && f2 == field && v2@ == values@),
        a matches FilterExpression::Not { filter } ==> (b matches FilterExpression::Not {
            filter: g,
        } && same_expression(*filter, *g)),
        a matches FilterExpression::And { filters } ==> (b matches FilterExpression::And {
            filters: g,
        } && g@.len() == filters@.len() && forall|i: int|
            0 <= i < filters@.len() ==> same_expression(#[trigger] filters@[i], g@[i])),
        a matches FilterExpression::Or { filters } ==> (b matches FilterExpression::Or {
            filters: g,
        } && g@.len() == filters@.len() && forall|i: int|
            0 <= i < filters@.len() ==> same_expression(#[trigger] filters@[i], g@[i])),
{
    match a {
        FilterExpression::And { filters } => {
            lemma_same_expressions_pointwise(filters@, b->And_filters@);
        },
        FilterExpression::Or { filters } => {
            lemma_same_expressions_pointwise(filters@, b->Or_filters@);
        },
        _ => {},
    }
}

proof fn lemma_same_expressions_pointwise(a: Seq<FilterExpression>, b: Seq<FilterExpression>)
    requires
        same_expressions(a, b),
    ensures
        b.len() == a.len(),
        forall|i: int| 0 <= i < a.len() ==> same_expression(#[trigger] a[i], b[i]),
    decreases a.len(),
{
    if a.len() > 0 {
        lemma_same_expressions_pointwise(a.drop_last(), b.drop_last());
        assert forall|i: int| 0 <= i < a.len() implies same_expression(#[trigger] a[i], b[i]) by {
            if i < a.len() - 1 {
                assert(a.drop_last()[i] == a[i]);
                assert(b.drop_last()[i] == b[i]);
            }
        }
    }
}

/// The same expression references the same fields, in the same order: in
/// particular a clone reports the fields of its original.
pub proof fn law_same_expression_same_fields(a: FilterExpression, b: FilterExpression)
    requires
        same_expression(a, b),
    ensures
        fields_of(a) == fields_of(b),
    decreases a,
{
    match a {
        FilterExpression::And { filters } => {
            lemma_same_expressions_same_fields(filters@, b->And_filters@);
        },
        FilterExpression::Or { filters } => {
            lemma_same_expressions_same_fields(filters@, b->Or_filters@);
        },
        FilterExpression::Not { filter } => {
            law_same_expression_same_fields(*filter, *b->Not_filter);
        },
        _ => {},
    }
}

proof fn lemma_same_expressions_same_fields(a: Seq<FilterExpression>, b: Seq<FilterExpression>)
    requires
        same_expressions(a, b),
    ensures
        fields_of_all(a) == fields_of_all(b),
    decreases a,
{
    if a.len() > 0 {
        lemma_same_expressions_same_fields(a.drop_last(), b.drop_last());
        law_same_expression_same_fields(a.last(), b.last());
    }
}

/// The fields of a list of expressions are those of its members: a name
/// is there exactly when some member references it.
pub proof fn lemma_fields_of_all_members(s: Seq<FilterExpression>)
    ensures
        forall|x: Seq<char>|
            fields_of_all(s).contains(x) <==> exists|i: int|
                0 <= i < s.len() && #[trigger] fields_of(s[i]).contains(x),
    decreases s.len(),
{
    if s.len() > 0 {
        let init = s.drop_last();
        lemma_fields_of_all_members(init);
        let a = fields_of_all(init);
        let b = fields_of(s.last());
        assert forall|x: Seq<char>|
            fields_of_all(s).contains(x) <==> exists|i: int|
                0 <= i < s.len() && #[trigger] fields_of(s[i]).contains(x) by {
            if (a + b).contains(x) {
                let k = choose|k: int| 0 <= k < (a + b).len() && (a + b)[k] == x;
                if k < a.len() {
                    assert(a.contains(x));
                    let i = choose|i: int| 0 <= i < init.len() && #[trigger] fields_of(init[i]).contains(x);
                    assert(s[i] == init[i]);
                } else {
                    assert(b[k - a.len()] == x);
                    assert(b.contains(x));
                    assert(fields_of(s[s.len() - 1]).contains(x));
                }
            }
            if exists|i: int| 0 <= i < s.len() && #[trigger] fields_of(s[i]).contains(x) {
                let i = choose|i: int| 0 <= i < s.len() && #[trigger] fields_of(s[i]).contains(x);
                if i < s.len() - 1 {
                    assert(init[i] == s[i]);
                    assert(a.contains(x));
                    let k = choose|k: int| 0 <= k < a.len() && a[k] == x;
                    assert((a + b)[k] == x);
                } else {
                    assert(b.contains(x));
                    let k = choose|k: int| 0 <= k < b.len() && b[k] == x;
                    assert((a + b)[a.len() + k] == x);
                }
            }
        }
    }
}

/// `And` and `Or` over the same members reference the same fields, and a
/// name is among them exactly when some member references it; over no
/// members they reference none.
pub proof fn law_combinator_fields(filters: Vec<FilterExpression>)
    ensures
        fields_of(FilterExpression::And { filters }) == fields_of(
            FilterExpression::Or { filters },
        ),
        forall|x: Seq<char>|
            fields_of(FilterExpression::And { filters }).contains(x) <==> exists|i: int|
                0 <= i < filters@.len() && #[trigger] fields_of(filters@[i]).contains(x),
        filters@.len() == 0 ==> fields_of(FilterExpression::And { filters }).len() == 0,
{
    lemma_fields_of_all_members(filters@);
    assert(fields_of(FilterExpression::And { filters }) == fields_of_all(filters@));
    assert(fields_of(FilterExpression::Or { filters }) == fields_of_all(filters@));
}

/// Inserts `f` into a strictly sorted vector unless it is already there.
fn insert_sorted(out: &mut Vec<String>, f: String)
    requires
        strictly_sorted(views(old(out)@)),
    ensures
        strictly_sorted(views(final(out)@)),
        forall|s: Seq<char>|
            views(final(out)@).contains(s) <==> (views(old(out)@).contains(s) || s == f@),
{
    let ghost old_v = views(out@);
    let mut i: usize = 0;
    while i < out.len() && string_lt(&out[i], &f)
        invariant
            i <= out@.len(),
            out@ == old(out)@,
            views(out@) == old_v,
            strictly_sorted(old_v),
            forall|j: int| 0 <= j < i ==> str_lt(#[trigger] old_v[j], f@),
        decreases out@.len() - i,
    {
        i += 1;
    }
    if i < out.len() && out[i] == f {
        assert(old_v[i as int] == f@);
        assert(forall|s: Seq<char>| s == f@ ==> old_v.contains(s));
        return;
    }
    proof {
        if i < out@.len() {
            assert(!str_lt(old_v[i as int], f@));
            assert(old_v[i as int] != f@);
            lemma_str_lt_strict_total_order(old_v[i as int], f@, f@);
            assert(str_lt(f@, old_v[i as int]));
        }
    }
    out.insert(i, f);
    proof {
        let nv = views(out@);
        assert(nv =~= old_v.insert(i as int, f@));
        assert forall|j: int, k: int| 0 <= j < k < nv.len() implies str_lt(
            #[trigger] nv[j],
            #[trigger] nv[k],
        ) by {
            if k < i {
                assert(nv[j] == old_v[j] && nv[k] == old_v[k]);
            } else if k == i {
                assert(nv[j] == old_v[j]);
            } else if j == i {
                assert(nv[k] == old_v[k - 1]);
                if k - 1 > i {
                    assert(str_lt(old_v[i as int], old_v[k - 1]));
                    lemma_str_lt_strict_total_order(f@, old_v[i as int], old_v[k - 1]);
                }
            } else if j < i {
                assert(nv[j] == old_v[j] && nv[k] == old_v[k - 1]);
                if j < k - 1 {
                } else {
                    assert(false);
                }
            } else {
                assert(nv[j] == old_v[j - 1] && nv[k] == old_v[k - 1]);
            }
        }
        assert forall|s: Seq<char>|
            nv.contains(s) <==> (old_v.contains(s) || s == f@) by {
            if nv.contains(s) {
                let k = choose|k: int| 0 <= k < nv.len() && nv[k] == s;
                if k < i {
                    assert(old_v[k] == s);
                } else if k > i {
                    assert(old_v[k - 1] == s);
                }
            }
            if old_v.contains(s) {
                let k = choose|k: int| 0 <= k < old_v.len() && old_v[k] == s;
                if k < i {
                    assert(nv[k] == s);
                } else {
                    assert(nv[k + 1] == s);
                }
            }
            if s == f@ {
                assert(nv[i as int] == s);
            }
        }
    }
}

/// The distinct strings of `v`, in increasing order.
fn sorted_distinct(v: &Vec<String>) -> (r: Vec<String>)
    ensures
        strictly_sorted(views(r@)),
        forall|s: Seq<char>| views(r@).contains(s) <==> views(v@).contains(s),
{
    let mut out: Vec<String> = Vec::new();
    for i in 0..v.len()
        invariant
            strictly_sorted(views(out@)),
            forall|s: Seq<char>|
                views(out@).contains(s) <==> views(v@.take(i as int)).contains(s),
    {
        insert_sorted(&mut out, v[i].clone());
        proof {
            let before = views(v@.take(i as int));
            let after = views(v@.take(i + 1));
            assert(after =~= before.push(v@[i as int]@));
            assert forall|s: Seq<char>| after.contains(s) <==> (before.contains(s) || s
                == v@[i as int]@) by {
                if after.contains(s) {
                    let k = choose|k: int| 0 <= k < after.len() && after[k] == s;
                    if k < before.len() {
                        assert(before[k] == s);
                    }
                }
                if before.contains(s) {
                    let k = choose|k: int| 0 <= k < before.len() && before[k] == s;
                    assert(after[k] == s);
                }
                if s == v@[i as int]@ {
                    assert(after[i as int] == s);
                }
            }
        }
    }
    assert(v@.take(v.len() as int) =~= v@);
    out
}

/// `a` and `b` are the same expression: the same variants with equal
/// fields all the way down (vectors compared by their contents).
pub open spec fn same_expression(a: FilterExpression, b: FilterExpression) -> bool
    decreases a,
{
    match a {
        FilterExpression::And { filters } => b is And && same_expressions(
            filters@,
            b->And_filters@,
        ),
        FilterExpression::Or { filters } => b is Or && same_expressions(
            filters@,
            b->Or_filters@,
        ),
        FilterExpression::Not { filter } => b is Not && same_expression(*filter, *b->Not_filter),
        FilterExpression::In { field, values } => b is In && b->In_field == field
            && b->In_values@ == values@,
        _ => a == b,
    }
}

/// Two lists of expressions are the same, element by element.
pub open spec fn same_expressions(a: Seq<FilterExpression>, b: Seq<FilterExpression>) -> bool
    decreases a,
{
    if a.len() == 0 {
        b.len() == 0
    } else {
        b.len() == a.len() && same_expressions(a.drop_last(), b.drop_last()) && same_expression(
            a.last(),
            b.last(),
        )
    }
}

/// A deep copy of an expression.
fn clone_expression(e: &FilterExpression) -> (r: FilterExpression)
    ensures
        same_expression(r, *e),
    decreases e,
{
    match e {
        FilterExpression::Eq { field, value } => {
            let f = field.clone();
            let v = value.clone();
            assert(f == *field);
            FilterExpression::Eq { field: f, value: v }
        },
        FilterExpression::Ne { field, value } => FilterExpression::Ne {
            field: field.clone(),
            value: value.clone(),
        },
        FilterExpression::Gt { field, value } => FilterExpression::Gt {
            field: field.clone(),
            value: value.clone(),
        },
        FilterExpression::Gte { field, value } => FilterExpression::Gte {
            field: field.clone(),
            value: value.clone(),
        },
        FilterExpression::Lt { field, value } => FilterExpression::Lt {
            field: field.clone(),
            value: value.clone(),
        },
        FilterExpression::Lte { field, value } => FilterExpression::Lte {
            field: field.clone(),
            value: value.clone(),
        },
        FilterExpression::Range { field, gte, lte } => FilterExpression::Range {
            field: field.clone(),
            gte: clone_option_value(gte),
            lte: clone_option_value(lte),
        },
        FilterExpression::In { field, values } => FilterExpression::In {
            field: field.clone(),
            values: clone_values(values),
        },
        FilterExpression::Match { field, text } => FilterExpression::Match {
            field: field.clone(),
            text: text.clone(),
        },
        FilterExpression::GeoRadius { field, lat, lon, radius_m } => FilterExpression::GeoRadius {
            field: field.clone(),
            lat: *lat,
            lon: *lon,
            radius_m: *radius_m,
        },
        FilterExpression::GeoBoundingBox { field, top_left, bottom_right } =>
            FilterExpression::GeoBoundingBox {
            field: field.clone(),
            top_left: *top_left,
            bottom_right: *bottom_right,
        },
        FilterExpression::And { filters } => FilterExpression::And {
            filters: clone_expressions(filters),
        },
        FilterExpression::Or { filters } => FilterExpression::Or {
            filters: clone_expressions(filters),
        },
        FilterExpression::Not { filter } => FilterExpression::Not {
            filter: Box::new(clone_expression(filter)),
        },
        FilterExpression::Exists { field } => FilterExpression::Exists { field: field.clone() },
        FilterExpression::IsNull { field } => FilterExpression::IsNull { field: field.clone() },
    }
}

fn clone_expressions(v: &Vec<FilterExpression>) -> (r: Vec<FilterExpression>)
    ensures
        same_expressions(r@, v@),
    decreases v,
{
    let mut r: Vec<FilterExpression> = Vec::new();
    for i in 0..v.len()
        invariant
            same_expressions(r@, v@.take(i as int)),
    {
        assert(decreases_to!(v => v@[i as int]));
        let c = clone_expression(&v[i]);
        let ghost before = r@;
        r.push(c);
        assert(r@.drop_last() =~= before);
        assert(v@.take(i + 1).drop_last() =~= v@.take(i as int));
    }
    assert(v@.take(v.len() as int) =~= v@);
    r
}

impl FilterExpression {
    /// Creates an equality filter.
    pub fn eq(field: &str, value: Value) -> (e: Self)
        ensures
            e matches FilterExpression::Eq { field: f, value: v } && f@ == field@ && v == value,
    {
        FilterExpression::Eq { field: field.to_owned(), value }
    }

    /// Creates a not-equal filter.
    pub fn ne(field: &str, value: Value) -> (e: Self)
        ensures
            e matches FilterExpression::Ne { field: f, value: v } && f@ == field@ && v == value,
    {
        FilterExpression::Ne { field: field.to_owned(), value }
    }

    /// Creates a greater-than filter.
    pub fn gt(field: &str, value: Value) -> (e: Self)
        ensures
            e matches FilterExpression::Gt { field: f, value: v } && f@ == field@ && v == value,
    {
        FilterExpression::Gt { field: field.to_owned(), value }
    }

    /// Creates a greater-than-or-equal filter.
    pub fn gte(field: &str, value: Value) -> (e: Self)
        ensures
            e matches FilterExpression::Gte { field: f, value: v } && f@ == field@ && v == value,
    {
        FilterExpression::Gte { field: field.to_owned(), value }
    }

    /// Creates a less-than filter.
    pub fn lt(field: &str, value: Value) -> (e: Self)
        ensures
            e matches FilterExpression::Lt { field: f, value: v } && f@ == field@ && v == value,
    {
        FilterExpression::Lt { field: field.to_owned(), value }
    }

    /// Creates a less-than-or-equal filter.
    pub fn lte(field: &str, value: Value) -> (e: Self)
        ensures
            e matches FilterExpression::Lte { field: f, value: v } && f@ == field@ && v == value,
    {
        FilterExpression::Lte { field: field.to_owned(), value }
    }

    /// Creates a range filter; either bound may be absent.
    pub fn range(field: &str, gte: Option<Value>, lte: Option<Value>) -> (e: Self)
        ensures
            e matches FilterExpression::Range { field: f, gte: lo, lte: hi } && f@ == field@
                && lo == gte && hi == lte,
    {
        FilterExpression::Range { field: field.to_owned(), gte, lte }
    }

    /// Creates an IN filter.
    pub fn in_values(field: &str, values: Vec<Value>) -> (e: Self)
        ensures
            e matches FilterExpression::In { field: f, values: vs } && f@ == field@ && vs
                == values,
    {
        FilterExpression::In { field: field.to_owned(), values }
    }

    /// Creates a text match filter.
    pub fn match_text(field: &str, text: &str) -> (e: Self)
        ensures
            e matches FilterExpression::Match { field: f, text: t } && f@ == field@ && t@
                == text@,
    {
        FilterExpression::Match { field: field.to_owned(), text: text.to_owned() }
    }

    /// Creates a geo radius filter (coordinates and radius as `f64` bits).
    pub fn geo_radius(field: &str, lat: u64, lon: u64, radius_m: u64) -> (e: Self)
        ensures
            e matches FilterExpression::GeoRadius { field: f, lat: a, lon: o, radius_m: r }
                && f@ == field@ && a == lat && o == lon && r == radius_m,
    {
        FilterExpression::GeoRadius { field: field.to_owned(), lat, lon, radius_m }
    }

    /// Creates a geo bounding box filter.
    pub fn geo_bounding_box(field: &str, top_left: GeoPoint, bottom_right: GeoPoint) -> (e: Self)
        ensures
            e matches FilterExpression::GeoBoundingBox { field: f, top_left: tl, bottom_right: br }
                && f@ == field@ && tl == top_left && br == bottom_right,
    {
        FilterExpression::GeoBoundingBox { field: field.to_owned(), top_left, bottom_right }
    }

    /// Creates an AND filter.
    pub fn and(filters: Vec<FilterExpression>) -> (e: Self)
        ensures
            e == (FilterExpression::And { filters }),
    {
        FilterExpression::And { filters }
    }

    /// Creates an OR filter.
    pub fn or(filters: Vec<FilterExpression>) -> (e: Self)
        ensures
            e == (FilterExpression::Or { filters }),
    {
        FilterExpression::Or { filters }
    }

    /// Creates a NOT filter.
    pub fn not(filter: FilterExpression) -> (e: Self)
        ensures
            e == (FilterExpression::Not { filter: Box::new(filter) }),
    {
        FilterExpression::Not { filter: Box::new(filter) }
    }

    /// Creates an EXISTS filter.
    pub fn field_exists(field: &str) -> (e: Self)
        ensures
            e matches FilterExpression::Exists { field: f } && f@ == field@,
    {
        FilterExpression::Exists { field: field.to_owned() }
    }

    /// Creates an IS NULL filter.
    pub fn is_null(field: &str) -> (e: Self)
        ensures
            e matches FilterExpression::IsNull { field: f } && f@ == field@,
    {
        FilterExpression::IsNull { field: field.to_owned() }
    }

    /// Appends the field names this expression references to `fields`, in
    /// the order a left-to-right walk meets them.
    fn collect_fields(&self, fields: &mut Vec<String>)
        ensures
            views(final(fields)@) == views(old(fields)@) + fields_of(*self),
        decreases self,
    {
        let ghost start = views(fields@);
        match self {
            FilterExpression::Eq { field, .. }
            | FilterExpression::Ne { field, .. }
            | FilterExpression::Gt { field, .. }
            | FilterExpression::Gte { field, .. }
            | FilterExpression::Lt { field, .. }
            | FilterExpression::Lte { field, .. }
            | FilterExpression::Range { field, .. }
            | FilterExpression::In { field, .. }
            | FilterExpression::Match { field, .. }
            | FilterExpression::GeoRadius { field, .. }
            | FilterExpression::GeoBoundingBox { field, .. }
            | FilterExpression::Exists { field }
            | FilterExpression::IsNull { field } => {
                fields.push(field.clone());
                assert(views(fields@) =~= start + seq![field@]);
            },
            FilterExpression::And { filters } | FilterExpression::Or { filters } => {
                proof {
                    assert(decreases_to!(self => *filters));
                    assert(decreases_to!(*filters => filters@));
                }
                for i in 0..filters.len()
                    invariant
                        views(fields@) == start + fields_of_all(filters@.take(i as int)),
                        decreases_to!(self => filters@),
                {
                    assert(decreases_to!(filters@ => filters@[i as int]));
                    filters[i].collect_fields(fields);
                    assert(filters@.take(i + 1).drop_last() =~= filters@.take(i as int));
                }
                assert(filters@.take(filters.len() as int) =~= filters@);
            },
            FilterExpression::Not { filter } => {
                filter.collect_fields(fields);
            },
        }
    }

    /// All field names referenced in this expression, each once, in
    /// increasing (`String`) order.
    pub fn get_fields(&self) -> (names: Vec<String>)
        ensures
            strictly_sorted(views(names@)),
            forall|s: Seq<char>| views(names@).contains(s) <==> fields_of(*self).contains(s),
    {
        let mut fields: Vec<String> = Vec::new();
        self.collect_fields(&mut fields);
        assert(views(fields@) =~= fields_of(*self));
        sorted_distinct(&fields)
    }
}

impl Clone for FilterExpression {
    fn clone(&self) -> (r: Self)
        ensures
            same_expression(r, *self),
    {
        clone_expression(self)
    }
}

} // verus!
