//! Parameterised SQL statements built by the library and executed by the
//! storage layer.

use vstd::prelude::*;

verus! {

/// A value bound to a `?` placeholder.
#[derive(Debug, Clone)]
pub enum SqlValue {
    Integer(i64),
    Text(String),
    Null,
}

/// The mathematical content of a bound value.
pub enum SqlValueView {
    Integer(i64),
    Text(Seq<char>),
    Null,
}

impl View for SqlValue {
    type V = SqlValueView;

    open spec fn view(&self) -> SqlValueView {
        match self {
            SqlValue::Integer(i) => SqlValueView::Integer(*i),
            SqlValue::Text(s) => SqlValueView::Text(s@),
            SqlValue::Null => SqlValueView::Null,
        }
    }
}

/// A statement text with the values of its placeholders, in order.
#[derive(Debug, Clone)]
pub struct SqlStatement {
    pub sql: String,
    pub params: Vec<SqlValue>,
}

/// A one-element sequence holding `x` when `present`, else the empty one.
pub open spec fn opt_item<T>(present: bool, x: T) -> Seq<T> {
    if present {
        seq![x]
    } else {
        Seq::empty()
    }
}

/// The views of a sequence of bound values.
pub open spec fn params_view(p: Seq<SqlValue>) -> Seq<SqlValueView> {
    p.map_values(|v: SqlValue| v@)
}

/// `parts` joined with `sep` between consecutive parts.
pub open spec fn join_seq(parts: Seq<Seq<char>>, sep: Seq<char>) -> Seq<char>
    decreases parts.len(),
{
    if parts.len() == 0 {
        Seq::empty()
    } else if parts.len() == 1 {
        parts[0]
    } else {
        join_seq(parts.drop_last(), sep) + sep + parts.last()
    }
}

/// Joins string slices with a separator.
pub fn join_strs(parts: &Vec<&str>, sep: &str) -> (r: String)
    ensures
        r@ == join_seq(parts@.map_values(|p: &str| p@), sep@),
{
    let ghost views = parts@.map_values(|p: &str| p@);
    let mut r = String::new();
    let mut i: usize = 0;
    assert(views.take(0) =~= Seq::<Seq<char>>::empty());
    while i < parts.len()
        invariant
            i <= parts@.len(),
            views == parts@.map_values(|p: &str| p@),
            r@ == join_seq(views.take(i as int), sep@),
        decreases parts.len() - i,
    {
        assert(views.take(i + 1).drop_last() =~= views.take(i as int));
        if i > 0 {
            r.append(sep);
        } else {
            assert(views.take(1) =~= seq![views[0]]);
        }
        r.append(parts[i]);
        i += 1;
    }
    assert(views.take(parts@.len() as int) =~= views);
    r
}

/// Joins strings with a separator.
pub fn join_strings(parts: &Vec<String>, sep: &str) -> (r: String)
    ensures
        r@ == join_seq(parts@.map_values(|p: String| p@), sep@),
{
    let ghost views = parts@.map_values(|p: String| p@);
    let mut r = String::new();
    let mut i: usize = 0;
    assert(views.take(0) =~= Seq::<Seq<char>>::empty());
    while i < parts.len()
        invariant
            i <= parts@.len(),
            views == parts@.map_values(|p: String| p@),
            r@ == join_seq(views.take(i as int), sep@),
        decreases parts.len() - i,
    {
        assert(views.take(i + 1).drop_last() =~= views.take(i as int));
        if i > 0 {
            r.append(sep);
        } else {
            assert(views.take(1) =~= seq![views[0]]);
        }
        r.append(parts[i].as_str());
        i += 1;
    }
    assert(views.take(parts@.len() as int) =~= views);
    r
}


/// The value bound for an optional id: the id, or NULL.
pub open spec fn optional_id_value(id: Option<i64>) -> SqlValueView {
    match id {
        Some(i) => SqlValueView::Integer(i),
        None => SqlValueView::Null,
    }
}

/// The value bound for an optional text: the text, or NULL.
pub open spec fn optional_text_value(t: Option<&str>) -> SqlValueView {
    match t {
        Some(s) => SqlValueView::Text(s@),
        None => SqlValueView::Null,
    }
}

/// The value bound for an optional text.
pub fn opt_text_value(t: Option<&str>) -> (r: SqlValue)
    ensures
        r@ == optional_text_value(t),
{
    match t {
        Some(s) => SqlValue::Text(String::from_str(s)),
        None => SqlValue::Null,
    }
}

/// Pairing assignments with values survives concatenation: where each part
/// binds, position by position, the value `f` names for its assignment, so
/// does the whole.
pub proof fn lemma_paired_concat(a: Seq<Seq<char>>, av: Seq<SqlValueView>, b: Seq<Seq<char>>, bv: Seq<SqlValueView>, f: spec_fn(Seq<char>) -> Option<SqlValueView>)
    requires
        a.len() == av.len(),
        b.len() == bv.len(),
        forall|i: int| 0 <= i < a.len() ==> f(#[trigger] a[i]) == Some(av[i]),
        forall|i: int| 0 <= i < b.len() ==> f(#[trigger] b[i]) == Some(bv[i]),
    ensures
        (a + b).len() == (av + bv).len(),
        forall|i: int| 0 <= i < (a + b).len() ==> f(#[trigger] (a + b)[i]) == Some((av + bv)[i]),
{
    assert forall|i: int| 0 <= i < (a + b).len() implies f(#[trigger] (a + b)[i]) == Some((av + bv)[i]) by {
        if i < a.len() {
            assert((a + b)[i] == a[i]);
            assert((av + bv)[i] == av[i]);
        } else {
            assert((a + b)[i] == b[i - a.len()]);
            assert((av + bv)[i] == bv[i - a.len()]);
        }
    }
}

} // verus!
