//! The value model: every scalar or composite value that can be bound into a
//! statement, together with its mathematical view.

use vstd::prelude::*;

use crate::statement::{PartView, Statement};

verus! {

/// A calendar date (year, month, day), as plain fields.
#[derive(Clone, Copy, Debug)]
pub struct Date {
    pub year: i32,
    pub month: u32,
    pub day: u32,
}

/// A calendar date with a time of day, as plain fields.
#[derive(Clone, Copy, Debug)]
pub struct DateTime {
    pub year: i32,
    pub month: u32,
    pub day: u32,
    pub hour: u32,
    pub minute: u32,
    pub second: u32,
}

/// A date-or-datetime value, mirroring the two calendar types a statement can bind.
#[derive(Clone, Copy, Debug)]
pub enum NaiveChrono {
    NaiveDate(Date),
    NaiveDateTime(DateTime),
}

/// A structured value: null, boolean, integer, text, array or object.
#[derive(Debug)]
pub enum JsonValue {
    Null,
    Bool(bool),
    Number(i64),
    Text(String),
    Array(Vec<JsonValue>),
    Object(Vec<(String, JsonValue)>),
}

/// Any bindable value: a structured value or a calendar value.
#[derive(Debug)]
pub enum SqlValue {
    GenericValue(JsonValue),
    NaiveChrono(NaiveChrono),
}

/// Mathematical view of a `JsonValue`.
pub enum JsonView {
    Null,
    Bool(bool),
    Number(int),
    Text(Seq<char>),
    Array(Seq<JsonView>),
    Object(Seq<(Seq<char>, JsonView)>),
}

/// Mathematical view of a `SqlValue`.
pub enum SqlView {
    Generic(JsonView),
    Date { year: int, month: int, day: int },
    DateTime { year: int, month: int, day: int, hour: int, minute: int, second: int },
}

pub open spec fn json_view(v: JsonValue) -> JsonView
    decreases v,
{
    match v {
        JsonValue::Null => JsonView::Null,
        JsonValue::Bool(b) => JsonView::Bool(b),
        JsonValue::Number(n) => JsonView::Number(n as int),
        JsonValue::Text(s) => JsonView::Text(s@),
        JsonValue::Array(items) => JsonView::Array(json_view_seq(items@)),
        JsonValue::Object(pairs) => JsonView::Object(json_view_pairs(pairs@)),
    }
}

pub open spec fn json_view_seq(items: Seq<JsonValue>) -> Seq<JsonView>
    decreases items,
{
    if items.len() == 0 {
        Seq::empty()
    } else {
        json_view_seq(items.drop_last()).push(json_view(items.last()))
    }
}

pub open spec fn json_view_pairs(pairs: Seq<(String, JsonValue)>) -> Seq<(Seq<char>, JsonView)>
    decreases pairs,
{
    if pairs.len() == 0 {
        Seq::empty()
    } else {
        json_view_pairs(pairs.drop_last()).push(
            (pairs.last().0@, json_view(pairs.last().1)),
        )
    }
}

pub open spec fn chrono_view(c: NaiveChrono) -> SqlView {
    match c {
        NaiveChrono::NaiveDate(d) => SqlView::Date {
            year: d.year as int,
            month: d.month as int,
            day: d.day as int,
        },
        NaiveChrono::NaiveDateTime(dt) => SqlView::DateTime {
            year: dt.year as int,
            month: dt.month as int,
            day: dt.day as int,
            hour: dt.hour as int,
            minute: dt.minute as int,
            second: dt.second as int,
        },
    }
}

pub open spec fn sql_view(v: SqlValue) -> SqlView {
    match v {
        SqlValue::GenericValue(j) => SqlView::Generic(json_view(j)),
        SqlValue::NaiveChrono(c) => chrono_view(c),
    }
}

impl View for JsonValue {
    type V = JsonView;

    open spec fn view(&self) -> JsonView {
        json_view(*self)
    }
}

impl View for SqlValue {
    type V = SqlView;

    open spec fn view(&self) -> SqlView {
        sql_view(*self)
    }
}

/// `json_view_seq` maps `json_view` over the sequence, element by element.
pub proof fn lemma_json_view_seq(items: Seq<JsonValue>)
    ensures
        json_view_seq(items).len() == items.len(),
        forall|i: int| 0 <= i < items.len() ==> json_view_seq(items)[i] == json_view(items[i]),
    decreases items.len(),
{
    if items.len() > 0 {
        lemma_json_view_seq(items.drop_last());
    }
}

/// `json_view_pairs` maps the pair view over the sequence, element by element.
pub proof fn lemma_json_view_pairs(pairs: Seq<(String, JsonValue)>)
    ensures
        json_view_pairs(pairs).len() == pairs.len(),
        forall|i: int| 0 <= i < pairs.len() ==> json_view_pairs(pairs)[i] == (
            pairs[i].0@,
            json_view(pairs[i].1),
        ),
    decreases pairs.len(),
{
    if pairs.len() > 0 {
        lemma_json_view_pairs(pairs.drop_last());
    }
}

fn clone_json_vec(items: &Vec<JsonValue>) -> (res: Vec<JsonValue>)
    ensures
        res@.len() == items@.len(),
        forall|j: int| 0 <= j < items@.len() ==> res@[j]@ == items@[j]@,
    decreases items@,
{
    let mut out: Vec<JsonValue> = Vec::new();
    let mut i: usize = 0;
    while i < items.len()
        invariant
            i <= items@.len(),
            out@.len() == i as int,
            forall|j: int| 0 <= j < i as int ==> out@[j]@ == items@[j]@,
        decreases items@.len() - i,
    {
        proof {
            broadcast use vstd::std_specs::vec::group_vec_axioms;

            assert(decreases_to!(items@ => items@[i as int]));
        }
        out.push(items[i].clone());
        i += 1;
    }
    out
}

fn clone_json_pairs(pairs: &Vec<(String, JsonValue)>) -> (res: Vec<(String, JsonValue)>)
    ensures
        res@.len() == pairs@.len(),
        forall|j: int| 0 <= j < pairs@.len() ==> res@[j].0@ == pairs@[j].0@ && res@[j].1@
            == pairs@[j].1@,
    decreases pairs@,
{
    let mut out: Vec<(String, JsonValue)> = Vec::new();
    let mut i: usize = 0;
    while i < pairs.len()
        invariant
            i <= pairs@.len(),
            out@.len() == i as int,
            forall|j: int| 0 <= j < i as int ==> out@[j].0@ == pairs@[j].0@ && out@[j].1@
                == pairs@[j].1@,
        decreases pairs@.len() - i,
    {
        proof {
            broadcast use vstd::std_specs::vec::group_vec_axioms;

            assert(decreases_to!(pairs@ => pairs@[i as int]));
            assert(decreases_to!(pairs@[i as int] => pairs@[i as int].1));
        }
        let pair = &pairs[i];
        out.push((pair.0.clone(), pair.1.clone()));
        i += 1;
    }
    out
}

impl Clone for JsonValue {
    fn clone(&self) -> (res: Self)
        ensures
            res@ == self@,
        decreases *self,
    {
        match self {
            JsonValue::Null => JsonValue::Null,
            JsonValue::Bool(b) => JsonValue::Bool(*b),
            JsonValue::Number(n) => JsonValue::Number(*n),
            JsonValue::Text(s) => JsonValue::Text(s.clone()),
            JsonValue::Array(items) => {
                proof {
                    broadcast use vstd::std_specs::vec::group_vec_axioms;

                    assert(decreases_to!(*self => *items));
                    assert(decreases_to!(*items => items@));
                }
                let out = clone_json_vec(items);
                proof {
                    lemma_json_view_seq(out@);
                    lemma_json_view_seq(items@);
                    assert(json_view_seq(out@) =~= json_view_seq(items@));
                }
                JsonValue::Array(out)
            },
            JsonValue::Object(pairs) => {
                proof {
                    broadcast use vstd::std_specs::vec::group_vec_axioms;

                    assert(decreases_to!(*self => *pairs));
                    assert(decreases_to!(*pairs => pairs@));
                }
                let out = clone_json_pairs(pairs);
                proof {
                    lemma_json_view_pairs(out@);
                    lemma_json_view_pairs(pairs@);
                    assert(json_view_pairs(out@) =~= json_view_pairs(pairs@));
                }
                JsonValue::Object(out)
            },
        }
    }
}

impl Clone for SqlValue {
    fn clone(&self) -> (res: Self)
        ensures
            res@ == self@,
    {
        match self {
            SqlValue::GenericValue(j) => SqlValue::GenericValue(j.clone()),
            SqlValue::NaiveChrono(c) => SqlValue::NaiveChrono(*c),
        }
    }
}

/// The base a builder starts from: raw prefix text, or a statement already in progress.
#[derive(Debug)]
pub enum BaseQuery {
    Sql(String),
    Statement(Statement),
}

/// The fragments that binding one structured value appends: a null binds
/// nothing at all; every other value binds exactly one placeholder.
pub open spec fn bind_json_parts(v: JsonView) -> Seq<PartView> {
    match v {
        JsonView::Null => Seq::empty(),
        _ => seq![PartView::Bind(SqlView::Generic(v))],
    }
}

/// The fragments that binding one value appends: generic values follow
/// `bind_json_parts`; calendar values bind exactly one placeholder.
pub open spec fn bind_sql_parts(v: SqlView) -> Seq<PartView> {
    match v {
        SqlView::Generic(j) => bind_json_parts(j),
        _ => seq![PartView::Bind(v)],
    }
}

/// Binds one structured value: nothing for a null, one placeholder otherwise.
pub fn push_jsonvalue(value: JsonValue, query_builder: Statement) -> (r: Statement)
    ensures
        r@ == query_builder@ + bind_json_parts(json_view(value)),
{
    let ghost before = query_builder@;
    let ghost jv = json_view(value);
    let mut query = query_builder;
    match value {
        JsonValue::Null => {
            proof {
                assert(query@ =~= before + bind_json_parts(jv));
            }
        },
        v => {
            query.push_bind(SqlValue::GenericValue(v));
            proof {
                assert(query@ =~= before + bind_json_parts(jv));
            }
        },
    }
    query
}

/// Binds one value: generic values go through `push_jsonvalue`; calendar
/// values bind one placeholder.
pub fn push_sqlvalue(value: SqlValue, query_builder: Statement) -> (r: Statement)
    ensures
        r@ == query_builder@ + bind_sql_parts(sql_view(value)),
{
    let ghost before = query_builder@;
    let ghost sv = sql_view(value);
    match value {
        SqlValue::GenericValue(v) => push_jsonvalue(v, query_builder),
        SqlValue::NaiveChrono(naive_chrono) => {
            let mut query = query_builder;
            query.push_bind(SqlValue::NaiveChrono(naive_chrono));
            proof {
                assert(query@ =~= before + bind_sql_parts(sv));
            }
            query
        },
    }
}

} // verus!
