//! Export of a finished statement into a sqlx Postgres query builder, for
//! execution by a caller.  The builder's accumulated SQL text is proved equal
//! to the statement's own rendered text, with one bound value per placeholder.

use vstd::prelude::*;

use crate::general::{JsonValue, NaiveChrono, SqlValue, SqlView};
use crate::statement::{binds_of, part_view, placeholder, text_from, text_of, Part, PartView,
    Statement};

verus! {

#[verifier::external_type_specification]
#[verifier::external_body]
pub struct ExValue(serde_json::Value);

/// A sqlx Postgres query builder, held behind one private field because the
/// generic `sqlx::QueryBuilder` type itself cannot be declared to the
/// verifier.  Its state is described by `qb_text`, `qb_count` and `qb_live`.
#[verifier::external_body]
pub struct PgQueryBuilder {
    inner: sqlx::QueryBuilder<sqlx::Postgres>,
}

/// The SQL text accumulated inside a sqlx query builder.
pub uninterp spec fn qb_text(q: PgQueryBuilder) -> Seq<char>;

/// The number of values bound inside a sqlx query builder.
pub uninterp spec fn qb_count(q: PgQueryBuilder) -> nat;

/// Whether the builder can still be appended to: its argument list has not
/// been taken by `build` and its text buffer is not shared.
pub uninterp spec fn qb_live(q: PgQueryBuilder) -> bool;

/// Relies on sqlx's `QueryBuilder::new`: the builder starts with exactly the
/// given text and no bound values.
#[verifier::external_body]
fn qb_new(init: &str) -> (q: PgQueryBuilder)
    ensures
        qb_text(q) == init@,
        qb_count(q) == 0,
        qb_live(q),
{
    PgQueryBuilder { inner: sqlx::QueryBuilder::new(init) }
}

/// Relies on sqlx's `QueryBuilder::push`: appends the fragment to the SQL
/// text and binds nothing.
#[verifier::external_body]
fn qb_push(q: &mut PgQueryBuilder, sql: &str)
    requires
        qb_live(*old(q)),
    ensures
        qb_live(*final(q)),
        qb_text(*final(q)) == qb_text(*old(q)) + sql@,
        qb_count(*final(q)) == qb_count(*old(q)),
{
    q.inner.push(sql);
}

/// Relies on sqlx's `QueryBuilder::push_bind` with a `bool`, and on
/// `PgArguments::format_placeholder`: binding appends a dollar sign and the
/// one-based decimal ordinal of the new value.
#[verifier::external_body]
fn qb_push_bind_bool(q: &mut PgQueryBuilder, v: bool)
    requires
        qb_live(*old(q)),
    ensures
        qb_live(*final(q)),
        qb_count(*final(q)) == qb_count(*old(q)) + 1,
        qb_text(*final(q)) == qb_text(*old(q)) + placeholder(qb_count(*old(q)) + 1),
{
    q.inner.push_bind(v);
}

/// Relies on sqlx's `QueryBuilder::push_bind` with an `i64`; the placeholder
/// text is as for `qb_push_bind_bool`.
#[verifier::external_body]
fn qb_push_bind_i64(q: &mut PgQueryBuilder, v: i64)
    requires
        qb_live(*old(q)),
    ensures
        qb_live(*final(q)),
        qb_count(*final(q)) == qb_count(*old(q)) + 1,
        qb_text(*final(q)) == qb_text(*old(q)) + placeholder(qb_count(*old(q)) + 1),
{
    q.inner.push_bind(v);
}

/// Relies on sqlx's `QueryBuilder::push_bind` with a `String`; the
/// placeholder text is as for `qb_push_bind_bool`.
#[verifier::external_body]
fn qb_push_bind_string(q: &mut PgQueryBuilder, v: String)
    requires
        qb_live(*old(q)),
    ensures
        qb_live(*final(q)),
        qb_count(*final(q)) == qb_count(*old(q)) + 1,
        qb_text(*final(q)) == qb_text(*old(q)) + placeholder(qb_count(*old(q)) + 1),
{
    q.inner.push_bind(v);
}

/// Relies on sqlx's `QueryBuilder::push_bind` with a `serde_json::Value`
/// (bound as one JSONB parameter); the placeholder text is as for
/// `qb_push_bind_bool`.
#[verifier::external_body]
fn qb_push_bind_json(q: &mut PgQueryBuilder, v: serde_json::Value)
    requires
        qb_live(*old(q)),
    ensures
        qb_live(*final(q)),
        qb_count(*final(q)) == qb_count(*old(q)) + 1,
        qb_text(*final(q)) == qb_text(*old(q)) + placeholder(qb_count(*old(q)) + 1),
{
    q.inner.push_bind(v);
}

/// Relies on sqlx's `QueryBuilder::push_bind` with a `Vec<serde_json::Value>`
/// (bound as one JSONB-array parameter); the placeholder text is as for
/// `qb_push_bind_bool`.
#[verifier::external_body]
fn qb_push_bind_json_array(q: &mut PgQueryBuilder, v: Vec<serde_json::Value>)
    requires
        qb_live(*old(q)),
    ensures
        qb_live(*final(q)),
        qb_count(*final(q)) == qb_count(*old(q)) + 1,
        qb_text(*final(q)) == qb_text(*old(q)) + placeholder(qb_count(*old(q)) + 1),
{
    q.inner.push_bind(v);
}

/// Whether a year, month and day name a real calendar day that chrono's
/// `NaiveDate` can represent.
pub open spec fn valid_ymd(y: int, m: int, d: int) -> bool {
    &&& -262143 <= y <= 262142
    &&& 1 <= m <= 12
    &&& 1 <= d <= days_in_month(y, m)
}

pub open spec fn is_leap_year(y: int) -> bool {
    (y % 4 == 0 && y % 100 != 0) || y % 400 == 0
}

pub open spec fn days_in_month(y: int, m: int) -> int {
    if m == 1 || m == 3 || m == 5 || m == 7 || m == 8 || m == 10 || m == 12 {
        31
    } else if m == 4 || m == 6 || m == 9 || m == 11 {
        30
    } else if is_leap_year(y) {
        29
    } else {
        28
    }
}

/// Whether a time of day is one `NaiveDateTime` can represent.
pub open spec fn valid_hms(h: int, mi: int, s: int) -> bool {
    0 <= h < 24 && 0 <= mi < 60 && 0 <= s < 60
}

/// Relies on chrono's `NaiveDate::from_ymd_opt`, which returns a date for
/// every valid in-range calendar day, and on sqlx's `QueryBuilder::push_bind`
/// binding it as one placeholder.
#[verifier::external_body]
fn qb_push_bind_date(q: &mut PgQueryBuilder, year: i32, month: u32, day: u32)
    requires
        qb_live(*old(q)),
        valid_ymd(year as int, month as int, day as int),
    ensures
        qb_live(*final(q)),
        qb_count(*final(q)) == qb_count(*old(q)) + 1,
        qb_text(*final(q)) == qb_text(*old(q)) + placeholder(qb_count(*old(q)) + 1),
{
    let d = chrono::NaiveDate::from_ymd_opt(year, month, day).unwrap();
    q.inner.push_bind(d);
}

/// Relies on chrono's `NaiveDate::from_ymd_opt` and `NaiveDate::and_hms_opt`,
/// which succeed for every valid calendar day and time of day, and on sqlx's
/// `QueryBuilder::push_bind` binding the datetime as one placeholder.
#[verifier::external_body]
fn qb_push_bind_datetime(
    q: &mut PgQueryBuilder,
    year: i32,
    month: u32,
    day: u32,
    hour: u32,
    minute: u32,
    second: u32,
)
    requires
        qb_live(*old(q)),
        valid_ymd(year as int, month as int, day as int),
        valid_hms(hour as int, minute as int, second as int),
    ensures
        qb_live(*final(q)),
        qb_count(*final(q)) == qb_count(*old(q)) + 1,
        qb_text(*final(q)) == qb_text(*old(q)) + placeholder(qb_count(*old(q)) + 1),
{
    let dt = chrono::NaiveDate::from_ymd_opt(year, month, day).unwrap().and_hms_opt(
        hour,
        minute,
        second,
    ).unwrap();
    q.inner.push_bind(dt);
}

/// Relies on sqlx's `QueryBuilder::into_sql`: returns the accumulated text.
#[verifier::external_body]
pub fn qb_into_sql(q: PgQueryBuilder) -> (r: String)
    ensures
        r@ == qb_text(q),
{
    q.inner.into_sql().as_str().to_owned()
}

/// Relies on `serde_json::Value::Null`.
#[verifier::external_body]
fn json_null() -> serde_json::Value {
    serde_json::Value::Null
}

/// Relies on `serde_json::Value::Bool`.
#[verifier::external_body]
fn json_bool(v: bool) -> serde_json::Value {
    serde_json::Value::Bool(v)
}

/// Relies on `serde_json::Value::Number` and `serde_json::Number::from`.
#[verifier::external_body]
fn json_i64(v: i64) -> serde_json::Value {
    serde_json::Value::Number(serde_json::Number::from(v))
}

/// Relies on `serde_json::Value::String`.
#[verifier::external_body]
fn json_string(v: String) -> serde_json::Value {
    serde_json::Value::String(v)
}

/// Relies on `serde_json::Value::Array`.
#[verifier::external_body]
fn json_array(v: Vec<serde_json::Value>) -> serde_json::Value {
    serde_json::Value::Array(v)
}

/// Relies on `serde_json::Value::Object` and `serde_json::Map::from_iter`.
#[verifier::external_body]
fn json_object(v: Vec<(String, serde_json::Value)>) -> serde_json::Value {
    serde_json::Value::Object(v.into_iter().collect())
}

/// Converts a structured value of the library into a `serde_json::Value`.
fn to_json(v: &JsonValue) -> serde_json::Value
    decreases *v,
{
    match v {
        JsonValue::Null => json_null(),
        JsonValue::Bool(b) => json_bool(*b),
        JsonValue::Number(n) => json_i64(*n),
        JsonValue::Text(s) => json_string(s.clone()),
        JsonValue::Array(items) => {
            proof {
                broadcast use vstd::std_specs::vec::group_vec_axioms;

                assert(decreases_to!(*v => *items));
                assert(decreases_to!(*items => items@));
            }
            json_array(to_json_vec(items))
        },
        JsonValue::Object(pairs) => {
            proof {
                broadcast use vstd::std_specs::vec::group_vec_axioms;

                assert(decreases_to!(*v => *pairs));
                assert(decreases_to!(*pairs => pairs@));
            }
            json_object(to_json_pairs(pairs))
        },
    }
}

fn to_json_vec(items: &Vec<JsonValue>) -> Vec<serde_json::Value>
    decreases items@,
{
    let mut out: Vec<serde_json::Value> = Vec::new();
    let mut i: usize = 0;
    while i < items.len()
        invariant
            i <= items@.len(),
        decreases items@.len() - i,
    {
        proof {
            broadcast use vstd::std_specs::vec::group_vec_axioms;

            assert(decreases_to!(items@ => items@[i as int]));
        }
        out.push(to_json(&items[i]));
        i = i + 1;
    }
    out
}

fn to_json_pairs(pairs: &Vec<(String, JsonValue)>) -> Vec<(String, serde_json::Value)>
    decreases pairs@,
{
    let mut out: Vec<(String, serde_json::Value)> = Vec::new();
    let mut i: usize = 0;
    while i < pairs.len()
        invariant
            i <= pairs@.len(),
        decreases pairs@.len() - i,
    {
        proof {
            broadcast use vstd::std_specs::vec::group_vec_axioms;

            assert(decreases_to!(pairs@ => pairs@[i as int]));
            assert(decreases_to!(pairs@[i as int] => pairs@[i as int].1));
        }
        let pair = &pairs[i];
        out.push((pair.0.clone(), to_json(&pair.1)));
        i = i + 1;
    }
    out
}

/// Whether one bound value can be exported: calendar values must name real
/// calendar days and times.
pub open spec fn value_wf(v: SqlView) -> bool {
    match v {
        SqlView::Generic(_) => true,
        SqlView::Date { year, month, day } => valid_ymd(year, month, day),
        SqlView::DateTime { year, month, day, hour, minute, second } => valid_ymd(
            year,
            month,
            day,
        ) && valid_hms(hour, minute, second),
    }
}

/// Whether every bound value of a statement can be exported.
pub open spec fn binds_wf(parts: Seq<PartView>) -> bool {
    forall|i: int|
        0 <= i < parts.len() ==> (#[trigger] parts[i] matches PartView::Bind(v) ==> value_wf(v))
}

/// Leap-year test, with the year shifted into the nonnegative range so the
/// machine remainders coincide with the mathematical ones.
fn is_leap_year_x(y: i32) -> (b: bool)
    requires
        -262143 <= y <= 262142,
    ensures
        b == is_leap_year(y as int),
{
    let shifted: u32 = (y + 400000) as u32;
    proof {
        vstd::arithmetic::div_mod::lemma_mod_multiples_vanish(100000, y as int, 4);
        vstd::arithmetic::div_mod::lemma_mod_multiples_vanish(4000, y as int, 100);
        vstd::arithmetic::div_mod::lemma_mod_multiples_vanish(1000, y as int, 400);
    }
    (shifted % 4 == 0 && shifted % 100 != 0) || shifted % 400 == 0
}

fn days_in_month_x(y: i32, m: u32) -> (d: u32)
    requires
        -262143 <= y <= 262142,
        1 <= m <= 12,
    ensures
        d as int == days_in_month(y as int, m as int),
{
    if m == 1 || m == 3 || m == 5 || m == 7 || m == 8 || m == 10 || m == 12 {
        31
    } else if m == 4 || m == 6 || m == 9 || m == 11 {
        30
    } else if is_leap_year_x(y) {
        29
    } else {
        28
    }
}

/// Checks at run time that a year, month and day name a real calendar day.
pub fn check_ymd(year: i32, month: u32, day: u32) -> (b: bool)
    ensures
        b == valid_ymd(year as int, month as int, day as int),
{
    if year < -262143 || year > 262142 {
        return false;
    }
    if month < 1 || month > 12 {
        return false;
    }
    if day < 1 {
        return false;
    }
    day <= days_in_month_x(year, month)
}

/// Checks at run time that one value can be exported.
fn check_value(v: &SqlValue) -> (b: bool)
    ensures
        b == value_wf(v@),
{
    match v {
        SqlValue::GenericValue(_) => true,
        SqlValue::NaiveChrono(NaiveChrono::NaiveDate(d)) => check_ymd(d.year, d.month, d.day),
        SqlValue::NaiveChrono(NaiveChrono::NaiveDateTime(dt)) => check_ymd(
            dt.year,
            dt.month,
            dt.day,
        ) && dt.hour < 24 && dt.minute < 60 && dt.second < 60,
    }
}

/// Checks at run time that every bound value of a statement can be exported,
/// so that any caller can establish `to_query_builder`'s precondition.
#[verifier::loop_isolation(false)]
pub fn exportable(stmt: &Statement) -> (b: bool)
    ensures
        b == binds_wf(stmt@),
{
    let parts = stmt.parts();
    let mut i: usize = 0;
    while i < parts.len()
        invariant
            i <= parts@.len(),
            forall|j: int|
                0 <= j < i as int ==> (#[trigger] stmt@[j] matches PartView::Bind(v)
                    ==> value_wf(v)),
        decreases parts@.len() - i,
    {
        match &parts[i] {
            Part::Bind(v) => {
                let ghost w = crate::general::sql_view(*v);
                if !check_value(v) {
                    proof {
                        assert(stmt@[i as int] == PartView::Bind(w));
                        assert(!binds_wf(stmt@));
                    }
                    return false;
                }
            },
            Part::Text(_) => {},
        }
        proof {
            assert(stmt@[i as int] == part_view(parts@[i as int]));
        }
        i = i + 1;
    }
    proof {
        assert(binds_wf(stmt@));
    }
    true
}

/// Binds one value onto a sqlx builder, dispatching by variant exactly as the
/// value model does for one placeholder.
fn push_value(q: &mut PgQueryBuilder, value: &SqlValue)
    requires
        qb_live(*old(q)),
        value_wf(value@),
    ensures
        qb_live(*final(q)),
        qb_count(*final(q)) == qb_count(*old(q)) + 1,
        qb_text(*final(q)) == qb_text(*old(q)) + placeholder(qb_count(*old(q)) + 1),
{
    match value {
        SqlValue::GenericValue(JsonValue::Null) => {
            qb_push_bind_json(q, json_null());
        },
        SqlValue::GenericValue(JsonValue::Bool(b)) => {
            qb_push_bind_bool(q, *b);
        },
        SqlValue::GenericValue(JsonValue::Number(n)) => {
            qb_push_bind_i64(q, *n);
        },
        SqlValue::GenericValue(JsonValue::Text(s)) => {
            qb_push_bind_string(q, s.clone());
        },
        SqlValue::GenericValue(JsonValue::Array(items)) => {
            qb_push_bind_json_array(q, to_json_vec(items));
        },
        SqlValue::GenericValue(JsonValue::Object(pairs)) => {
            qb_push_bind_json(q, json_object(to_json_pairs(pairs)));
        },
        SqlValue::NaiveChrono(NaiveChrono::NaiveDate(d)) => {
            qb_push_bind_date(q, d.year, d.month, d.day);
        },
        SqlValue::NaiveChrono(NaiveChrono::NaiveDateTime(dt)) => {
            qb_push_bind_datetime(q, dt.year, dt.month, dt.day, dt.hour, dt.minute, dt.second);
        },
    }
}

/// Replays a finished statement into a sqlx Postgres query builder: the
/// builder's SQL text equals the statement's rendered text, and it binds one
/// value per placeholder, in placeholder order.
#[verifier::loop_isolation(false)]
pub fn to_query_builder(stmt: &Statement) -> (q: PgQueryBuilder)
    requires
        binds_wf(stmt@),
    ensures
        qb_text(q) == text_of(stmt@),
        qb_count(q) == binds_of(stmt@).len(),
        qb_live(q),
{
    let parts = stmt.parts();
    let mut q = qb_new("");
    proof {
        reveal_strlit("");
        assert(qb_text(q) =~= text_from(stmt@.take(0), 1));
    }
    let mut i: usize = 0;
    while i < parts.len()
        invariant
            i <= parts@.len(),
            qb_live(q),
            qb_text(q) == text_from(stmt@.take(i as int), 1),
            qb_count(q) == binds_of(stmt@.take(i as int)).len(),
        decreases parts@.len() - i,
    {
        proof {
            assert(stmt@.take(i + 1).drop_last() =~= stmt@.take(i as int));
            assert(stmt@.take(i + 1).last() == part_view(parts@[i as int]));
        }
        match &parts[i] {
            Part::Text(t) => {
                qb_push(&mut q, t.as_str());
            },
            Part::Bind(v) => {
                proof {
                    assert(stmt@[i as int] == PartView::Bind(crate::general::sql_view(*v)));
                }
                push_value(&mut q, v);
            },
        }
        proof {
            assert(qb_text(q) =~= text_from(stmt@.take(i + 1), 1));
        }
        i = i + 1;
    }
    proof {
        assert(stmt@.take(parts@.len() as int) =~= stmt@);
    }
    q
}

} // verus!
