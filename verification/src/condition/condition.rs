//! An earlier revision of the predicate assembler, kept alongside the current
//! one: a free function over predicates holding plain structured values.  It
//! differs from the current builder in three ways: a predicate with a chain
//! operator emits a chained line even at position 0; every bound value takes
//! a placeholder (nulls included); and the middle and end texts are appended
//! verbatim, without a leading newline.

use vstd::prelude::*;
use vstd::string::StringExecFns;

use crate::condition::{limit_parts, offset_parts, opt_str_view};
use crate::general::{json_view, JsonValue, JsonView, SqlValue, SqlView};
use crate::statement::{PartView, Statement};
use crate::strutil::upper_contains;
use crate::strutil::contains_ignore_case;

verus! {

/// One filter term of the earlier revision: both values are optional and a
/// predicate with an absent left value is skipped.
#[derive(Debug)]
pub struct Condition {
    pub chain_operator: Option<String>,
    pub column: String,
    pub equality: String,
    pub value_l: Option<JsonValue>,
    pub value_r: Option<JsonValue>,
}

/// Mathematical view of this revision's `Condition`.
pub struct CondView {
    pub chain_operator: Option<Seq<char>>,
    pub column: Seq<char>,
    pub equality: Seq<char>,
    pub value_l: Option<JsonView>,
    pub value_r: Option<JsonView>,
}

pub open spec fn opt_json_view(o: Option<JsonValue>) -> Option<JsonView> {
    match o {
        Some(v) => Some(json_view(v)),
        None => None,
    }
}

pub open spec fn cond_view(c: Condition) -> CondView {
    CondView {
        chain_operator: crate::condition::opt_string_view(c.chain_operator),
        column: c.column@,
        equality: c.equality@,
        value_l: opt_json_view(c.value_l),
        value_r: opt_json_view(c.value_r),
    }
}

impl View for Condition {
    type V = CondView;

    open spec fn view(&self) -> CondView {
        cond_view(*self)
    }
}

pub open spec fn lead_head(c: CondView) -> Seq<char> {
    "\nWHERE\n    "@ + c.column + " "@ + c.equality + " "@
}

pub open spec fn chain_head(c: CondView) -> Seq<char> {
    match c.chain_operator {
        Some(ch) => "\n    "@ + ch + " "@ + c.column + " "@ + c.equality + " "@,
        None => Seq::empty(),
    }
}

/// The fragments one predicate at position `i` contributes in this revision:
/// the `BETWEEN` family needs both values; everything else needs the left
/// value; a chain operator always yields a chained line, and without one only
/// the predicate at position 0 is emitted, with `WHERE`.
pub open spec fn old_cond_parts(c: CondView, i: int) -> Seq<PartView> {
    if upper_contains(c.equality, "BETWEEN"@) {
        if c.value_l is Some && c.value_r is Some {
            if c.chain_operator is Some {
                seq![
                    PartView::Text(chain_head(c)),
                    PartView::Bind(SqlView::Generic(c.value_l.unwrap())),
                    PartView::Text(" AND "@),
                    PartView::Bind(SqlView::Generic(c.value_r.unwrap())),
                ]
            } else if i == 0 {
                seq![
                    PartView::Text(lead_head(c)),
                    PartView::Bind(SqlView::Generic(c.value_l.unwrap())),
                    PartView::Text(" AND "@),
                    PartView::Bind(SqlView::Generic(c.value_r.unwrap())),
                ]
            } else {
                Seq::empty()
            }
        } else {
            Seq::empty()
        }
    } else {
        if c.value_l is Some {
            if c.chain_operator is Some {
                seq![
                    PartView::Text(chain_head(c)),
                    PartView::Bind(SqlView::Generic(c.value_l.unwrap())),
                ]
            } else if i == 0 {
                seq![
                    PartView::Text(lead_head(c)),
                    PartView::Bind(SqlView::Generic(c.value_l.unwrap())),
                ]
            } else {
                Seq::empty()
            }
        } else {
            Seq::empty()
        }
    }
}

pub open spec fn old_where_parts(conds: Seq<CondView>) -> Seq<PartView>
    decreases conds.len(),
{
    if conds.len() == 0 {
        Seq::empty()
    } else {
        old_where_parts(conds.drop_last()) + old_cond_parts(conds.last(), conds.len() - 1)
    }
}

/// Everything `condition_builder` produces: base text, the predicate clauses,
/// the middle text verbatim, `LIMIT` and `OFFSET` if present, and the end
/// text verbatim.
pub open spec fn old_builder_parts(
    base: Seq<char>,
    conds: Seq<CondView>,
    middle: Seq<char>,
    limit: Option<i64>,
    offset: Option<i64>,
    end: Seq<char>,
) -> Seq<PartView> {
    seq![PartView::Text(base)] + old_where_parts(conds) + seq![PartView::Text(middle)]
        + limit_parts(limit) + offset_parts(offset) + seq![PartView::Text(end)]
}

impl Condition {
    /// chain_operator: `AND`, `OR` (and the like).
    /// column: the column the predicate restricts.
    /// equality: `>`, `<`, `>=`, `<=`, `LIKE`, `NOT LIKE`, `IN`, `BETWEEN`, ...
    /// value_l and value_r: both are used by the `BETWEEN` family
    /// (`WHERE sample_col BETWEEN value_l AND value_r`); every other
    /// comparator uses value_l alone.
    pub fn new(
        chain_operator: Option<&str>,
        column: &str,
        equality: &str,
        value_l: Option<JsonValue>,
        value_r: Option<JsonValue>,
    ) -> (r: Condition)
        ensures
            r@ == (CondView {
                chain_operator: opt_str_view(chain_operator),
                column: column@,
                equality: equality@,
                value_l: opt_json_view(value_l),
                value_r: opt_json_view(value_r),
            }),
    {
        Condition {
            chain_operator: match chain_operator {
                Some(s) => Some(String::from_str(s)),
                None => None,
            },
            column: String::from_str(column),
            equality: String::from_str(equality),
            value_l,
            value_r,
        }
    }
}

/// Builds the head line for one predicate of this revision.
fn old_head_string(cond: &Condition, leading: bool) -> (r: String)
    requires
        leading ==> cond.chain_operator is None,
        !leading ==> cond.chain_operator is Some,
    ensures
        leading ==> r@ == lead_head(cond@),
        !leading ==> r@ == chain_head(cond@),
{
    let mut h: String;
    if leading {
        h = String::from_str("\nWHERE\n    ");
    } else {
        h = String::from_str("\n    ");
        match &cond.chain_operator {
            Some(ch) => h.append(ch.as_str()),
            None => {},
        }
        h.append(" ");
    }
    h.append(cond.column.as_str());
    h.append(" ");
    h.append(cond.equality.as_str());
    h.append(" ");
    proof {
        if leading {
            assert(h@ =~= lead_head(cond@));
        } else {
            assert(h@ =~= chain_head(cond@));
        }
    }
    h
}

/// Assembles a filter fragment in this revision's style.
#[verifier::loop_isolation(false)]
pub fn condition_builder(
    base_query: &str,
    conditions: &Vec<Condition>,
    middle: &str,
    limit: Option<i64>,
    offset: Option<i64>,
    end: &str,
) -> (r: Statement)
    ensures
        r@ == old_builder_parts(
            base_query@,
            conditions@.map_values(|c: Condition| cond_view(c)),
            middle@,
            limit,
            offset,
            end@,
        ),
{
    let mut query = Statement::new(base_query);

    let ghost base0 = query@;
    let ghost cvs = conditions@.map_values(|c: Condition| cond_view(c));
    let mut i: usize = 0;
    while i < conditions.len()
        invariant
            i <= conditions@.len(),
            query@ == base0 + old_where_parts(cvs.take(i as int)),
        decreases conditions@.len() - i,
    {
        proof {
            assert(cvs.take(i + 1).drop_last() =~= cvs.take(i as int));
            assert(cvs.take(i + 1).last() == cond_view(conditions@[i as int]));
        }
        let ghost before = query@;
        let cond = &conditions[i];
        if contains_ignore_case(cond.equality.as_str(), "BETWEEN") {
            match (&cond.value_l, &cond.value_r) {
                (Some(value_l), Some(value_r)) => {
                    if cond.chain_operator.is_some() {
                        let head = old_head_string(cond, false);
                        query.push(head.as_str());
                        query.push_bind(SqlValue::GenericValue(value_l.clone()));
                        query.push(" AND ");
                        query.push_bind(SqlValue::GenericValue(value_r.clone()));
                    } else if i == 0 {
                        let head = old_head_string(cond, true);
                        query.push(head.as_str());
                        query.push_bind(SqlValue::GenericValue(value_l.clone()));
                        query.push(" AND ");
                        query.push_bind(SqlValue::GenericValue(value_r.clone()));
                    }
                },
                _ => {},
            }
        } else {
            match &cond.value_l {
                Some(value) => {
                    if cond.chain_operator.is_some() {
                        let head = old_head_string(cond, false);
                        query.push(head.as_str());
                        query.push_bind(SqlValue::GenericValue(value.clone()));
                    } else if i == 0 {
                        let head = old_head_string(cond, true);
                        query.push(head.as_str());
                        query.push_bind(SqlValue::GenericValue(value.clone()));
                    }
                },
                None => {},
            }
        }
        proof {
            assert(query@ =~= base0 + old_where_parts(cvs.take(i + 1)));
        }
        i = i + 1;
    }
    proof {
        assert(cvs.take(conditions@.len() as int) =~= cvs);
    }

    query.push(middle);

    match limit {
        Some(l) => {
            query.push("\nLIMIT ");
            query.push_bind(SqlValue::GenericValue(JsonValue::Number(l)));
        },
        None => {},
    }

    match offset {
        Some(o) => {
            query.push("\nOFFSET ");
            query.push_bind(SqlValue::GenericValue(JsonValue::Number(o)));
        },
        None => {},
    }

    query.push(end);

    proof {
        assert(query@ =~= old_builder_parts(base_query@, cvs, middle@, limit, offset, end@));
    }
    query
}

} // verus!
