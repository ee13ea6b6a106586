//! The predicate assembler: turns an ordered list of predicate descriptors
//! into a `WHERE ... [middle] [LIMIT] [OFFSET] [end]` fragment appended to a
//! base fragment or a statement already in progress.

pub mod condition;

use vstd::prelude::*;
use vstd::string::StringExecFns;

use crate::general::{
    bind_json_parts, bind_sql_parts, json_view, json_view_seq, lemma_json_view_seq,
    push_jsonvalue, push_sqlvalue, sql_view, BaseQuery, JsonValue, JsonView, SqlValue, SqlView,
};
use crate::statement::{PartView, Statement};
use crate::strutil::{contains_ignore_case, eq_ignore_case, upper_contains, upper_seq};

verus! {

/// One filter term: an optional chain operator (`AND`, `OR`, ...), a column,
/// a comparator (`=`, `LIKE`, `IN`, `BETWEEN`, ...), a left value, and a
/// right value used only by the `BETWEEN` family.
#[derive(Debug)]
pub struct Condition {
    pub chain_opr: Option<String>,
    pub column: String,
    pub eq_opr: String,
    pub value_l: SqlValue,
    pub value_r: Option<SqlValue>,
}

/// Mathematical view of a `Condition`.
pub struct CondView {
    pub chain_opr: Option<Seq<char>>,
    pub column: Seq<char>,
    pub eq_opr: Seq<char>,
    pub value_l: SqlView,
    pub value_r: Option<SqlView>,
}

pub open spec fn opt_str_view(o: Option<&str>) -> Option<Seq<char>> {
    match o {
        Some(s) => Some(s@),
        None => None,
    }
}

pub open spec fn opt_string_view(o: Option<String>) -> Option<Seq<char>> {
    match o {
        Some(s) => Some(s@),
        None => None,
    }
}

pub open spec fn opt_sql_view(o: Option<SqlValue>) -> Option<SqlView> {
    match o {
        Some(v) => Some(sql_view(v)),
        None => None,
    }
}

pub open spec fn cond_view(c: Condition) -> CondView {
    CondView {
        chain_opr: opt_string_view(c.chain_opr),
        column: c.column@,
        eq_opr: c.eq_opr@,
        value_l: sql_view(c.value_l),
        value_r: opt_sql_view(c.value_r),
    }
}

impl View for Condition {
    type V = CondView;

    open spec fn view(&self) -> CondView {
        cond_view(*self)
    }
}

/// Whether the predicate at position `i` is emitted at all: the leading
/// predicate always is; a later one only with a chain operator present.
pub open spec fn emits(c: CondView, i: int) -> bool {
    i == 0 || c.chain_opr is Some
}

pub open spec fn chain_of(c: CondView) -> Seq<char> {
    match c.chain_opr {
        Some(ch) => ch,
        None => Seq::empty(),
    }
}

/// The head line of one clause: the leading clause carries the `WHERE`
/// keyword; later clauses carry their chain operator instead.
pub open spec fn clause_head(c: CondView, i: int) -> Seq<char> {
    if i == 0 {
        "\nWHERE\n    "@ + c.column + " "@ + c.eq_opr + " "@
    } else {
        "\n    "@ + chain_of(c) + " "@ + c.column + " "@ + c.eq_opr + " "@
    }
}

/// The wildcard-wrapped pattern bound by a `LIKE` clause: text values are
/// wrapped in `%`; any other value binds an empty string.
pub open spec fn like_pattern(v: SqlView) -> Seq<char> {
    match v {
        SqlView::Generic(JsonView::Text(s)) => "%"@ + s + "%"@,
        _ => Seq::empty(),
    }
}

pub open spec fn is_json_array(v: SqlView) -> bool {
    v matches SqlView::Generic(JsonView::Array(_))
}

pub open spec fn array_items(v: SqlView) -> Seq<JsonView> {
    match v {
        SqlView::Generic(JsonView::Array(items)) => items,
        _ => Seq::empty(),
    }
}

/// The fragments of the first `j` elements of an `IN` list: each element is
/// bound, and every element but the last is followed by `, `.
pub open spec fn in_list_parts(items: Seq<JsonView>, j: int) -> Seq<PartView>
    decreases j,
{
    if j <= 0 {
        Seq::empty()
    } else {
        in_list_parts(items, j - 1) + bind_json_parts(items[j - 1]) + (if j - 1
            < items.len() - 1 {
            seq![PartView::Text(", "@)]
        } else {
            Seq::empty()
        })
    }
}

/// The fragments one predicate at position `i` contributes, by comparator
/// family (comparators are matched case-insensitively):
/// - `BETWEEN` family (contains `BETWEEN`): needs a right value, else skipped;
/// - `IN` (exactly): needs an array left value, else skipped;
/// - `LIKE` family (contains `LIKE`): binds the wildcard-wrapped pattern;
/// - anything else: binds the left value directly.
/// A predicate after position 0 without a chain operator is skipped entirely.
pub open spec fn cond_parts(c: CondView, i: int) -> Seq<PartView> {
    if upper_contains(c.eq_opr, "BETWEEN"@) {
        if c.value_r is Some && emits(c, i) {
            seq![PartView::Text(clause_head(c, i))] + bind_sql_parts(c.value_l) + seq![
                PartView::Text(" AND "@),
            ] + bind_sql_parts(c.value_r.unwrap())
        } else {
            Seq::empty()
        }
    } else if upper_seq(c.eq_opr) == "IN"@ {
        if is_json_array(c.value_l) && emits(c, i) {
            seq![PartView::Text(clause_head(c, i)), PartView::Text("("@)] + in_list_parts(
                array_items(c.value_l),
                array_items(c.value_l).len() as int,
            ) + seq![PartView::Text(")"@)]
        } else {
            Seq::empty()
        }
    } else if upper_contains(c.eq_opr, "LIKE"@) {
        if emits(c, i) {
            seq![
                PartView::Text(clause_head(c, i)),
                PartView::Bind(SqlView::Generic(JsonView::Text(like_pattern(c.value_l)))),
            ]
        } else {
            Seq::empty()
        }
    } else {
        if emits(c, i) {
            seq![PartView::Text(clause_head(c, i))] + bind_sql_parts(c.value_l)
        } else {
            Seq::empty()
        }
    }
}

/// The fragments of a whole predicate list, each predicate at its position.
pub open spec fn where_parts(conds: Seq<CondView>) -> Seq<PartView>
    decreases conds.len(),
{
    if conds.len() == 0 {
        Seq::empty()
    } else {
        where_parts(conds.drop_last()) + cond_parts(conds.last(), conds.len() - 1)
    }
}

/// An optional trailing line: a newline followed by the given text.
pub open spec fn line_parts(t: Option<Seq<char>>) -> Seq<PartView> {
    match t {
        Some(s) => seq![PartView::Text("\n"@ + s)],
        None => Seq::empty(),
    }
}

pub open spec fn limit_parts(l: Option<i64>) -> Seq<PartView> {
    match l {
        Some(v) => seq![
            PartView::Text("\nLIMIT "@),
            PartView::Bind(SqlView::Generic(JsonView::Number(v as int))),
        ],
        None => Seq::empty(),
    }
}

pub open spec fn offset_parts(l: Option<i64>) -> Seq<PartView> {
    match l {
        Some(v) => seq![
            PartView::Text("\nOFFSET "@),
            PartView::Bind(SqlView::Generic(JsonView::Number(v as int))),
        ],
        None => Seq::empty(),
    }
}

/// The fragments a base contributes: prefix text, or an existing statement's
/// own fragments.
pub open spec fn base_parts(b: BaseQuery) -> Seq<PartView> {
    match b {
        BaseQuery::Sql(s) => seq![PartView::Text(s@)],
        BaseQuery::Statement(st) => st@,
    }
}

impl Condition {
    /// chain_opr: `AND`, `OR` (and the like); ignored on the leading predicate.
    /// column: the column the predicate restricts.
    /// eq_opr: `=`, `>`, `<`, `>=`, `<=`, `LIKE`, `NOT LIKE`, `IN`, `BETWEEN`, ...
    /// value_l and value_r: both are used by the `BETWEEN` family
    /// (`WHERE sample_col BETWEEN value_l AND value_r`); every other
    /// comparator uses value_l alone.
    pub fn new(
        chain_opr: Option<&str>,
        column: &str,
        eq_opr: &str,
        value_l: SqlValue,
        value_r: Option<SqlValue>,
    ) -> (r: Condition)
        ensures
            r@ == (CondView {
                chain_opr: opt_str_view(chain_opr),
                column: column@,
                eq_opr: eq_opr@,
                value_l: sql_view(value_l),
                value_r: opt_sql_view(value_r),
            }),
    {
        Condition {
            chain_opr: match chain_opr {
                Some(s) => Some(String::from_str(s)),
                None => None,
            },
            column: String::from_str(column),
            eq_opr: String::from_str(eq_opr),
            value_l,
            value_r,
        }
    }
}

/// Builds the head line of the clause for the predicate at position `i`.
#[verifier::loop_isolation(false)]
fn head_string(cond: &Condition, i: usize) -> (r: String)
    requires
        i > 0 ==> cond.chain_opr is Some,
    ensures
        r@ == clause_head(cond@, i as int),
{
    let mut h: String;
    if i == 0 {
        h = String::from_str("\nWHERE\n    ");
    } else {
        h = String::from_str("\n    ");
        match &cond.chain_opr {
            Some(ch) => h.append(ch.as_str()),
            None => {},
        }
        h.append(" ");
    }
    h.append(cond.column.as_str());
    h.append(" ");
    h.append(cond.eq_opr.as_str());
    h.append(" ");
    proof {
        assert(h@ =~= clause_head(cond@, i as int));
    }
    h
}

/// Emits a parenthesized, comma-separated tuple, binding each array element
/// through the value model.
#[verifier::loop_isolation(false)]
fn push_as_sql_tuple(item_list: &Vec<JsonValue>, query: Statement) -> (r: Statement)
    ensures
        r@ == query@ + seq![PartView::Text("("@)] + in_list_parts(
            json_view_seq(item_list@),
            item_list@.len() as int,
        ) + seq![PartView::Text(")"@)],
{
    let ghost before = query@;
    let ghost itemsv = json_view_seq(item_list@);
    let mut query = query;
    query.push("(");
    let ghost opened = query@;
    let mut index: usize = 0;
    while index < item_list.len()
        invariant
            index <= item_list@.len(),
            query@ == opened + in_list_parts(itemsv, index as int),
        decreases item_list@.len() - index,
    {
        proof {
            lemma_json_view_seq(item_list@);
        }
        query = push_jsonvalue(item_list[index].clone(), query);
        if index < item_list.len() - 1 {
            query.push(", ");
        }
        proof {
            assert(query@ =~= opened + in_list_parts(itemsv, index + 1));
        }
        index = index + 1;
    }
    query.push(")");
    proof {
        lemma_json_view_seq(item_list@);
        assert(query@ =~= before + seq![PartView::Text("("@)] + in_list_parts(
            itemsv,
            item_list@.len() as int,
        ) + seq![PartView::Text(")"@)]);
    }
    query
}

/// Appends the fragments of one predicate at position `i`.
#[verifier::loop_isolation(false)]
fn append_condition(query: Statement, cond: &Condition, i: usize) -> (r: Statement)
    ensures
        r@ == query@ + cond_parts(cond@, i as int),
{
    let ghost before = query@;
    let ghost cv = cond@;
    let mut query = query;
    if contains_ignore_case(cond.eq_opr.as_str(), "BETWEEN") {
        match &cond.value_r {
            Some(value_r) => {
                if i == 0 || cond.chain_opr.is_some() {
                    let head = head_string(cond, i);
                    query.push(head.as_str());
                    query = push_sqlvalue(cond.value_l.clone(), query);
                    query.push(" AND ");
                    query = push_sqlvalue(value_r.clone(), query);
                    proof {
                        assert(query@ =~= before + cond_parts(cv, i as int));
                    }
                } else {
                    proof {
                        assert(query@ =~= before + cond_parts(cv, i as int));
                    }
                }
            },
            None => {
                proof {
                    assert(query@ =~= before + cond_parts(cv, i as int));
                }
            },
        }
        query
    } else if eq_ignore_case(cond.eq_opr.as_str(), "IN") {
        if i == 0 || cond.chain_opr.is_some() {
            match &cond.value_l {
                SqlValue::GenericValue(JsonValue::Array(items)) => {
                    let head = head_string(cond, i);
                    query.push(head.as_str());
                    query = push_as_sql_tuple(items, query);
                    proof {
                        lemma_json_view_seq(items@);
                        assert(array_items(cv.value_l) == json_view_seq(items@));
                        assert(query@ =~= before + cond_parts(cv, i as int));
                    }
                },
                _ => {
                    proof {
                        assert(query@ =~= before + cond_parts(cv, i as int));
                    }
                },
            }
        } else {
            proof {
                assert(query@ =~= before + cond_parts(cv, i as int));
            }
        }
        query
    } else if contains_ignore_case(cond.eq_opr.as_str(), "LIKE") {
        if i == 0 || cond.chain_opr.is_some() {
            let head = head_string(cond, i);
            query.push(head.as_str());
            let like_value: String;
            match &cond.value_l {
                SqlValue::GenericValue(JsonValue::Text(s)) => {
                    let mut ls = String::from_str("%");
                    ls.append(s.as_str());
                    ls.append("%");
                    like_value = ls;
                },
                _ => {
                    like_value = String::new();
                },
            }
            proof {
                assert(like_value@ =~= like_pattern(cv.value_l));
            }
            query = push_sqlvalue(SqlValue::GenericValue(JsonValue::Text(like_value)), query);
            proof {
                assert(query@ =~= before + cond_parts(cv, i as int));
            }
        } else {
            proof {
                assert(query@ =~= before + cond_parts(cv, i as int));
            }
        }
        query
    } else {
        if i == 0 || cond.chain_opr.is_some() {
            let head = head_string(cond, i);
            query.push(head.as_str());
            query = push_sqlvalue(cond.value_l.clone(), query);
            proof {
                assert(query@ =~= before + cond_parts(cv, i as int));
            }
        } else {
            proof {
                assert(query@ =~= before + cond_parts(cv, i as int));
            }
        }
        query
    }
}

/// On the leading predicate the chain operator is ignored: replacing it by
/// any other (or by none) leaves the emitted fragments unchanged.
pub proof fn lemma_leading_chain_ignored(c: CondView, ch: Option<Seq<char>>)
    ensures
        cond_parts((CondView { chain_opr: ch, ..c }), 0) == cond_parts(c, 0),
{
}

/// The same, stated for a whole predicate list of length 1: the one
/// predicate's chain operator does not influence the output.
pub proof fn lemma_single_predicate_chain_ignored(c: CondView, ch: Option<Seq<char>>)
    ensures
        where_parts(seq![(CondView { chain_opr: ch, ..c })]) == where_parts(seq![c]),
{
    let c2 = CondView { chain_opr: ch, ..c };
    lemma_leading_chain_ignored(c, ch);
    assert(seq![c2].drop_last() =~= Seq::<CondView>::empty());
    assert(seq![c].drop_last() =~= Seq::<CondView>::empty());
    assert(where_parts(seq![c2]) =~= where_parts(seq![c]));
}

/// A predicate's position influences its fragments only through being
/// position 0 or not.
pub proof fn lemma_cond_parts_position(c: CondView, i: int, j: int)
    requires
        i > 0,
        j > 0,
    ensures
        cond_parts(c, i) == cond_parts(c, j),
{
}

/// A predicate after position 0 without a chain operator produces no output,
/// and the predicates before and after it are unaffected: the fragments equal
/// those of the list with that predicate removed.
pub proof fn lemma_missing_chain_skipped(conds: Seq<CondView>, k: int)
    requires
        0 < k < conds.len(),
        conds[k].chain_opr is None,
    ensures
        where_parts(conds) == where_parts(conds.remove(k)),
    decreases conds.len(),
{
    let n = conds.len();
    if k == n - 1 {
        assert(cond_parts(conds.last(), n - 1) =~= Seq::<PartView>::empty());
        assert(conds.remove(k) =~= conds.drop_last());
        assert(where_parts(conds) =~= where_parts(conds.remove(k)));
    } else {
        lemma_missing_chain_skipped(conds.drop_last(), k);
        assert(conds.drop_last()[k] == conds[k]);
        assert(conds.remove(k).drop_last() =~= conds.drop_last().remove(k));
        assert(conds.remove(k).last() == conds.last());
        assert(conds.remove(k).len() == n - 1);
        lemma_cond_parts_position(conds.last(), n - 1, n - 2);
        assert(where_parts(conds) =~= where_parts(conds.remove(k)));
    }
}

/// The predicate assembler's inputs: a base fragment, the ordered predicate
/// list, optional middle text (such as `ORDER BY ...`), optional `LIMIT` and
/// `OFFSET` values, and optional trailing text (such as `RETURNING id`).
/// If only one predicate is provided, its chain operator is ignored.
#[derive(Debug)]
pub struct ConditionBuilder {
    pub base_query: BaseQuery,
    pub conditions: Vec<Condition>,
    pub middle: Option<String>,
    pub limit: Option<i64>,
    pub offset: Option<i64>,
    pub end: Option<String>,
}

/// Everything `ConditionBuilder::build` appends after the base: the predicate
/// clauses, then middle text, `LIMIT`, `OFFSET` and trailing text, in that
/// fixed order, each part only if present.
pub open spec fn builder_parts(b: ConditionBuilder) -> Seq<PartView> {
    base_parts(b.base_query) + where_parts(b.conditions@.map_values(|c: Condition| cond_view(c)))
        + line_parts(opt_string_view(b.middle)) + limit_parts(b.limit) + offset_parts(b.offset)
        + line_parts(opt_string_view(b.end))
}

impl ConditionBuilder {
    pub fn new(
        base_query: BaseQuery,
        conditions: Vec<Condition>,
        middle: Option<&str>,
        limit: Option<i64>,
        offset: Option<i64>,
        end: Option<&str>,
    ) -> (r: ConditionBuilder)
        ensures
            r.base_query == base_query,
            r.conditions == conditions,
            opt_string_view(r.middle) == opt_str_view(middle),
            r.limit == limit,
            r.offset == offset,
            opt_string_view(r.end) == opt_str_view(end),
    {
        ConditionBuilder {
            base_query,
            conditions,
            middle: match middle {
                Some(m) => Some(String::from_str(m)),
                None => None,
            },
            limit,
            offset,
            end: match end {
                Some(e) => Some(String::from_str(e)),
                None => None,
            },
        }
    }

    /// Assembles the fragment: base, predicate clauses in list order, then
    /// the optional trailers.
    #[verifier::loop_isolation(false)]
    #[verifier::rlimit(30)]
    pub fn build(self) -> (r: Statement)
        ensures
            r@ == builder_parts(self),
    {
        let ghost orig = self;
        let ConditionBuilder { base_query, conditions, middle, limit, offset, end } = self;
        let mut query: Statement = match base_query {
            BaseQuery::Sql(base_sql) => Statement::new(base_sql.as_str()),
            BaseQuery::Statement(query_builder) => query_builder,
        };
        let ghost base0 = query@;
        proof {
            assert(base0 == base_parts(orig.base_query));
        }
        let ghost cvs = conditions@.map_values(|c: Condition| cond_view(c));
        let mut i: usize = 0;
        while i < conditions.len()
            invariant
                i <= conditions@.len(),
                query@ == base0 + where_parts(cvs.take(i as int)),
            decreases conditions@.len() - i,
        {
            proof {
                assert(cvs.take(i + 1).drop_last() =~= cvs.take(i as int));
                assert(cvs.take(i + 1).last() == cond_view(conditions@[i as int]));
            }
            query = append_condition(query, &conditions[i], i);
            proof {
                assert(query@ =~= base0 + where_parts(cvs.take(i + 1)));
            }
            i = i + 1;
        }
        proof {
            assert(cvs.take(conditions@.len() as int) =~= cvs);
        }
        match &middle {
            Some(middle_sql) => {
                let mut t = String::from_str("\n");
                t.append(middle_sql.as_str());
                query.push(t.as_str());
            },
            None => {},
        }
        match limit {
            Some(l) => {
                query.push("\nLIMIT ");
                query.push_bind(SqlValue::GenericValue(JsonValue::Number(l)));
            },
            None => {},
        }
        match offset {
            Some(o) => {
                query.push("\nOFFSET ");
                query.push_bind(SqlValue::GenericValue(JsonValue::Number(o)));
            },
            None => {},
        }
        match &end {
            Some(ending) => {
                let mut t = String::from_str("\n");
                t.append(ending.as_str());
                query.push(t.as_str());
            },
            None => {},
        }
        proof {
            assert(query@ =~= builder_parts(orig));
        }
        query
    }
}

} // verus!
