//! The update assembler: turns a table name and a column-assignment list into
//! `UPDATE t SET col = $1, ...`, then hands the partially built statement to
//! the predicate assembler for the filter and trailer portion.

use vstd::prelude::*;
use vstd::string::StringExecFns;

use crate::condition::{
    cond_view, line_parts, opt_str_view, opt_string_view, where_parts, Condition, ConditionBuilder,
};
use crate::general::{chrono_view, json_view, BaseQuery, Date, DateTime, JsonValue, NaiveChrono,
    SqlValue, SqlView};
use crate::statement::{text_from, text_of, PartView, Statement};

verus! {

/// The value assigned to one updated column: a structured value or a calendar value.
#[derive(Debug)]
pub enum UpdColumnType {
    Primitive(JsonValue),
    DateTime(DateTime),
    Date(Date),
}

/// One column assignment: column name and new value.
pub type Column = (String, UpdColumnType);

pub open spec fn upd_value_view(u: UpdColumnType) -> SqlView {
    match u {
        UpdColumnType::Primitive(v) => SqlView::Generic(json_view(v)),
        UpdColumnType::DateTime(dt) => chrono_view(NaiveChrono::NaiveDateTime(dt)),
        UpdColumnType::Date(d) => chrono_view(NaiveChrono::NaiveDate(d)),
    }
}

pub open spec fn column_view(c: Column) -> (Seq<char>, SqlView) {
    (c.0@, upd_value_view(c.1))
}

impl Clone for UpdColumnType {
    fn clone(&self) -> (res: Self)
        ensures
            upd_value_view(res) == upd_value_view(*self),
    {
        match self {
            UpdColumnType::Primitive(v) => UpdColumnType::Primitive(v.clone()),
            UpdColumnType::DateTime(dt) => UpdColumnType::DateTime(*dt),
            UpdColumnType::Date(d) => UpdColumnType::Date(*d),
        }
    }
}

/// The fragments of the first `j` column assignments: the first emits `SET`,
/// later ones a bare assignment line; every value binds one placeholder; all
/// but the last are followed by a comma.
pub open spec fn set_parts(cols: Seq<(Seq<char>, SqlView)>, j: int) -> Seq<PartView>
    decreases j,
{
    if j <= 0 {
        Seq::empty()
    } else {
        set_parts(cols, j - 1) + seq![
            PartView::Text((if j - 1 == 0 {
                "\n    SET "@
            } else {
                "\n    "@
            }) + cols[j - 1].0 + " = "@),
            PartView::Bind(cols[j - 1].1),
        ] + (if j - 1 < cols.len() - 1 {
            seq![PartView::Text(","@)]
        } else {
            Seq::empty()
        })
    }
}

/// The update assembler's inputs: table, ordered column assignments, the
/// predicate list for restricting the touched rows, and optional trailing text.
#[derive(Debug)]
pub struct UpdateBuilder {
    pub table: String,
    pub columns: Vec<Column>,
    pub conditions: Vec<Condition>,
    pub end: Option<String>,
}

/// Everything `UpdateBuilder::build` produces: an empty column list yields an
/// empty fragment, with no `UPDATE` keyword at all.
pub open spec fn update_parts(b: UpdateBuilder) -> Seq<PartView> {
    if b.columns@.len() == 0 {
        seq![PartView::Text(""@)]
    } else {
        let cols = b.columns@.map_values(|c: Column| column_view(c));
        seq![PartView::Text(""@), PartView::Text("UPDATE "@ + b.table@)] + set_parts(
            cols,
            cols.len() as int,
        )
    }
}

/// Everything `UpdateBuilder::build_all` produces: the `UPDATE ... SET ...`
/// fragment, the predicate clauses, and the trailing text.  An empty column
/// list yields an empty fragment regardless of the predicate list.
pub open spec fn update_all_parts(b: UpdateBuilder) -> Seq<PartView> {
    if b.columns@.len() == 0 {
        seq![PartView::Text(""@)]
    } else {
        update_parts(b) + where_parts(b.conditions@.map_values(|c: Condition| cond_view(c)))
            + line_parts(opt_string_view(b.end))
    }
}

impl UpdateBuilder {
    /// table: the table updated.
    /// columns: the assignments to apply.
    /// conditions: predicates restricting the modified rows.
    /// end: additional text for the end of the statement, such as `RETURNING id`.
    pub fn new(
        table: &str,
        columns: Vec<Column>,
        conditions: Vec<Condition>,
        end: Option<&str>,
    ) -> (r: UpdateBuilder)
        ensures
            r.table@ == table@,
            r.columns == columns,
            r.conditions == conditions,
            opt_string_view(r.end) == opt_str_view(end),
    {
        UpdateBuilder {
            table: String::from_str(table),
            columns,
            conditions,
            end: match end {
                Some(e) => Some(String::from_str(e)),
                None => None,
            },
        }
    }

    /// Assembles the `UPDATE <table> SET ...` fragment alone.
    #[verifier::loop_isolation(false)]
    pub fn build(&self) -> (r: Statement)
        ensures
            r@ == update_parts(*self),
    {
        let mut query = Statement::new("");

        if !self.columns.is_empty() {
            let mut base = String::from_str("UPDATE ");
            base.append(self.table.as_str());
            query.push(base.as_str());

            let ghost cols = self.columns@.map_values(|c: Column| column_view(c));
            let ghost opened = query@;
            let mut index: usize = 0;
            while index < self.columns.len()
                invariant
                    index <= self.columns@.len(),
                    query@ == opened + set_parts(cols, index as int),
                decreases self.columns@.len() - index,
            {
                let column = &self.columns[index];
                let mut head: String;
                if index == 0 {
                    head = String::from_str("\n    SET ");
                } else {
                    head = String::from_str("\n    ");
                }
                head.append(column.0.as_str());
                head.append(" = ");
                query.push(head.as_str());

                match &column.1 {
                    UpdColumnType::Primitive(primitive) => {
                        query.push_bind(SqlValue::GenericValue(primitive.clone()));
                    },
                    UpdColumnType::DateTime(datetime) => {
                        query.push_bind(SqlValue::NaiveChrono(NaiveChrono::NaiveDateTime(
                            *datetime,
                        )));
                    },
                    UpdColumnType::Date(date) => {
                        query.push_bind(SqlValue::NaiveChrono(NaiveChrono::NaiveDate(*date)));
                    },
                }

                if index < self.columns.len() - 1 {
                    query.push(",");
                }
                proof {
                    assert(query@ =~= opened + set_parts(cols, index + 1));
                }
                index = index + 1;
            }
        }

        proof {
            assert(query@ =~= update_parts(*self));
        }
        query
    }

    /// Assembles the whole statement: the `UPDATE ... SET ...` fragment, then
    /// the predicate clauses and the trailing text through the predicate
    /// assembler.  An empty column list yields an empty statement regardless
    /// of the predicate list.
    pub fn build_all(self) -> (r: Statement)
        ensures
            r@ == update_all_parts(self),
            self.columns@.len() == 0 ==> text_of(r@) == Seq::<char>::empty(),
    {
        if self.columns.is_empty() {
            let query = Statement::new("");
            proof {
                reveal_strlit("");
                let s = query@;
                assert(s.len() == 1);
                assert(s.drop_last() =~= Seq::<PartView>::empty());
                assert(text_from(s.drop_last(), 1) =~= Seq::<char>::empty());
                assert(s.last() == PartView::Text(""@));
                assert(""@ =~= Seq::<char>::empty());
                assert(text_of(s) =~= Seq::<char>::empty());
            }
            return query;
        }

        let query = self.build();
        let ghost orig = self;
        let UpdateBuilder { table: _, columns: _, conditions, end } = self;

        let end_ref: Option<&str> = match &end {
            Some(e) => Some(e.as_str()),
            None => None,
        };
        let query_new = ConditionBuilder::new(
            BaseQuery::Statement(query),
            conditions,
            None,
            None,
            None,
            end_ref,
        ).build();

        proof {
            assert(query_new@ =~= update_all_parts(orig));
        }
        query_new
    }
}

} // verus!
