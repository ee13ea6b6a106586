//! The insert assembler: turns a table name, a column list, and a row matrix
//! into a multi-row `INSERT INTO t(cols) VALUES (...), (...)` statement.

use vstd::prelude::*;
use vstd::string::StringExecFns;

use crate::condition::opt_string_view;
use crate::general::{bind_sql_parts, push_sqlvalue, sql_view, SqlValue, SqlView};
use crate::statement::{PartView, Statement};

verus! {

/// One row of values, aligned positionally with the column list; an absent
/// entry renders the `default` keyword instead of a placeholder.
pub type Row = Vec<Option<SqlValue>>;

pub open spec fn opt_sql_view(o: Option<SqlValue>) -> Option<SqlView> {
    match o {
        Some(v) => Some(sql_view(v)),
        None => None,
    }
}

pub open spec fn row_view(r: Row) -> Seq<Option<SqlView>> {
    r@.map_values(|o: Option<SqlValue>| opt_sql_view(o))
}

pub open spec fn rows_view(rows: Seq<Row>) -> Seq<Seq<Option<SqlView>>> {
    rows.map_values(|r: Row| row_view(r))
}

/// The fragments of the first `j` column names: every column but the last is
/// followed by `, `; the last closes the list with `)` and a newline.
pub open spec fn col_list_parts(cols: Seq<Seq<char>>, j: int) -> Seq<PartView>
    decreases j,
{
    if j <= 0 {
        Seq::empty()
    } else {
        col_list_parts(cols, j - 1) + seq![
            PartView::Text(cols[j - 1] + (if j - 1 < cols.len() - 1 {
                ", "@
            } else {
                ")\n"@
            })),
        ]
    }
}

/// One row slot: an absent value renders `default` and consumes no
/// placeholder; a present value binds through the value model.
pub open spec fn cell_parts(o: Option<SqlView>) -> Seq<PartView> {
    match o {
        None => seq![PartView::Text("default"@)],
        Some(v) => bind_sql_parts(v),
    }
}

/// The fragments of the first `j` slots of a row, `, `-separated.
pub open spec fn row_cells_parts(row: Seq<Option<SqlView>>, j: int) -> Seq<PartView>
    decreases j,
{
    if j <= 0 {
        Seq::empty()
    } else {
        row_cells_parts(row, j - 1) + cell_parts(row[j - 1]) + (if j - 1 < row.len() - 1 {
            seq![PartView::Text(", "@)]
        } else {
            Seq::empty()
        })
    }
}

/// The fragments of the row matrix, and whether any row was emitted.  A row
/// whose length differs from the column count is dropped entirely; separators
/// are placed only between emitted rows.
pub open spec fn rows_fold(rows: Seq<Seq<Option<SqlView>>>, ncols: int) -> (Seq<PartView>, bool)
    decreases rows.len(),
{
    if rows.len() == 0 {
        (Seq::empty(), false)
    } else {
        let prev = rows_fold(rows.drop_last(), ncols);
        let row = rows.last();
        if row.len() == ncols {
            (
                prev.0 + (if prev.1 {
                    seq![PartView::Text(",\n"@)]
                } else {
                    Seq::empty()
                }) + seq![PartView::Text("       ("@)] + row_cells_parts(row, row.len() as int)
                    + seq![PartView::Text(")"@)],
                true,
            )
        } else {
            prev
        }
    }
}

/// The insert assembler's inputs: table name, column list, row matrix, and
/// optional trailing text (such as `RETURNING id`).
#[derive(Debug)]
pub struct InsertBuilder {
    pub table: String,
    pub columns: Vec<String>,
    pub rows: Vec<Row>,
    pub last_part: Option<String>,
}

/// Everything `InsertBuilder::build` produces.  An empty row matrix produces
/// an empty fragment, with no `INSERT` text at all.
pub open spec fn insert_parts(b: InsertBuilder) -> Seq<PartView> {
    if b.rows@.len() == 0 {
        seq![PartView::Text(""@)]
    } else {
        let cols = b.columns@.map_values(|c: String| c@);
        let folded = rows_fold(rows_view(b.rows@), b.columns@.len() as int);
        seq![PartView::Text(""@), PartView::Text("INSERT INTO "@ + b.table@ + "("@)]
            + col_list_parts(cols, cols.len() as int) + seq![PartView::Text("VALUES\n"@)]
            + folded.0 + (if folded.1 {
            seq![PartView::Text("\n"@)]
        } else {
            Seq::empty()
        }) + (match b.last_part {
            Some(lp) => seq![PartView::Text(lp@ + "\n"@)],
            None => Seq::empty(),
        })
    }
}

impl InsertBuilder {
    /// table: the table inserted into.
    /// columns: the column-name list.
    /// rows: the row matrix, each row aligned with the column list.
    /// last_part: additional text for the end of the statement, such as `RETURNING id`.
    pub fn new(
        table: &str,
        columns: Vec<String>,
        rows: Vec<Row>,
        last_part: Option<&str>,
    ) -> (r: InsertBuilder)
        ensures
            r.table@ == table@,
            r.columns == columns,
            r.rows == rows,
            opt_string_view(r.last_part) == crate::condition::opt_str_view(last_part),
    {
        InsertBuilder {
            table: String::from_str(table),
            columns,
            rows,
            last_part: match last_part {
                Some(lp) => Some(String::from_str(lp)),
                None => None,
            },
        }
    }

    /// Assembles the statement: `INSERT INTO <table>(<cols>)`, then `VALUES`
    /// and one parenthesized group per well-formed row.
    #[verifier::loop_isolation(false)]
    pub fn build(self) -> (r: Statement)
        ensures
            r@ == insert_parts(self),
    {
        let ghost orig = self;
        let InsertBuilder { table, columns, rows, last_part } = self;
        let mut query = Statement::new("");

        if rows.is_empty() {
            return query;
        }

        let mut head = String::from_str("INSERT INTO ");
        head.append(table.as_str());
        head.append("(");
        query.push(head.as_str());

        let ghost cols = columns@.map_values(|c: String| c@);
        let ghost after_head = query@;
        let mut index: usize = 0;
        while index < columns.len()
            invariant
                index <= columns@.len(),
                query@ == after_head + col_list_parts(cols, index as int),
            decreases columns@.len() - index,
        {
            let mut col = String::new();
            col.append(columns[index].as_str());
            if index < columns.len() - 1 {
                col.append(", ");
            } else {
                col.append(")\n");
            }
            query.push(col.as_str());
            proof {
                assert(query@ =~= after_head + col_list_parts(cols, index + 1));
            }
            index = index + 1;
        }

        query.push("VALUES\n");

        let ghost rvs = rows_view(rows@);
        let ghost after_values = query@;
        let mut any: bool = false;
        let mut row_index: usize = 0;
        while row_index < rows.len()
            invariant
                row_index <= rows@.len(),
                query@ == after_values + rows_fold(rvs.take(row_index as int), columns@.len() as int).0,
                any == rows_fold(rvs.take(row_index as int), columns@.len() as int).1,
            decreases rows@.len() - row_index,
        {
            proof {
                assert(rvs.take(row_index + 1).drop_last() =~= rvs.take(row_index as int));
                assert(rvs.take(row_index + 1).last() == row_view(rows@[row_index as int]));
            }
            let row = &rows[row_index];
            if columns.len() == row.len() {
                if any {
                    query.push(",\n");
                }
                query.push("       (");
                let ghost rv = row_view(rows@[row_index as int]);
                let ghost row_open = query@;
                let mut col_index: usize = 0;
                while col_index < row.len()
                    invariant
                        col_index <= row@.len(),
                        query@ == row_open + row_cells_parts(rv, col_index as int),
                    decreases row@.len() - col_index,
                {
                    match &row[col_index] {
                        Some(sql_value) => {
                            query = push_sqlvalue(sql_value.clone(), query);
                        },
                        None => {
                            query.push("default");
                        },
                    }
                    if col_index < row.len() - 1 {
                        query.push(", ");
                    }
                    proof {
                        assert(query@ =~= row_open + row_cells_parts(rv, col_index + 1));
                    }
                    col_index = col_index + 1;
                }
                query.push(")");
                any = true;
            }
            proof {
                assert(query@ =~= after_values + rows_fold(
                    rvs.take(row_index + 1),
                    columns@.len() as int,
                ).0);
            }
            row_index = row_index + 1;
        }
        proof {
            assert(rvs.take(rows@.len() as int) =~= rvs);
        }

        if any {
            query.push("\n");
        }

        match &last_part {
            Some(lp) => {
                let mut t = String::new();
                t.append(lp.as_str());
                t.append("\n");
                query.push(t.as_str());
            },
            None => {},
        }
        proof {
            assert(query@ =~= insert_parts(orig));
        }
        query
    }
}

} // verus!
