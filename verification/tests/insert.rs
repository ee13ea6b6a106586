use sql_assembler::{InsertBuilder, Row};

#[test]
fn insert_one_column_one_row() {
    let mut columns: Vec<String> = Vec::new();
    let mut row1: Row = Vec::new();
    let mut rows: Vec<Row> = Vec::new();

    columns.push("column1".to_string());
    row1.push(Some("title1".into()));
    rows.push(row1);

    let insert_query = InsertBuilder::new("sample_table", columns, rows, None);
    let result = "INSERT INTO sample_table(column1)\nVALUES\n       ($1)\n";

    assert_eq!(insert_query.build().into_sql(), result);
}

#[test]
fn insert_one_column_two_rows() {
    let mut columns: Vec<String> = Vec::new();
    let mut row1: Row = Vec::new();
    let mut row2: Row = Vec::new();
    let mut rows: Vec<Row> = Vec::new();

    columns.push("column1".to_string());
    row1.push(Some("title1".into()));
    row2.push(Some("title2".into()));
    rows.push(row1);
    rows.push(row2);

    let insert_query = InsertBuilder::new("sample_table", columns, rows, None);
    let result = "INSERT INTO sample_table(column1)\nVALUES\n       ($1),\n       ($2)\n";

    assert_eq!(insert_query.build().into_sql(), result);
}

#[test]
fn insert_two_column_one_row() {
    let mut columns: Vec<String> = Vec::new();
    let mut row1: Row = Vec::new();
    let mut rows: Vec<Row> = Vec::new();

    columns.push("column1".to_string());
    columns.push("column2".to_string());
    row1.push(Some("title1".into()));
    row1.push(Some(32.into()));
    rows.push(row1);

    let insert_query = InsertBuilder::new("sample_table", columns, rows, None);
    let result = "INSERT INTO sample_table(column1, column2)\nVALUES\n       ($1, $2)\n";

    assert_eq!(insert_query.build().into_sql(), result);
}

#[test]
fn insert_three_column_multi_rows() {
    let mut columns: Vec<String> = Vec::new();
    let mut row1: Row = Vec::new();
    let mut row2: Row = Vec::new();
    let mut row3: Row = Vec::new();
    let mut row4: Row = Vec::new();

    let mut rows: Vec<Row> = Vec::new();

    columns.push("column1".to_string());
    columns.push("column2".to_string());
    columns.push("column3".to_string());

    row1.push(Some("title1".into()));
    row1.push(Some(32.into()));
    row1.push(Some("2023-01-01".into()));

    row2.push(Some("title2".into()));
    row2.push(Some(64.into()));
    row2.push(Some("2023-02-02".into()));

    row3.push(Some("title3".into()));
    row3.push(Some(18.into()));
    row3.push(Some("2023-03-03".into()));

    row4.push(Some("title4".into()));
    row4.push(Some(64.into()));
    row4.push(Some("2023-04-04".into()));

    rows.push(row1);
    rows.push(row2);
    rows.push(row3);
    rows.push(row4);

    let insert_query = InsertBuilder::new("sample_table", columns, rows, None);
    let result = "INSERT INTO sample_table(column1, column2, column3)\nVALUES\n       ($1, $2, $3),\n       ($4, $5, $6),\n       ($7, $8, $9),\n       ($10, $11, $12)\n";

    assert_eq!(insert_query.build().into_sql(), result);
}

#[test]
fn insert_three_column_multi_rows_with_wrong_rows() {
    let mut columns: Vec<String> = Vec::new();
    let mut rows: Vec<Row> = Vec::new();

    let mut row1: Row = Vec::new();
    let mut row2: Row = Vec::new();
    let mut row3: Row = Vec::new();
    let mut row4: Row = Vec::new();

    columns.push("column1".to_string());
    columns.push("column2".to_string());
    columns.push("column3".to_string());

    row1.push(Some("title1".into()));
    row1.push(Some(32.into()));
    row1.push(Some("2023-01-01".into()));

    row2.push(Some("title2".into()));
    row2.push(Some("2023-02-02".into()));

    row3.push(Some("title3".into()));
    row3.push(Some(18.into()));
    row4.push(Some("2023-03-03".into()));

    row4.push(Some("title4".into()));
    row4.push(Some(64.into()));

    rows.push(row1);
    rows.push(row2);
    rows.push(row3);
    rows.push(row4);

    let insert_query = InsertBuilder::new("sample_table", columns, rows, None);
    let result = "INSERT INTO sample_table(column1, column2, column3)\nVALUES\n       ($1, $2, $3),\n       ($4, $5, $6)\n";

    assert_eq!(insert_query.build().into_sql(), result);
}

#[test]
fn insert_three_column_multi_rows_with_none_values() {
    let mut columns: Vec<String> = Vec::new();
    let mut rows: Vec<Row> = Vec::new();

    let mut row1: Row = Vec::new();
    let mut row2: Row = Vec::new();
    let mut row3: Row = Vec::new();
    let mut row4: Row = Vec::new();

    columns.push("column1".to_string());
    columns.push("column2".to_string());
    columns.push("column3".to_string());

    row1.push(Some("title1".into()));
    row1.push(Some(32.into()));
    row1.push(Some("2023-01-01".into()));

    row2.push(Some("title2".into()));
    row2.push(None);
    row2.push(Some("2023-02-02".into()));

    row3.push(Some("title3".into()));
    row3.push(Some(18.into()));
    row3.push(Some("2023-03-03".into()));

    row4.push(Some("title4".into()));
    row4.push(Some(64.into()));
    row4.push(None);

    rows.push(row1);
    rows.push(row2);
    rows.push(row3);
    rows.push(row4);

    let insert_query = InsertBuilder::new("sample_table", columns, rows, None);
    let result = "INSERT INTO sample_table(column1, column2, column3)\nVALUES\n       ($1, $2, $3),\n       ($4, default, $5),\n       ($6, $7, $8),\n       ($9, $10, default)\n";

    assert_eq!(insert_query.build().into_sql(), result);
}

#[test]
fn insert_three_column_two_rows_with_last_part() {
    let mut columns: Vec<String> = Vec::new();
    let mut rows: Vec<Row> = Vec::new();

    let mut row1: Row = Vec::new();
    let mut row2: Row = Vec::new();

    columns.push("column1".to_string());
    columns.push("column2".to_string());
    columns.push("column3".to_string());

    row1.push(Some("title1".into()));
    row1.push(Some(32.into()));
    row1.push(Some("2023-01-01".into()));

    row2.push(Some("title2".into()));
    row2.push(Some(64.into()));
    row2.push(Some("2023-02-02".into()));

    rows.push(row1);
    rows.push(row2);

    let insert_query = InsertBuilder::new("sample_table", columns, rows, Some("RETURNING id"));
    let result = "INSERT INTO sample_table(column1, column2, column3)\nVALUES\n       ($1, $2, $3),\n       ($4, $5, $6)\nRETURNING id\n";

    assert_eq!(insert_query.build().into_sql(), result);
}

#[test]
fn insert_empty_rows_is_empty() {
    let mut columns: Vec<String> = Vec::new();
    let rows: Vec<Row> = Vec::new();

    columns.push("column1".to_string());

    let insert_query = InsertBuilder::new("sample_table", columns, rows, Some("RETURNING id"));

    assert_eq!(insert_query.build().into_sql(), "");
}

#[test]
fn insert_default_consumes_no_placeholder() {
    let mut columns: Vec<String> = Vec::new();
    let mut rows: Vec<Row> = Vec::new();
    let mut row1: Row = Vec::new();

    columns.push("column1".to_string());
    columns.push("column2".to_string());
    columns.push("column3".to_string());

    row1.push(Some("title1".into()));
    row1.push(None);
    row1.push(Some(32.into()));

    rows.push(row1);

    let insert_query = InsertBuilder::new("sample_table", columns, rows, None);
    let statement = insert_query.build();
    assert_eq!(statement.bound_values().len(), 2);
    assert_eq!(
        statement.into_sql(),
        "INSERT INTO sample_table(column1, column2, column3)\nVALUES\n       ($1, default, $2)\n"
    );
}
