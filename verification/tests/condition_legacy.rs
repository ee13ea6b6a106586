use sql_assembler::condition::condition::{condition_builder, Condition};

#[test]
fn in_without_where() {
    let mut conditions: Vec<Condition> = Vec::new();
    let num_list: Vec<i32> = vec![3, 5, 7];

    conditions.push(Condition::new(
        Some(""),
        "test_col",
        "IN",
        Some(num_list.into()),
        None,
    ));
    let test_query = condition_builder("", &conditions, "", None, None, "");

    let result = "\n     test_col IN $1";

    assert_eq!(test_query.into_sql(), result);
}

#[test]
fn condition_between_with_where() {
    let mut conditions: Vec<Condition> = Vec::new();

    conditions.push(Condition::new(
        None,
        "test_col",
        "BETWEEN",
        Some(5.into()),
        Some(24.into()),
    ));
    let test_query = condition_builder("", &conditions, "", None, None, "");

    let result = "\nWHERE\n    test_col BETWEEN $1 AND $2";

    assert_eq!(test_query.into_sql(), result);
}

#[test]
fn condition_single_condition_with_where() {
    let mut conditions: Vec<Condition> = Vec::new();

    conditions.push(Condition::new(
        None,
        "test_col",
        "LIKE",
        Some("sample".into()),
        None,
    ));
    let test_query = condition_builder("", &conditions, "", None, None, "");

    let result = "\nWHERE\n    test_col LIKE $1";

    assert_eq!(test_query.into_sql(), result);
}

#[test]
fn condition_single_condition_without_where() {
    let mut conditions: Vec<Condition> = Vec::new();

    conditions.push(Condition::new(
        Some(""),
        "test_col",
        "LIKE",
        Some("sample".into()),
        None,
    ));
    let test_query = condition_builder("", &conditions, "", None, None, "");

    let result = "\n     test_col LIKE $1";

    assert_eq!(test_query.into_sql(), result);
}

#[test]
fn condition_single_condition_with_chain_operand() {
    let mut conditions: Vec<Condition> = Vec::new();

    conditions.push(Condition::new(
        Some("AND"),
        "test_col",
        "LIKE",
        Some("sample".into()),
        None,
    ));
    let test_query = condition_builder("", &conditions, "", None, None, "");

    let result = "\n    AND test_col LIKE $1";

    assert_eq!(test_query.into_sql(), result);
}

#[test]
fn condition_empty_condition_builder() {
    let conditions: Vec<Condition> = Vec::new();
    let test_query = condition_builder("", &conditions, "", None, None, "");

    assert_eq!(test_query.into_sql(), "");
}

#[test]
fn condition_multiple_conditions() {
    let mut conditions: Vec<Condition> = Vec::new();

    conditions.push(Condition::new(
        Some("AND"),
        "test_col",
        "LIKE",
        Some("sample".into()),
        None,
    ));
    conditions.push(Condition::new(
        Some("OR"),
        "test_col2",
        "=",
        Some(5.into()),
        None,
    ));

    // This condition will be ignored because there is no chain operator
    conditions.push(Condition::new(None, "other_col", "=", Some(7.into()), None));

    let order_by = "\nORDER BY\n    id DESC";

    let test_query = condition_builder("", &conditions, order_by, Some(10), Some(0), "");

    let result = "\n    AND test_col LIKE $1\n    OR test_col2 = $2\nORDER BY\n    id DESC\nLIMIT $3\nOFFSET $4";

    assert_eq!(test_query.into_sql(), result);
}
