use sql_assembler::{BaseQuery, Condition, ConditionBuilder, JsonValue, SqlValue};

#[test]
fn between_with_where() {
    let mut conditions: Vec<Condition> = Vec::new();

    conditions.push(Condition::new(
        None,
        "test_col",
        "BETWEEN",
        5.into(),
        Some(24.into()),
    ));
    let test_query = ConditionBuilder::new(
        BaseQuery::Sql(String::new()),
        conditions,
        None,
        None,
        None,
        None,
    );

    let result = "\nWHERE\n    test_col BETWEEN $1 AND $2";

    assert_eq!(test_query.build().into_sql(), result);
}

#[test]
fn single_condition_with_where() {
    let mut conditions: Vec<Condition> = Vec::new();

    conditions.push(Condition::new(None, "test_col", "LIKE", "sample".into(), None));
    let test_query = ConditionBuilder::new(
        BaseQuery::Sql(String::new()),
        conditions,
        None,
        None,
        None,
        None,
    );

    let result = "\nWHERE\n    test_col LIKE $1";

    assert_eq!(test_query.build().into_sql(), result);
}

#[test]
fn single_condition_with_in_operator() {
    let mut conditions: Vec<Condition> = Vec::new();

    let list: Vec<&str> = vec!["ab", "cd", "ef"];

    conditions.push(Condition::new(None, "test_col", "IN", list.into(), None));
    let test_query = ConditionBuilder::new(
        BaseQuery::Sql(String::new()),
        conditions,
        None,
        None,
        None,
        None,
    );

    let result = "\nWHERE\n    test_col IN ($1, $2, $3)";

    assert_eq!(test_query.build().into_sql(), result);
}

#[test]
fn single_condition_without_where() {
    let mut conditions: Vec<Condition> = Vec::new();

    conditions.push(Condition::new(
        Some(""),
        "test_col",
        "LIKE",
        "sample".into(),
        None,
    ));
    let test_query = ConditionBuilder::new(
        BaseQuery::Sql(String::new()),
        conditions,
        None,
        None,
        None,
        None,
    );

    let result = "\nWHERE\n    test_col LIKE $1";

    assert_eq!(test_query.build().into_sql(), result);
}

#[test]
fn single_condition_with_chain_operand() {
    let mut conditions: Vec<Condition> = Vec::new();

    conditions.push(Condition::new(
        Some("AND"),
        "test_col",
        "LIKE",
        "sample".into(),
        None,
    ));
    let test_query = ConditionBuilder::new(
        BaseQuery::Sql(String::new()),
        conditions,
        None,
        None,
        None,
        None,
    );

    let result = "\nWHERE\n    test_col LIKE $1";

    assert_eq!(test_query.build().into_sql(), result);
}

#[test]
fn empty_condition_builder() {
    let conditions: Vec<Condition> = Vec::new();
    let test_query = ConditionBuilder::new(
        BaseQuery::Sql(String::new()),
        conditions,
        None,
        None,
        None,
        None,
    );

    assert_eq!(test_query.build().into_sql(), "");
}

#[test]
fn multiple_conditions() {
    let mut conditions: Vec<Condition> = Vec::new();

    conditions.push(Condition::new(
        Some("AND"),
        "test_col",
        "LIKE",
        "sample".into(),
        None,
    ));
    conditions.push(Condition::new(Some("OR"), "test_col2", "=", 5.into(), None));

    // This condition will be ignored because there is no chain operator
    conditions.push(Condition::new(None, "other_col", "=", 7.into(), None));

    let order_by = "ORDER BY\n    id DESC";

    let test_query = ConditionBuilder::new(
        BaseQuery::Sql(String::new()),
        conditions,
        Some(order_by),
        Some(10),
        Some(0),
        None,
    );

    let result = "\nWHERE\n    test_col LIKE $1\n    OR test_col2 = $2\nORDER BY\n    id DESC\nLIMIT $3\nOFFSET $4";

    assert_eq!(test_query.build().into_sql(), result);
}

#[test]
fn like_wraps_bound_value() {
    let mut conditions: Vec<Condition> = Vec::new();

    conditions.push(Condition::new(None, "test_col", "LIKE", "sample".into(), None));
    let test_query = ConditionBuilder::new(
        BaseQuery::Sql(String::new()),
        conditions,
        None,
        None,
        None,
        None,
    );

    let statement = test_query.build();
    let binds = statement.bound_values();
    assert_eq!(binds.len(), 1);
    match &binds[0] {
        SqlValue::GenericValue(JsonValue::Text(s)) => assert_eq!(s, "%sample%"),
        other => panic!("unexpected bound value: {:?}", other),
    }
    assert_eq!(statement.into_sql(), "\nWHERE\n    test_col LIKE $1");
}

#[test]
fn multiple_conditions_bound_values() {
    let mut conditions: Vec<Condition> = Vec::new();

    conditions.push(Condition::new(
        Some("AND"),
        "test_col",
        "LIKE",
        "sample".into(),
        None,
    ));
    conditions.push(Condition::new(Some("OR"), "test_col2", "=", 5.into(), None));
    conditions.push(Condition::new(None, "other_col", "=", 7.into(), None));

    let test_query = ConditionBuilder::new(
        BaseQuery::Sql(String::new()),
        conditions,
        Some("ORDER BY\n    id DESC"),
        Some(10),
        Some(0),
        None,
    );

    let statement = test_query.build();
    let binds = statement.bound_values();
    assert_eq!(binds.len(), 4);
    match &binds[0] {
        SqlValue::GenericValue(JsonValue::Text(s)) => assert_eq!(s, "%sample%"),
        other => panic!("unexpected bound value: {:?}", other),
    }
    assert!(matches!(
        binds[1],
        SqlValue::GenericValue(JsonValue::Number(5))
    ));
    assert!(matches!(
        binds[2],
        SqlValue::GenericValue(JsonValue::Number(10))
    ));
    assert!(matches!(
        binds[3],
        SqlValue::GenericValue(JsonValue::Number(0))
    ));
}

#[test]
fn not_between_is_between_family() {
    let mut conditions: Vec<Condition> = Vec::new();

    conditions.push(Condition::new(
        None,
        "test_col",
        "NOT BETWEEN",
        5.into(),
        Some(24.into()),
    ));
    let test_query = ConditionBuilder::new(
        BaseQuery::Sql(String::new()),
        conditions,
        None,
        None,
        None,
        None,
    );

    let result = "\nWHERE\n    test_col NOT BETWEEN $1 AND $2";

    assert_eq!(test_query.build().into_sql(), result);
}

#[test]
fn between_without_right_value_is_skipped() {
    let mut conditions: Vec<Condition> = Vec::new();

    conditions.push(Condition::new(None, "test_col", "BETWEEN", 5.into(), None));
    let test_query = ConditionBuilder::new(
        BaseQuery::Sql(String::new()),
        conditions,
        None,
        None,
        None,
        None,
    );

    assert_eq!(test_query.build().into_sql(), "");
}

#[test]
fn in_with_non_array_value_is_skipped() {
    let mut conditions: Vec<Condition> = Vec::new();

    conditions.push(Condition::new(None, "test_col", "IN", 5.into(), None));
    let test_query = ConditionBuilder::new(
        BaseQuery::Sql(String::new()),
        conditions,
        None,
        None,
        None,
        None,
    );

    assert_eq!(test_query.build().into_sql(), "");
}

#[test]
fn null_value_emits_no_placeholder() {
    let mut conditions: Vec<Condition> = Vec::new();

    conditions.push(Condition::new(
        None,
        "test_col",
        "=",
        SqlValue::from(JsonValue::Null),
        None,
    ));
    let test_query = ConditionBuilder::new(
        BaseQuery::Sql(String::new()),
        conditions,
        None,
        None,
        None,
        None,
    );

    let statement = test_query.build();
    assert_eq!(statement.bound_values().len(), 0);
    assert_eq!(statement.into_sql(), "\nWHERE\n    test_col = ");
}

#[test]
fn lowercase_comparators_are_normalized() {
    let mut conditions: Vec<Condition> = Vec::new();

    conditions.push(Condition::new(
        None,
        "test_col",
        "between",
        5.into(),
        Some(24.into()),
    ));
    let test_query = ConditionBuilder::new(
        BaseQuery::Sql(String::new()),
        conditions,
        None,
        None,
        None,
        None,
    );

    let result = "\nWHERE\n    test_col between $1 AND $2";

    assert_eq!(test_query.build().into_sql(), result);
}

#[test]
fn lowercase_in_expands_the_array() {
    let mut conditions: Vec<Condition> = Vec::new();

    let list: Vec<&str> = vec!["ab", "cd"];
    conditions.push(Condition::new(None, "test_col", "in", list.into(), None));
    let test_query = ConditionBuilder::new(
        BaseQuery::Sql(String::new()),
        conditions,
        None,
        None,
        None,
        None,
    );

    assert_eq!(test_query.build().into_sql(), "\nWHERE\n    test_col in ($1, $2)");
}

#[test]
fn not_in_binds_a_single_placeholder() {
    let mut conditions: Vec<Condition> = Vec::new();

    let list: Vec<&str> = vec!["ab", "cd"];
    conditions.push(Condition::new(None, "test_col", "NOT IN", list.into(), None));
    let test_query = ConditionBuilder::new(
        BaseQuery::Sql(String::new()),
        conditions,
        None,
        None,
        None,
        None,
    );

    let statement = test_query.build();
    assert_eq!(statement.bound_values().len(), 1);
    assert_eq!(statement.into_sql(), "\nWHERE\n    test_col NOT IN $1");
}

#[test]
fn in_with_empty_array() {
    let mut conditions: Vec<Condition> = Vec::new();

    let list: Vec<JsonValue> = Vec::new();
    conditions.push(Condition::new(None, "test_col", "IN", list.into(), None));
    let test_query = ConditionBuilder::new(
        BaseQuery::Sql(String::new()),
        conditions,
        None,
        None,
        None,
        None,
    );

    assert_eq!(test_query.build().into_sql(), "\nWHERE\n    test_col IN ()");
}

#[test]
fn like_with_non_text_value_binds_empty_string() {
    let mut conditions: Vec<Condition> = Vec::new();

    conditions.push(Condition::new(None, "test_col", "LIKE", 5.into(), None));
    let test_query = ConditionBuilder::new(
        BaseQuery::Sql(String::new()),
        conditions,
        None,
        None,
        None,
        None,
    );

    let statement = test_query.build();
    let binds = statement.bound_values();
    assert_eq!(binds.len(), 1);
    match &binds[0] {
        SqlValue::GenericValue(JsonValue::Text(s)) => assert_eq!(s, ""),
        other => panic!("unexpected bound value: {:?}", other),
    }
    assert_eq!(statement.into_sql(), "\nWHERE\n    test_col LIKE $1");
}

#[test]
fn base_prefix_is_kept() {
    let mut conditions: Vec<Condition> = Vec::new();

    conditions.push(Condition::new(None, "id", "=", 3.into(), None));
    let test_query = ConditionBuilder::new(
        BaseQuery::Sql("SELECT * FROM sample_table".to_string()),
        conditions,
        None,
        None,
        None,
        None,
    );

    assert_eq!(
        test_query.build().into_sql(),
        "SELECT * FROM sample_table\nWHERE\n    id = $1"
    );
}
