use sql_assembler::{
    check_ymd, exportable, qb_into_sql, to_query_builder, BaseQuery, Condition, ConditionBuilder,
    JsonValue, SqlValue, Statement,
};

#[test]
fn export_matches_rendered_text() {
    let mut conditions: Vec<Condition> = Vec::new();

    conditions.push(Condition::new(
        Some("AND"),
        "test_col",
        "LIKE",
        "sample".into(),
        None,
    ));
    conditions.push(Condition::new(Some("OR"), "test_col2", "=", 5.into(), None));

    let test_query = ConditionBuilder::new(
        BaseQuery::Sql(String::new()),
        conditions,
        Some("ORDER BY\n    id DESC"),
        Some(10),
        Some(0),
        None,
    );

    let statement = test_query.build();
    let builder = to_query_builder(&statement);
    let expected = statement.into_sql();

    assert_eq!(qb_into_sql(builder), expected);
}

#[test]
fn export_in_list() {
    let mut conditions: Vec<Condition> = Vec::new();

    let list: Vec<&str> = vec!["ab", "cd", "ef"];
    conditions.push(Condition::new(None, "test_col", "IN", list.into(), None));

    let statement = ConditionBuilder::new(
        BaseQuery::Sql(String::new()),
        conditions,
        None,
        None,
        None,
        None,
    )
    .build();

    let builder = to_query_builder(&statement);
    assert_eq!(qb_into_sql(builder), "\nWHERE\n    test_col IN ($1, $2, $3)");
}

#[test]
fn exportable_rejects_impossible_dates() {
    let mut good = Statement::new("");
    good.push_bind(
        sql_assembler::Date {
            year: 2024,
            month: 2,
            day: 29,
        }
        .into(),
    );
    assert!(exportable(&good));

    let mut bad = Statement::new("");
    bad.push_bind(
        sql_assembler::Date {
            year: 2023,
            month: 2,
            day: 29,
        }
        .into(),
    );
    assert!(!exportable(&bad));

    assert!(check_ymd(2000, 2, 29));
    assert!(!check_ymd(1900, 2, 29));
    assert!(!check_ymd(2023, 4, 31));
    assert!(!check_ymd(2023, 0, 1));
    assert!(!check_ymd(2023, 13, 1));
    assert!(!check_ymd(300000, 1, 1));
}

#[test]
fn export_every_value_kind() {
    let mut st = Statement::new("");
    st.push_bind(SqlValue::from(JsonValue::Null));
    st.push(" ");
    st.push_bind(true.into());
    st.push(" ");
    st.push_bind(7.into());
    st.push(" ");
    st.push_bind("text".into());
    st.push(" ");
    st.push_bind(SqlValue::from(vec![JsonValue::Bool(false), JsonValue::Null]));
    st.push(" ");
    st.push_bind(SqlValue::from(JsonValue::Object(vec![(
        "k".to_string(),
        JsonValue::Number(1),
    )])));
    st.push(" ");
    st.push_bind(
        sql_assembler::Date {
            year: 2024,
            month: 2,
            day: 29,
        }
        .into(),
    );
    st.push(" ");
    st.push_bind(
        sql_assembler::DateTime {
            year: 2023,
            month: 12,
            day: 31,
            hour: 23,
            minute: 59,
            second: 58,
        }
        .into(),
    );

    let builder = to_query_builder(&st);
    assert_eq!(qb_into_sql(builder), "$1 $2 $3 $4 $5 $6 $7 $8");
}
