use sql_assembler::{push_jsonvalue, push_sqlvalue, JsonValue, SqlValue, Statement};

#[test]
fn statement_renders_placeholders_in_order() {
    let mut st = Statement::new("SELECT * FROM t WHERE a = ");
    st.push_bind(1.into());
    st.push(" AND b = ");
    st.push_bind("x".into());

    let binds = st.bound_values();
    assert_eq!(binds.len(), 2);
    assert!(matches!(binds[0], SqlValue::GenericValue(JsonValue::Number(1))));
    match &binds[1] {
        SqlValue::GenericValue(JsonValue::Text(s)) => assert_eq!(s, "x"),
        other => panic!("unexpected bound value: {:?}", other),
    }
    assert_eq!(st.into_sql(), "SELECT * FROM t WHERE a = $1 AND b = $2");
}

#[test]
fn statement_numbers_past_nine() {
    let mut st = Statement::new("");
    let mut i: i64 = 0;
    while i < 12 {
        st.push_bind(i.into());
        st.push(" ");
        i += 1;
    }
    assert_eq!(st.into_sql(), "$1 $2 $3 $4 $5 $6 $7 $8 $9 $10 $11 $12 ");
}

#[test]
fn push_jsonvalue_skips_null() {
    let st = Statement::new("");
    let st = push_jsonvalue(JsonValue::Null, st);
    assert_eq!(st.bound_values().len(), 0);
    assert_eq!(st.into_sql(), "");
}

#[test]
fn push_jsonvalue_binds_one_placeholder() {
    let st = Statement::new("");
    let st = push_jsonvalue(JsonValue::Bool(true), st);
    assert_eq!(st.bound_values().len(), 1);
    assert_eq!(st.into_sql(), "$1");
}

#[test]
fn push_sqlvalue_binds_dates() {
    let st = Statement::new("");
    let st = push_sqlvalue(
        SqlValue::from(sql_assembler::Date {
            year: 2023,
            month: 6,
            day: 30,
        }),
        st,
    );
    assert_eq!(st.bound_values().len(), 1);
    assert_eq!(st.into_sql(), "$1");
}

#[test]
fn placeholder_substitution_round_trip() {
    let mut st = Statement::new("a = ");
    st.push_bind(5.into());
    st.push(" AND b = ");
    st.push_bind("x".into());

    let mut literal = Statement::new("a = ");
    literal.push("5");
    literal.push(" AND b = ");
    literal.push("x");

    let binds = st.bound_values();
    let mut text = st.into_sql();
    let mut ordinal: usize = binds.len();
    while ordinal >= 1 {
        let rendered = match &binds[ordinal - 1] {
            SqlValue::GenericValue(JsonValue::Number(n)) => format!("{}", n),
            SqlValue::GenericValue(JsonValue::Text(s)) => s.clone(),
            other => panic!("unexpected bound value: {:?}", other),
        };
        text = text.replacen(&format!("${}", ordinal), &rendered, 1);
        ordinal -= 1;
    }

    assert_eq!(text, literal.into_sql());
}

#[test]
fn conversion_rules_pick_the_right_variant() {
    assert!(matches!(
        SqlValue::from(true),
        SqlValue::GenericValue(JsonValue::Bool(true))
    ));
    assert!(matches!(
        SqlValue::from(5i8),
        SqlValue::GenericValue(JsonValue::Number(5))
    ));
    assert!(matches!(
        SqlValue::from(5i16),
        SqlValue::GenericValue(JsonValue::Number(5))
    ));
    assert!(matches!(
        SqlValue::from(5i32),
        SqlValue::GenericValue(JsonValue::Number(5))
    ));
    assert!(matches!(
        SqlValue::from(5i64),
        SqlValue::GenericValue(JsonValue::Number(5))
    ));
    assert!(matches!(
        SqlValue::from(5isize),
        SqlValue::GenericValue(JsonValue::Number(5))
    ));
    assert!(matches!(
        SqlValue::from(5u64),
        SqlValue::GenericValue(JsonValue::Number(5))
    ));
    match SqlValue::from("sample") {
        SqlValue::GenericValue(JsonValue::Text(s)) => assert_eq!(s, "sample"),
        other => panic!("unexpected value: {:?}", other),
    }
    match SqlValue::from("sample".to_string()) {
        SqlValue::GenericValue(JsonValue::Text(s)) => assert_eq!(s, "sample"),
        other => panic!("unexpected value: {:?}", other),
    }
    match SqlValue::from(vec!["ab", "cd"]) {
        SqlValue::GenericValue(JsonValue::Array(items)) => {
            assert_eq!(items.len(), 2);
            match &items[0] {
                JsonValue::Text(s) => assert_eq!(s, "ab"),
                other => panic!("unexpected value: {:?}", other),
            }
        },
        other => panic!("unexpected value: {:?}", other),
    }
    match SqlValue::from(vec![1i64, 2, 3]) {
        SqlValue::GenericValue(JsonValue::Array(items)) => assert_eq!(items.len(), 3),
        other => panic!("unexpected value: {:?}", other),
    }
    assert!(matches!(
        SqlValue::from(sql_assembler::Date {
            year: 2023,
            month: 1,
            day: 2
        }),
        SqlValue::NaiveChrono(_)
    ));
}
