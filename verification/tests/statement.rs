//! The statement builder: placeholder substitution and its rejections.

use pgpool::sql::{Column, ColumnValue, Parameter, Row, RowIterator, Statement};

#[test]
fn render_without_placeholders_returns_template_unchanged() {
    let s = Statement::new("select 1".to_string(), None);
    assert_eq!(s.tosql().unwrap(), "select 1");
}

#[test]
fn render_empty_template_without_params() {
    let s = Statement::new(String::new(), None);
    assert_eq!(s.tosql().unwrap(), "");
}

#[test]
fn render_markers_without_params_fails() {
    let s = Statement::new("select * from t where a = ?".to_string(), None);
    let err = s.tosql().unwrap_err();
    assert_eq!(err.msg, "invalid sql with extra placeholder ?");
}

#[test]
fn render_params_without_markers_fails() {
    let s = Statement::new("select 1".to_string(), Some(vec![Parameter::Int(1)]));
    let err = s.tosql().unwrap_err();
    assert_eq!(err.msg, "invalid sql with extra placeholder parameters");
}

#[test]
fn render_empty_param_list_without_markers_fails() {
    let s = Statement::new("select 1".to_string(), Some(Vec::new()));
    let err = s.tosql().unwrap_err();
    assert_eq!(err.msg, "invalid sql with extra placeholder parameters");
}

#[test]
fn render_too_few_params_fails() {
    let s = Statement::new(
        "insert into t values(?,?)".to_string(),
        Some(vec![Parameter::Int(1)]),
    );
    let err = s.tosql().unwrap_err();
    assert_eq!(err.msg, "invalid sql with mismatched placeholder parameters");
}

#[test]
fn render_too_many_params_fails() {
    let s = Statement::new(
        "select ?".to_string(),
        Some(vec![Parameter::Int(1), Parameter::Int(2)]),
    );
    let err = s.tosql().unwrap_err();
    assert_eq!(err.msg, "invalid sql with mismatched placeholder parameters");
}

#[test]
fn render_blob_param_fails_closed() {
    let s = Statement::new(
        "insert into t values(?)".to_string(),
        Some(vec![Parameter::Blob(vec![1, 2, 3])]),
    );
    let err = s.tosql().unwrap_err();
    assert_eq!(err.msg, "invalid sql with unsupported blob parameter");
}

#[test]
fn render_insert_int_and_string() {
    let s = Statement::new(
        "insert into t values(?,?)".to_string(),
        Some(vec![
            Parameter::Int(1),
            Parameter::StringValue("a".to_string()),
        ]),
    );
    assert_eq!(s.tosql().unwrap(), "insert into t values(1,'a')");
}

#[test]
fn render_substitutes_left_to_right_in_order() {
    let s = Statement::new(
        "?-?-?".to_string(),
        Some(vec![
            Parameter::Int(1),
            Parameter::Int(2),
            Parameter::Int(3),
        ]),
    );
    assert_eq!(s.tosql().unwrap(), "1-2-3");
}

#[test]
fn render_column_ref_is_unquoted() {
    let s = Statement::new(
        "select ? from t".to_string(),
        Some(vec![Parameter::Column("max(n)".to_string())]),
    );
    assert_eq!(s.tosql().unwrap(), "select max(n) from t");
}

#[test]
fn render_string_is_quoted_but_not_escaped() {
    let s = Statement::new(
        "select ?".to_string(),
        Some(vec![Parameter::StringValue("a'b".to_string())]),
    );
    assert_eq!(s.tosql().unwrap(), "select 'a'b'");
}

#[test]
fn render_negative_and_extreme_ints() {
    let s = Statement::new(
        "? ? ? ? ?".to_string(),
        Some(vec![
            Parameter::Int(0),
            Parameter::Int(-7),
            Parameter::Int(i32::MIN),
            Parameter::Int(i32::MAX),
            Parameter::Int(100),
        ]),
    );
    assert_eq!(s.tosql().unwrap(), "0 -7 -2147483648 2147483647 100");
}

#[test]
fn row_iterator_walks_values_in_order() {
    let mut it = RowIterator::new(vec![
        Some(ColumnValue::String("1".to_string())),
        Some(ColumnValue::Int(2)),
    ]);
    match it.next() {
        Some(ColumnValue::String(s)) => assert_eq!(s, "1"),
        other => panic!("unexpected value: {:?}", other),
    }
    match it.next() {
        Some(ColumnValue::Int(n)) => assert_eq!(n, 2),
        other => panic!("unexpected value: {:?}", other),
    }
    assert!(it.next().is_none());
}

#[test]
fn row_values_walk_in_column_order() {
    let row = Row {
        columns: vec![
            Column {
                value: Some(ColumnValue::String("x".to_string())),
                meta: None,
            },
            Column {
                value: Some(ColumnValue::Int(9)),
                meta: None,
            },
        ],
    };
    let mut it = row.into_values();
    match it.next() {
        Some(ColumnValue::String(s)) => assert_eq!(s, "x"),
        other => panic!("unexpected value: {:?}", other),
    }
    match it.next() {
        Some(ColumnValue::Int(n)) => assert_eq!(n, 9),
        other => panic!("unexpected value: {:?}", other),
    }
    assert!(it.next().is_none());
}

#[test]
fn row_iterator_stops_at_first_absent_value() {
    let mut it = RowIterator::new(vec![
        None,
        Some(ColumnValue::Int(2)),
    ]);
    assert!(it.next().is_none());
    assert!(it.next().is_none());
}
