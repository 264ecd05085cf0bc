use all_new_db_talks::async_db::AsyncDb;
use all_new_db_talks::error::PipelineError;
use all_new_db_talks::introspect::DbUtil;
use all_new_db_talks::rows::{FetchedRow, QueryResult, QueryRow};
use all_new_db_talks::value::SqlValue;

fn row(cells: &[(&str, &str)]) -> QueryRow {
    let mut r = QueryRow::new();
    for (k, v) in cells {
        r.insert(k.to_string(), v.to_string());
    }
    r
}

#[test]
fn empty_result_renders_as_empty_string() {
    let result = QueryResult { rows: Vec::new() };
    assert!(result.is_empty());
    assert_eq!(result.render(), "");
}

#[test]
fn one_row_renders_with_heading_and_cells() {
    let result = QueryResult { rows: vec![row(&[("id", "1"), ("name", "Alice")])] };
    assert!(!result.is_empty());
    assert_eq!(result.render(), "Row 1:\n  id: 1\n  name: Alice\n");
}

#[test]
fn rows_are_numbered_from_one() {
    let mut rows = Vec::new();
    for i in 0..11 {
        rows.push(row(&[("n", &i.to_string())]));
    }
    let text = QueryResult { rows }.render();
    assert!(text.starts_with("Row 1:\n  n: 0\nRow 2:\n  n: 1\n"));
    assert!(text.ends_with("Row 10:\n  n: 9\nRow 11:\n  n: 10\n"));
}

#[test]
fn row_without_cells_renders_heading_only() {
    let result = QueryResult { rows: vec![QueryRow::new(), QueryRow::new()] };
    assert_eq!(result.render(), "Row 1:\nRow 2:\n");
}

#[test]
fn insert_keeps_order_and_unique_names() {
    let mut r = QueryRow::new();
    r.insert("b".to_string(), "1".to_string());
    r.insert("a".to_string(), "2".to_string());
    r.insert("b".to_string(), "3".to_string());
    assert_eq!(r.len(), 2);
    assert_eq!(r.column(0).unwrap(), "b");
    assert_eq!(r.value(0).unwrap(), "3");
    assert_eq!(r.column(1).unwrap(), "a");
    assert_eq!(r.value(1).unwrap(), "2");
    assert_eq!(r.column(2), None);
    assert_eq!(r.value(2), None);
    assert_eq!(r.position(&"a".to_string()), Some(1));
    assert_eq!(r.position(&"c".to_string()), None);
    assert_eq!(r.get(&"b".to_string()), Some(&"3".to_string()));
    assert_eq!(r.get(&"z".to_string()), None);
}

#[test]
fn fetched_row_becomes_text_cells() {
    let fetched = FetchedRow {
        columns: vec!["id".to_string(), "name".to_string(), "born".to_string()],
        values: vec![
            Some(SqlValue::Int(1)),
            Some(SqlValue::Bytes(b"Alice".to_vec())),
            Some(SqlValue::Date(1990, 1, 2, 0, 0, 0, 0)),
        ],
    };
    let r = QueryRow::from_fetched(&fetched);
    assert_eq!(r.len(), 3);
    assert_eq!(r.value(0).unwrap(), "1");
    assert_eq!(r.value(1).unwrap(), "Alice");
    assert_eq!(r.value(2).unwrap(), "1990-01-02 00:00:00.000000");
}

#[test]
fn missing_value_becomes_empty_text() {
    let fetched = FetchedRow {
        columns: vec!["a".to_string(), "b".to_string(), "c".to_string()],
        values: vec![None, Some(SqlValue::NULL)],
    };
    let r = QueryRow::from_fetched(&fetched);
    assert_eq!(r.len(), 3);
    assert_eq!(r.value(0).unwrap(), "");
    assert_eq!(r.value(1).unwrap(), "NULL");
    assert_eq!(r.value(2).unwrap(), "");
}

#[test]
fn repeated_column_name_keeps_first_place_and_last_value() {
    let fetched = FetchedRow {
        columns: vec!["x".to_string(), "y".to_string(), "x".to_string()],
        values: vec![Some(SqlValue::Int(1)), Some(SqlValue::Int(2)), Some(SqlValue::Int(3))],
    };
    let r = QueryRow::from_fetched(&fetched);
    assert_eq!(r.len(), 2);
    assert_eq!(r.column(0).unwrap(), "x");
    assert_eq!(r.value(0).unwrap(), "3");
    assert_eq!(r.column(1).unwrap(), "y");
    assert_eq!(r.value(1).unwrap(), "2");
}

#[test]
fn query_turns_fetched_rows_into_result() {
    let fetched = vec![
        FetchedRow { columns: vec!["id".to_string()], values: vec![Some(SqlValue::UInt(7))] },
        FetchedRow { columns: vec!["id".to_string()], values: vec![Some(SqlValue::UInt(8))] },
    ];
    let result = AsyncDb::query(Ok(fetched)).unwrap();
    assert_eq!(result.rows.len(), 2);
    assert_eq!(result.render(), "Row 1:\n  id: 7\nRow 2:\n  id: 8\n");
}

#[test]
fn query_of_no_rows_is_a_success() {
    let result = DbUtil::query(Ok(Vec::new())).unwrap();
    assert!(result.is_empty());
    assert_eq!(DbUtil::query_as_string(Ok(Vec::new())).unwrap(), "");
}

#[test]
fn rejected_statement_is_an_execution_error() {
    let msg = "Table 'Chinook.nope' doesn't exist".to_string();
    match AsyncDb::query(Err(msg.clone())) {
        Err(PipelineError::Execution(m)) => assert_eq!(m, msg),
        other => panic!("unexpected: {:?}", other.map(|r| r.render())),
    }
    match DbUtil::query_as_string(Err(msg.clone())) {
        Err(PipelineError::Execution(m)) => assert_eq!(m, msg),
        other => panic!("unexpected: {:?}", other),
    }
    match AsyncDb::query_as_string(Err(msg.clone())) {
        Err(e) => assert_eq!(e.to_string(), format!("execution: {}", msg)),
        other => panic!("unexpected: {:?}", other),
    }
}

#[test]
fn test_query() {
    let db_util = DbUtil::new("Chinook".to_string());
    let sql = "SELECT table_name FROM information_schema.tables WHERE table_schema = 'Chinook';";
    assert!(sql.starts_with("SELECT table_name"));
    assert_eq!(db_util.warnings().len(), 0);
    let fetched = vec![
        FetchedRow {
            columns: vec!["table_name".to_string()],
            values: vec![Some(SqlValue::Bytes(b"Album".to_vec()))],
        },
        FetchedRow {
            columns: vec!["table_name".to_string()],
            values: vec![Some(SqlValue::Bytes(b"Artist".to_vec()))],
        },
    ];
    let result = DbUtil::query(Ok(fetched)).unwrap();
    println!("{:?}", result);
    assert_eq!(result.rows.len(), 2);
    assert_eq!(result.rows[0].get(&"table_name".to_string()), Some(&"Album".to_string()));
    assert_eq!(result.rows[1].get(&"table_name".to_string()), Some(&"Artist".to_string()));
}
