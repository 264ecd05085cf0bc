use all_new_db_talks::chain::{ChainAction, ChainEvent, Stage, TextToSqlChain};
use all_new_db_talks::error::PipelineError;
use all_new_db_talks::rows::FetchedRow;
use all_new_db_talks::schema::{ColumnName, DatabaseSchema, TableSchema};
use all_new_db_talks::value::SqlValue;

fn users() -> DatabaseSchema {
    DatabaseSchema {
        schemas: vec![TableSchema {
            table_name: "users".to_string(),
            field_columns: vec![
                ColumnName { column_name: "id".to_string(), data_type: "int".to_string() },
                ColumnName { column_name: "name".to_string(), data_type: "varchar".to_string() },
            ],
        }],
    }
}

fn chain() -> TextToSqlChain {
    TextToSqlChain::initialze("sql-operate".to_string(), "SQLite".to_string(), "Chinook".to_string())
}

/// A chain that has been asked and has its prompt out.
fn awaiting_sql() -> TextToSqlChain {
    let mut c = chain();
    assert!(matches!(c.run(ChainEvent::Ask("list all users".to_string())), ChainAction::Introspect { .. }));
    assert!(matches!(c.run(ChainEvent::Schema(users())), ChainAction::Generate { .. }));
    c
}

#[test]
fn request_runs_from_question_to_answer() {
    let mut c = chain();
    assert_eq!(c.stage(), Stage::Ready);
    match c.run(ChainEvent::Ask("  list all users\n".to_string())) {
        ChainAction::Introspect { catalog } => assert_eq!(catalog, "Chinook"),
        _ => panic!("expected a snapshot"),
    }
    assert_eq!(c.stage(), Stage::AwaitSchema);
    match c.run(ChainEvent::Schema(users())) {
        ChainAction::Generate { model, prompt } => {
            assert_eq!(model, "sql-operate");
            assert!(prompt.contains("Table \"users\":"));
            assert!(prompt.contains("- id"));
            assert!(prompt.contains("- name"));
            assert!(prompt.contains("User Question:\nlist all users\n"));
            assert!(prompt.contains("for SQLite that"));
        }
        _ => panic!("expected a generation"),
    }
    assert_eq!(c.stage(), Stage::AwaitSql);
    match c.run(ChainEvent::Generated(Ok("```sql\nSELECT id, name FROM users;\n```\n".to_string()))) {
        ChainAction::Execute { sql } => assert_eq!(sql, "SELECT id, name FROM users;"),
        _ => panic!("expected an execution"),
    }
    assert_eq!(c.stage(), Stage::AwaitRows);
    let rows = vec![FetchedRow {
        columns: vec!["id".to_string(), "name".to_string()],
        values: vec![Some(SqlValue::Int(1)), Some(SqlValue::Bytes(b"Alice".to_vec()))],
    }];
    match c.run(ChainEvent::Rows(Ok(rows))) {
        ChainAction::Answer(text) => assert_eq!(text, "Row 1:\n  id: 1\n  name: Alice\n"),
        _ => panic!("expected an answer"),
    }
    assert_eq!(c.stage(), Stage::Finished);
    assert!(matches!(c.run(ChainEvent::Ask("again".to_string())), ChainAction::Rejected));
}

#[test]
fn no_rows_is_an_answer() {
    let mut c = awaiting_sql();
    assert!(matches!(c.run(ChainEvent::Generated(Ok("SELECT 1".to_string()))), ChainAction::Execute { .. }));
    match c.run(ChainEvent::Rows(Ok(Vec::new()))) {
        ChainAction::Answer(text) => assert_eq!(text, ""),
        _ => panic!("expected an answer"),
    }
}

#[test]
fn empty_schema_still_gives_a_prompt() {
    let mut c = chain();
    c.run(ChainEvent::Ask("q".to_string()));
    match c.run(ChainEvent::Schema(DatabaseSchema::default())) {
        ChainAction::Generate { prompt, .. } => {
            assert!(prompt.contains("Database Schema:\n\n\nInstructions:"))
        }
        _ => panic!("expected a generation"),
    }
}

#[test]
fn empty_statement_is_never_run() {
    for raw in ["", "   ", "```sql\n```", "``````"] {
        let mut c = awaiting_sql();
        assert!(matches!(
            c.run(ChainEvent::Generated(Ok(raw.to_string()))),
            ChainAction::Fail(PipelineError::Extraction)
        ));
        assert_eq!(c.stage(), Stage::Finished);
        assert!(matches!(c.run(ChainEvent::Rows(Ok(Vec::new()))), ChainAction::Rejected));
    }
}

#[test]
fn generation_failure_ends_the_request() {
    let mut c = awaiting_sql();
    match c.run(ChainEvent::Generated(Err("timeout".to_string()))) {
        ChainAction::Fail(PipelineError::Generation(m)) => assert_eq!(m, "timeout"),
        _ => panic!("expected a generation failure"),
    }
    assert_eq!(c.stage(), Stage::Finished);
}

#[test]
fn execution_failure_carries_the_message() {
    let mut c = awaiting_sql();
    c.run(ChainEvent::Generated(Ok("SELEC 1".to_string())));
    match c.run(ChainEvent::Rows(Err("You have an error in your SQL syntax".to_string()))) {
        ChainAction::Fail(e) => {
            assert_eq!(e.stage(), "execution");
            assert_eq!(e.to_string(), "execution: You have an error in your SQL syntax");
        }
        _ => panic!("expected an execution failure"),
    }
    assert_eq!(c.stage(), Stage::Finished);
}

#[test]
fn lost_connection_ends_the_request() {
    let mut c = chain();
    c.run(ChainEvent::Ask("q".to_string()));
    match c.run(ChainEvent::Unreachable("refused".to_string())) {
        ChainAction::Fail(PipelineError::Connection(m)) => assert_eq!(m, "refused"),
        _ => panic!("expected a connection failure"),
    }
    let mut c = awaiting_sql();
    assert!(matches!(c.run(ChainEvent::Unreachable("x".to_string())), ChainAction::Rejected));
    c.run(ChainEvent::Generated(Ok("SELECT 1".to_string())));
    assert!(matches!(
        c.run(ChainEvent::Unreachable("x".to_string())),
        ChainAction::Fail(PipelineError::Connection(_))
    ));
}

#[test]
fn events_out_of_turn_change_nothing() {
    let mut c = chain();
    assert!(matches!(c.run(ChainEvent::Schema(users())), ChainAction::Rejected));
    assert!(matches!(c.run(ChainEvent::Generated(Ok("SELECT 1".to_string()))), ChainAction::Rejected));
    assert!(matches!(c.run(ChainEvent::Rows(Ok(Vec::new()))), ChainAction::Rejected));
    assert!(matches!(c.run(ChainEvent::Unreachable("x".to_string())), ChainAction::Rejected));
    assert_eq!(c.stage(), Stage::Ready);
    c.run(ChainEvent::Ask("q".to_string()));
    assert!(matches!(c.run(ChainEvent::Ask("other".to_string())), ChainAction::Rejected));
    match c.run(ChainEvent::Schema(users())) {
        ChainAction::Generate { prompt, .. } => assert!(prompt.contains("User Question:\nq\n")),
        _ => panic!("expected a generation"),
    }
}

#[test]
fn db_info_passes_the_snapshot_on_or_fails() {
    let c = chain();
    let got = c.get_db_info(Ok(users())).unwrap();
    assert_eq!(got.schemas.len(), 1);
    match c.get_db_info(Err("no route".to_string())) {
        Err(PipelineError::Connection(m)) => assert_eq!(m, "fail to get database schema"),
        _ => panic!("expected a connection failure"),
    }
}

#[test]
fn each_failure_names_its_stage() {
    let cases = [
        (PipelineError::Configuration("a".to_string()), "configuration", "configuration: a"),
        (PipelineError::Connection("b".to_string()), "connection", "connection: b"),
        (PipelineError::Generation("c".to_string()), "generation", "generation: c"),
        (PipelineError::Extraction, "extraction", "extraction: generated text held no statement"),
        (PipelineError::Execution("d".to_string()), "execution", "execution: d"),
    ];
    for (e, stage, text) in cases {
        assert_eq!(e.stage(), stage);
        assert_eq!(e.to_string(), text);
    }
}
