use all_new_db_talks::introspect::{DbUtil, Phase, SchemaEvent, SchemaStep};
use all_new_db_talks::schema::{ColumnName, DatabaseSchema, TableName};

fn names(list: &[&str]) -> Vec<TableName> {
    list.iter().map(|n| TableName { table_name: n.to_string() }).collect()
}

fn cols(list: &[(&str, &str)]) -> Vec<ColumnName> {
    list.iter()
        .map(|(n, t)| ColumnName { column_name: n.to_string(), data_type: t.to_string() })
        .collect()
}

/// Drives a snapshot with canned answers: the listing, and for each table
/// its columns or the cause of the failure.
fn snapshot(
    listing: Result<Vec<TableName>, String>,
    answer: &dyn Fn(&str) -> Result<Vec<ColumnName>, String>,
) -> (DatabaseSchema, Vec<String>, Vec<String>) {
    let mut db = DbUtil::new("Chinook".to_string());
    let mut asked = Vec::new();
    let mut step = db.get_database_schema(SchemaEvent::Begin);
    loop {
        step = match step {
            SchemaStep::ListTables { sql } => {
                asked.push(sql);
                db.get_database_schema(SchemaEvent::Tables(listing.clone()))
            }
            SchemaStep::ListColumns { table, sql } => {
                asked.push(sql);
                db.get_database_schema(SchemaEvent::Columns(answer(&table)))
            }
            SchemaStep::Finished => break,
            SchemaStep::Rejected => panic!("a step was rejected"),
        };
    }
    assert_eq!(db.phase(), Phase::Done);
    let warnings = db.warnings().clone();
    (db.into_schema(), warnings, asked)
}

#[test]
fn statements_name_catalog_and_table() {
    let db = DbUtil::new("Chinook".to_string());
    assert_eq!(
        db.get_all_tables(),
        "SELECT table_name AS `table_name` FROM information_schema.tables WHERE table_schema = 'Chinook'"
    );
    assert_eq!(
        db.get_columns_for_table("Album"),
        "SELECT column_name AS `column_name`, data_type AS `data_type` FROM information_schema.columns WHERE table_schema = 'Chinook' AND table_name = 'Album'"
    );
}

#[test]
fn snapshot_reads_every_table() {
    let (schema, warnings, asked) = snapshot(Ok(names(&["Album", "Artist"])), &|t| {
        Ok(cols(&[(&format!("{}Id", t), "int"), ("Name", "varchar")]))
    });
    assert_eq!(warnings.len(), 0);
    assert_eq!(asked.len(), 3);
    assert!(asked[1].ends_with("AND table_name = 'Album'"));
    assert!(asked[2].ends_with("AND table_name = 'Artist'"));
    assert_eq!(
        schema.render(),
        "Table \"Album\":\n  - AlbumId (int)\n  - Name (varchar)\n\nTable \"Artist\":\n  - ArtistId (int)\n  - Name (varchar)\n"
    );
}

#[test]
fn failed_table_is_left_out_and_the_rest_kept() {
    let (schema, warnings, asked) = snapshot(Ok(names(&["a", "b", "c"])), &|t| {
        if t == "b" {
            Err("access denied".to_string())
        } else {
            Ok(cols(&[("id", "int")]))
        }
    });
    assert_eq!(asked.len(), 4);
    assert_eq!(schema.schemas.len(), 2);
    assert_eq!(schema.schemas[0].table_name, "a");
    assert_eq!(schema.schemas[1].table_name, "c");
    assert_eq!(schema.schemas[1].field_columns[0].column_name, "id");
    assert_eq!(warnings, vec!["Failed to get columns for table 'b': access denied".to_string()]);
}

#[test]
fn every_table_failing_gives_empty_schema() {
    let (schema, warnings, _) =
        snapshot(Ok(names(&["a", "b"])), &|_| Err("gone".to_string()));
    assert!(schema.is_empty());
    assert_eq!(warnings.len(), 2);
}

#[test]
fn failed_listing_gives_empty_schema() {
    let (schema, warnings, asked) =
        snapshot(Err("connection reset".to_string()), &|_| panic!("no table to ask about"));
    assert!(schema.is_empty());
    assert_eq!(asked.len(), 1);
    assert_eq!(warnings, vec!["Failed to retrieve tables: connection reset".to_string()]);
}

#[test]
fn empty_listing_gives_empty_schema() {
    let (schema, warnings, asked) = snapshot(Ok(Vec::new()), &|_| panic!("no table to ask about"));
    assert!(schema.is_empty());
    assert_eq!(warnings.len(), 0);
    assert_eq!(asked.len(), 1);
}

#[test]
fn table_without_columns_is_kept() {
    let (schema, _, _) = snapshot(Ok(names(&["empty"])), &|_| Ok(Vec::new()));
    assert_eq!(schema.schemas.len(), 1);
    assert_eq!(schema.schemas[0].field_columns.len(), 0);
}

#[test]
fn events_out_of_turn_are_rejected() {
    let mut db = DbUtil::new("c".to_string());
    assert_eq!(db.phase(), Phase::Idle);
    assert!(matches!(db.get_database_schema(SchemaEvent::Tables(Ok(names(&["a"])))), SchemaStep::Rejected));
    assert!(matches!(db.get_database_schema(SchemaEvent::Columns(Ok(Vec::new()))), SchemaStep::Rejected));
    assert_eq!(db.phase(), Phase::Idle);
    assert!(matches!(db.get_database_schema(SchemaEvent::Begin), SchemaStep::ListTables { .. }));
    assert_eq!(db.phase(), Phase::AwaitTables);
    assert!(matches!(db.get_database_schema(SchemaEvent::Begin), SchemaStep::Rejected));
    assert!(matches!(db.get_database_schema(SchemaEvent::Columns(Ok(Vec::new()))), SchemaStep::Rejected));
    assert!(matches!(
        db.get_database_schema(SchemaEvent::Tables(Ok(names(&["a"])))),
        SchemaStep::ListColumns { .. }
    ));
    assert_eq!(db.phase(), Phase::AwaitColumns);
    assert!(matches!(db.get_database_schema(SchemaEvent::Tables(Ok(Vec::new()))), SchemaStep::Rejected));
    assert!(matches!(db.get_database_schema(SchemaEvent::Columns(Ok(Vec::new()))), SchemaStep::Finished));
    assert_eq!(db.phase(), Phase::Done);
    assert!(matches!(db.get_database_schema(SchemaEvent::Begin), SchemaStep::Rejected));
    assert_eq!(db.schema().schemas.len(), 1);
}

#[test]
fn test_database_tables_and_columns() {
    let db_util = DbUtil::new("Chinook".to_string());
    let result_tables = vec!["Album".to_string(), "Artist".to_string()];
    assert!(db_util.get_all_tables().contains("table_schema = 'Chinook'"));

    for table in result_tables.iter() {
        println!("Table: {:?}", table);
        assert!(db_util.get_columns_for_table(table).contains(table.as_str()));
        let columns = vec!["Id".to_string(), "Name".to_string()];
        for column in columns.iter() {
            println!("  Column: {}", column);
        }
    }
}

#[test]
fn test_database_schema_struct() {
    let (schema, _, _) =
        snapshot(Ok(names(&["Album"])), &|_| Ok(cols(&[("AlbumId", "int"), ("Title", "varchar")])));
    println!("{:#?}", schema);
    assert_eq!(schema.schemas.len(), 1);
    assert_eq!(schema.schemas[0].field_columns.len(), 2);
}
