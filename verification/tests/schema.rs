use all_new_db_talks::schema::{ColumnName, DatabaseSchema, TableName, TableSchema};

fn col(name: &str, ty: &str) -> ColumnName {
    ColumnName { column_name: name.to_string(), data_type: ty.to_string() }
}

fn table(name: &str, cols: &[(&str, &str)]) -> TableSchema {
    TableSchema {
        table_name: name.to_string(),
        field_columns: cols.iter().map(|(n, t)| col(n, t)).collect(),
    }
}

fn same(a: &DatabaseSchema, b: &DatabaseSchema) -> bool {
    a.schemas.len() == b.schemas.len()
        && a.schemas.iter().zip(b.schemas.iter()).all(|(x, y)| {
            x.table_name == y.table_name
                && x.field_columns.len() == y.field_columns.len()
                && x.field_columns.iter().zip(y.field_columns.iter()).all(|(c, d)| {
                    c.column_name == d.column_name && c.data_type == d.data_type
                })
        })
}

#[test]
fn default_schema_is_empty() {
    let d = DatabaseSchema::default();
    assert!(d.is_empty());
    assert_eq!(d.schemas.len(), 0);
    assert_eq!(d.render(), "");
    let t = TableSchema::default();
    assert_eq!(t.table_name, "");
    assert_eq!(t.field_columns.len(), 0);
}

#[test]
fn render_one_table() {
    let d = DatabaseSchema { schemas: vec![table("users", &[("id", "int"), ("name", "varchar")])] };
    assert_eq!(d.render(), "Table \"users\":\n  - id (int)\n  - name (varchar)\n");
}

#[test]
fn render_puts_blank_line_between_tables() {
    let d = DatabaseSchema {
        schemas: vec![table("a", &[("x", "int")]), table("b", &[]), table("c", &[("y", "text")])],
    };
    assert_eq!(
        d.render(),
        "Table \"a\":\n  - x (int)\n\nTable \"b\":\n\nTable \"c\":\n  - y (text)\n"
    );
}

#[test]
fn names_are_given_as_strings() {
    assert_eq!(TableName { table_name: "Album".to_string() }.to_string(), "Album");
    assert_eq!(col("Title", "varchar").to_string(), "Title");
}

#[test]
fn parse_reads_what_render_wrote() {
    let samples = vec![
        DatabaseSchema { schemas: vec![] },
        DatabaseSchema { schemas: vec![table("users", &[("id", "int"), ("name", "varchar")])] },
        DatabaseSchema {
            schemas: vec![
                table("a", &[("x", "int")]),
                table("b", &[]),
                table("", &[("", "")]),
                table("we\"ird\":", &[("col)", "decimal (10, 2)"), ("  - x", "(t)"), ("a ", "(b")]),
                table("Table \"t\":", &[("tab\there", "enum('a (b)','c')")]),
            ],
        },
    ];
    for d in samples {
        let text = d.render();
        let back = DatabaseSchema::parse(&text).expect("rendered text must parse");
        assert!(same(&d, &back), "round trip changed {:?} into {:?}", d, back);
    }
}

#[test]
fn parse_reads_hand_written_text() {
    let d = DatabaseSchema::parse("Table \"users\":\n  - id (int)\n\n\nTable \"t\":").unwrap();
    assert_eq!(d.schemas.len(), 2);
    assert_eq!(d.schemas[0].table_name, "users");
    assert_eq!(d.schemas[0].field_columns[0].column_name, "id");
    assert_eq!(d.schemas[0].field_columns[0].data_type, "int");
    assert_eq!(d.schemas[1].table_name, "t");
    assert_eq!(d.schemas[1].field_columns.len(), 0);
}

#[test]
fn parse_splits_column_at_first_gap() {
    let d = DatabaseSchema::parse("Table \"t\":\n  - a (b (c))\n").unwrap();
    assert_eq!(d.schemas[0].field_columns[0].column_name, "a");
    assert_eq!(d.schemas[0].field_columns[0].data_type, "b (c)");
}

#[test]
fn parse_refuses_malformed_text() {
    assert!(DatabaseSchema::parse("  - id (int)\n").is_none());
    assert!(DatabaseSchema::parse("Table \"t\":\n  - id\n").is_none());
    assert!(DatabaseSchema::parse("Table \"t\":\n  - id (int\n").is_none());
    assert!(DatabaseSchema::parse("Table \"t\"\n").is_none());
    assert!(DatabaseSchema::parse("Table: t\n").is_none());
    assert!(DatabaseSchema::parse("hello").is_none());
    assert!(DatabaseSchema::parse("Table \"t\":\n - id (int)\n").is_none());
}

#[test]
fn name_with_line_feed_does_not_round_trip() {
    let d = DatabaseSchema { schemas: vec![table("a\":\nTable \"b", &[])] };
    let back = DatabaseSchema::parse(&d.render()).unwrap();
    assert_eq!(back.schemas.len(), 2);
    assert!(!same(&d, &back));
}

#[test]
fn column_name_with_gap_does_not_round_trip() {
    let d = DatabaseSchema { schemas: vec![table("t", &[("a (b", "c")])] };
    let back = DatabaseSchema::parse(&d.render()).unwrap();
    assert_eq!(back.schemas[0].field_columns[0].column_name, "a");
    assert_eq!(back.schemas[0].field_columns[0].data_type, "b (c");
    assert!(!same(&d, &back));
}
