use all_new_db_talks::csv::{CsvBatch, CsvCell, CsvColumn, CsvUtill};

fn column(name: &str, cells: Vec<CsvCell>) -> CsvColumn {
    CsvColumn { name: name.to_string(), cells }
}

fn products() -> CsvBatch {
    CsvBatch::new(
        vec![
            column(
                "name",
                vec![CsvCell::Text("pen".to_string()), CsvCell::Null, CsvCell::Text("ink".to_string())],
            ),
            column("price", vec![CsvCell::Real(9.5f64.to_string()), CsvCell::Real(12f64.to_string()), CsvCell::Null]),
            column("stock", vec![CsvCell::Int(-3), CsvCell::Int(0), CsvCell::Int(i64::MIN)]),
            column("listed", vec![CsvCell::Bool(true), CsvCell::Bool(false), CsvCell::Unsupported]),
        ],
        3,
    )
    .unwrap()
}

#[test]
fn batch_is_shown_as_a_table() {
    let text = CsvUtill::record_batches_to_string(vec![products()]);
    assert_eq!(
        text,
        "name | price | stock | listed\n---- | ---- | ---- | ----\npen | 9.5 | -3 | true\nNULL | 12 | 0 | false\nink | NULL | -9223372036854775808 | [unsupported type]\n\n"
    );
}

#[test]
fn batches_follow_each_other() {
    let one = CsvBatch::new(vec![column("a", vec![CsvCell::Int(1)])], 1).unwrap();
    let two = CsvBatch::new(vec![column("a", vec![CsvCell::Int(2)])], 1).unwrap();
    assert_eq!(
        CsvUtill::record_batches_to_string(vec![one, two]),
        "a\n----\n1\n\na\n----\n2\n\n"
    );
}

#[test]
fn no_batch_gives_no_text() {
    assert_eq!(CsvUtill::record_batches_to_string(Vec::new()), "");
}

#[test]
fn batch_without_rows_or_columns() {
    let no_rows = CsvBatch::new(vec![column("a", vec![]), column("b", vec![])], 0).unwrap();
    assert_eq!(no_rows.num_rows(), 0);
    assert_eq!(no_rows.num_columns(), 2);
    assert_eq!(CsvUtill::record_batches_to_string(vec![no_rows]), "a | b\n---- | ----\n\n");
    let no_columns = CsvBatch::new(Vec::new(), 2).unwrap();
    assert_eq!(CsvUtill::record_batches_to_string(vec![no_columns]), "\n\n\n\n\n");
}

#[test]
fn ragged_batch_is_refused() {
    assert!(CsvBatch::new(vec![column("a", vec![CsvCell::Null])], 2).is_none());
    assert!(CsvBatch::new(
        vec![column("a", vec![CsvCell::Null]), column("b", vec![CsvCell::Null, CsvCell::Null])],
        1
    )
    .is_none());
}

#[test]
fn csv_file_is_queried_as_target() {
    let csv = CsvUtill::new("/data/products-100.csv".to_string());
    assert_eq!(csv.file_path(), "/data/products-100.csv");
    assert_eq!(csv.table_name(), "target");
}

#[test]
fn test_csv_read() {
    let result_string = CsvUtill::record_batches_to_string(vec![products()]);

    println!("{}", result_string);

    assert!(result_string.contains("price"), "Expected output to include header 'price'");
}
