//! Tests for the replacement-scan hook: redirecting an unresolved table
//! reference to a table function, declining, and failing.

use duckdb_extension_framework::{
    Cell, DuckDBType, EngineError, ExecuteStep, LogicalType, Stage, TableFunction, Value,
    Database,
};

fn read_csv_descriptor() -> TableFunction {
    let mut tf = TableFunction::new();
    tf.set_name("read_csv");
    tf.add_parameter(&LogicalType::new(DuckDBType::Varchar));
    tf.set_bind();
    tf.set_init();
    tf.set_function();
    tf
}

#[test]
fn test_replacement_scan_redirects() {
    let mut db = Database::new().unwrap();
    db.add_replacement_scan(Some(9), false);

    let mut conn = db.connect().unwrap();
    conn.register_table_function(read_csv_descriptor()).unwrap();

    // The query `select * from "hello.csv"`: the reference resolves to
    // nothing, so the engine hands it to the registered callback.
    let mut info = conn.resolve_table_reference("hello.csv").unwrap();

    // The callback: redirect the reference to read_csv with the file name
    // as its argument.
    let table_name = info.get_table_name().clone();
    assert_eq!(table_name.as_str(), "hello.csv");
    info.set_function_name("read_csv");
    info.add_parameter(Value::from_varchar(table_name.as_str()));

    // The query now resolves as `select * from read_csv('hello.csv')`.
    let mut q = conn.finish_replacement(info).unwrap();
    let mut bi = q.begin_bind();
    assert_eq!(bi.get_parameter_count(), 1);
    assert_eq!(bi.get_parameter(0).get_varchar().as_str(), "hello.csv");
    bi.add_result_column("line", LogicalType::new(DuckDBType::Varchar));
    q.finish_bind(bi).unwrap();

    let mut ii = q.begin_init();
    ii.set_init_data(0, true);
    q.finish_init(ii).unwrap();

    loop {
        let (mut fi, mut chunk) = q.begin_execute();
        if fi.get_init_data().unwrap() == 1 {
            chunk.set_size(0);
        } else {
            chunk.get_vector_mut(0).assign_string_element(0, "first line");
            chunk.set_size(1);
            fi.update_init_data(1);
        }
        if q.finish_execute(fi, chunk).unwrap() == ExecuteStep::Finished {
            break;
        }
    }

    assert_eq!(q.row_count(), 1);
    assert_eq!(q.get_cell(0, 0), &Cell::Text("first line".to_string()));
    assert_eq!(q.current_stage(), Stage::Drained);
}

#[test]
fn test_replacement_scan_decline_falls_through() {
    let mut db = Database::new().unwrap();
    db.add_replacement_scan(None, false);
    let conn = db.connect().unwrap();

    let info = conn.resolve_table_reference("mystery.bin").unwrap();
    // The callback leaves the handle untouched: normal resolution fails.
    let r = conn.finish_replacement(info);
    assert!(matches!(r, Err(EngineError::CatalogError)));
}

#[test]
fn test_replacement_scan_error_fails_query() {
    let mut db = Database::new().unwrap();
    db.add_replacement_scan(None, true);
    let conn = db.connect().unwrap();

    let mut info = conn.resolve_table_reference("broken.csv").unwrap();
    info.set_error("unsupported file");
    let r = conn.finish_replacement(info);
    assert_eq!(
        r.err(),
        Some(EngineError::ReplacementScanError("unsupported file".to_string()))
    );
}

#[test]
fn test_no_hook_means_unresolved() {
    let db = Database::new().unwrap();
    let conn = db.connect().unwrap();

    let r = conn.resolve_table_reference("hello.csv");
    assert!(matches!(r, Err(EngineError::CatalogError)));
}

#[test]
fn test_replacement_to_unknown_function_fails() {
    let mut db = Database::new().unwrap();
    db.add_replacement_scan(None, false);
    let conn = db.connect().unwrap();

    let mut info = conn.resolve_table_reference("hello.csv").unwrap();
    info.set_function_name("read_csv");
    let r = conn.finish_replacement(info);
    assert!(matches!(r, Err(EngineError::CatalogError)));
}
