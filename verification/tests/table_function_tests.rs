//! Tests for the table-function protocol: registration, the staged
//! bind/init/execute lifecycle, its error paths, and destructor accounting.

use duckdb_extension_framework::{
    Cell, Connection, Database, DuckDBType, EngineError, ExecuteStep, LogicalType, QueryExecution,
    Stage, TableFunction, Value,
};

fn connect() -> Connection {
    let db = Database::new().unwrap();
    db.connect().unwrap()
}

fn complete_descriptor(name: &str) -> TableFunction {
    let mut tf = TableFunction::new();
    tf.set_name(name);
    tf.set_bind();
    tf.set_init();
    tf.set_function();
    tf
}

/// Drives the hello-world source: bind declares one varchar column, init
/// stores a "done" flag of zero, the first execute emits one row holding
/// `text` and flips the flag, the second publishes size zero.
fn run_hello_source(q: &mut QueryExecution, text: &str) {
    let mut bi = q.begin_bind();
    bi.add_result_column("column0", LogicalType::new(DuckDBType::Varchar));
    bi.set_cardinality(1, true);
    q.finish_bind(bi).unwrap();

    let mut ii = q.begin_init();
    ii.set_init_data(0, true);
    q.finish_init(ii).unwrap();

    loop {
        let (mut fi, mut chunk) = q.begin_execute();
        let done = fi.get_init_data().unwrap();
        if done == 1 {
            chunk.set_size(0);
        } else {
            let vector = chunk.get_vector_mut(0);
            vector.assign_string_element(0, text);
            chunk.set_size(1);
            fi.update_init_data(1);
        }
        match q.finish_execute(fi, chunk).unwrap() {
            ExecuteStep::Finished => break,
            ExecuteStep::Continue => {}
        }
    }
}

#[test]
fn test_integration_test_database_creation() {
    let db = Database::new().unwrap();
    let conn = db.connect().unwrap();

    let mut table_function = TableFunction::default();
    table_function.add_parameter(&LogicalType::new(DuckDBType::Json));
    table_function.set_name("read_json");
    table_function.supports_pushdown(false);
    table_function.set_function();
    table_function.set_init();
    table_function.set_bind();
    let mut conn = conn;
    conn.register_table_function(table_function).unwrap();

    assert_ne!(conn.get_ptr(), 0);

    // The query `select * from read_json('hello.json')`, as the binder
    // issues it: the registered function called with one constant argument.
    let mut q = conn
        .call_table_function("read_json", vec![Value::from_varchar("hello.json")])
        .unwrap();

    let mut bi = q.begin_bind();
    bi.add_result_column("column0", LogicalType::new(DuckDBType::Varchar));
    let param = bi.get_parameter(0).get_varchar();
    assert_eq!("hello.json", param.as_str());
    q.finish_bind(bi).unwrap();

    let mut ii = q.begin_init();
    ii.set_init_data(0, true);
    q.finish_init(ii).unwrap();

    loop {
        let (mut fi, mut chunk) = q.begin_execute();
        if fi.get_init_data().unwrap() == 1 {
            chunk.set_size(0);
        } else {
            chunk.get_vector_mut(0).assign_string_element(0, "hello world");
            chunk.set_size(1);
            fi.update_init_data(1);
        }
        if let Err(e) = q.finish_execute(fi, chunk) {
            panic!("error: {:?}", e);
        }
        if q.current_stage() == Stage::Drained {
            break;
        }
    }

    assert_eq!(q.row_count(), 1);
    let value = q.get_cell(0, 0);
    assert_eq!(value, &Cell::Text("hello world".to_string()));

    q.teardown();

    drop(conn);

    drop(db);
}

#[test]
fn test_hello_world_lifecycle() {
    let mut conn = connect();
    conn.register_table_function(complete_descriptor("source"))
        .unwrap();

    let mut q = conn.call_table_function("source", Vec::new()).unwrap();
    run_hello_source(&mut q, "hello world");

    assert_eq!(q.row_count(), 1);
    assert_eq!(q.row_width(0), 1);
    assert_eq!(q.get_cell(0, 0), &Cell::Text("hello world".to_string()));
    assert_eq!(q.get_cardinality(), Some((1, true)));
    assert_eq!(q.current_stage(), Stage::Drained);
}

#[test]
fn test_register_incomplete_function_fails() {
    let mut conn = connect();

    let mut tf = TableFunction::new();
    tf.set_name("incomplete");
    tf.set_bind();
    tf.set_init();
    // No execute stage supplied.
    assert_eq!(
        conn.register_table_function(tf),
        Err(EngineError::IncompleteFunction)
    );

    let unnamed = {
        let mut tf = TableFunction::new();
        tf.set_bind();
        tf.set_init();
        tf.set_function();
        tf
    };
    assert_eq!(
        conn.register_table_function(unnamed),
        Err(EngineError::IncompleteFunction)
    );
}

#[test]
fn test_register_duplicate_name_fails() {
    let mut conn = connect();
    conn.register_table_function(complete_descriptor("dup"))
        .unwrap();
    assert_eq!(
        conn.register_table_function(complete_descriptor("dup")),
        Err(EngineError::DuplicateFunctionName)
    );
}

#[test]
fn test_call_unknown_function_fails() {
    let conn = connect();
    let r = conn.call_table_function("nowhere", Vec::new());
    assert!(matches!(r, Err(EngineError::CatalogError)));
}

#[test]
fn test_argument_mismatch_fails() {
    let mut conn = connect();
    let mut tf = complete_descriptor("takes_int");
    tf.add_parameter(&LogicalType::new(DuckDBType::Integer));
    conn.register_table_function(tf).unwrap();

    // Wrong count.
    let r = conn.call_table_function("takes_int", Vec::new());
    assert!(matches!(r, Err(EngineError::BindingError)));

    // Wrong kind: a varchar does not fit an integer parameter.
    let r = conn.call_table_function("takes_int", vec![Value::from_varchar("5")]);
    assert!(matches!(r, Err(EngineError::BindingError)));
}

#[test]
fn test_bind_error_is_terminal() {
    let mut conn = connect();
    conn.register_table_function(complete_descriptor("failing"))
        .unwrap();

    let mut q = conn.call_table_function("failing", Vec::new()).unwrap();
    let mut bi = q.begin_bind();
    bi.set_error("no such file");
    let r = q.finish_bind(bi);
    assert_eq!(r, Err(EngineError::BindError("no such file".to_string())));
    assert_eq!(q.current_stage(), Stage::Failed);
    assert_eq!(q.get_error(), &Some("no such file".to_string()));
}

#[test]
fn test_bind_without_columns_fails() {
    let mut conn = connect();
    conn.register_table_function(complete_descriptor("empty_bind"))
        .unwrap();

    let mut q = conn.call_table_function("empty_bind", Vec::new()).unwrap();
    let bi = q.begin_bind();
    assert_eq!(q.finish_bind(bi), Err(EngineError::NoResultColumns));
    assert_eq!(q.current_stage(), Stage::Failed);
}

#[test]
fn test_init_error_is_terminal() {
    let mut conn = connect();
    conn.register_table_function(complete_descriptor("init_fails"))
        .unwrap();

    let mut q = conn.call_table_function("init_fails", Vec::new()).unwrap();
    let mut bi = q.begin_bind();
    bi.add_result_column("c", LogicalType::new(DuckDBType::Integer));
    q.finish_bind(bi).unwrap();

    let mut ii = q.begin_init();
    ii.set_error("cannot open scan".to_string());
    assert_eq!(
        q.finish_init(ii),
        Err(EngineError::InitError("cannot open scan".to_string()))
    );
    assert_eq!(q.current_stage(), Stage::Failed);
}

#[test]
fn test_execute_error_is_terminal() {
    let mut conn = connect();
    conn.register_table_function(complete_descriptor("exec_fails"))
        .unwrap();

    let mut q = conn.call_table_function("exec_fails", Vec::new()).unwrap();
    let mut bi = q.begin_bind();
    bi.add_result_column("c", LogicalType::new(DuckDBType::Integer));
    q.finish_bind(bi).unwrap();
    let ii = q.begin_init();
    q.finish_init(ii).unwrap();

    let (mut fi, chunk) = q.begin_execute();
    fi.set_error("disk went away");
    assert_eq!(
        q.finish_execute(fi, chunk),
        Err(EngineError::ExecuteError("disk went away".to_string()))
    );
    assert_eq!(q.current_stage(), Stage::Failed);
}

#[test]
fn test_init_sees_bind_data_and_projection() {
    let mut conn = connect();
    let mut tf = complete_descriptor("projected");
    tf.set_extra_info(77, false);
    conn.register_table_function(tf).unwrap();

    let mut q = conn.call_table_function("projected", Vec::new()).unwrap();
    let mut bi = q.begin_bind();
    assert_eq!(bi.get_extra_info(), Some(77));
    bi.add_result_column("a", LogicalType::new(DuckDBType::Integer));
    bi.add_result_column("b", LogicalType::new(DuckDBType::Varchar));
    bi.set_bind_data(123, true);
    q.finish_bind(bi).unwrap();

    let mut ii = q.begin_init();
    assert_eq!(ii.get_bind_data(), Some(123));
    assert_eq!(ii.get_extra_info(), Some(77));
    assert_eq!(ii.get_column_indices(), vec![0u64, 1u64]);
    ii.set_max_threads(4);
    q.finish_init(ii).unwrap();
    assert_eq!(q.get_max_threads(), 4);
}

#[test]
fn test_local_init_layers_thread_state() {
    let mut conn = connect();
    let mut tf = complete_descriptor("threaded");
    tf.set_local_init();
    conn.register_table_function(tf).unwrap();

    let mut q = conn.call_table_function("threaded", Vec::new()).unwrap();
    let mut bi = q.begin_bind();
    bi.add_result_column("c", LogicalType::new(DuckDBType::Integer));
    q.finish_bind(bi).unwrap();
    let mut ii = q.begin_init();
    ii.set_init_data(10, false);
    q.finish_init(ii).unwrap();

    let mut li = q.begin_local_init();
    assert_eq!(li.get_bind_data(), None);
    li.set_init_data(20, true);
    q.finish_local_init(li).unwrap();

    let (fi, mut chunk) = q.begin_execute();
    assert_eq!(fi.get_init_data(), Some(10));
    assert_eq!(fi.get_local_init_data(), Some(20));
    chunk.set_size(0);
    assert_eq!(q.finish_execute(fi, chunk), Ok(ExecuteStep::Finished));

    q.teardown();
    assert_eq!(q.local_init_destructor_runs(), 1);
    assert_eq!(q.init_destructor_runs(), 0);
}

#[test]
fn test_null_and_word_cells() {
    let mut conn = connect();
    conn.register_table_function(complete_descriptor("numbers"))
        .unwrap();

    let mut q = conn.call_table_function("numbers", Vec::new()).unwrap();
    let mut bi = q.begin_bind();
    bi.add_result_column("n", LogicalType::new(DuckDBType::Bigint));
    q.finish_bind(bi).unwrap();
    let mut ii = q.begin_init();
    ii.set_init_data(0, false);
    q.finish_init(ii).unwrap();

    let (mut fi, mut chunk) = q.begin_execute();
    {
        let v = chunk.get_vector_mut(0);
        v.set_data(0, 42);
        v.ensure_validity_writable();
        v.get_validity_mut().set_row_invalid(1);
        v.set_data(2, 7);
    }
    chunk.set_size(3);
    fi.update_init_data(1);
    assert_eq!(q.finish_execute(fi, chunk), Ok(ExecuteStep::Continue));

    let (fi, mut chunk) = q.begin_execute();
    chunk.set_size(0);
    assert_eq!(q.finish_execute(fi, chunk), Ok(ExecuteStep::Finished));

    assert_eq!(q.row_count(), 3);
    assert_eq!(q.get_cell(0, 0), &Cell::Word(42));
    assert_eq!(q.get_cell(1, 0), &Cell::Null);
    assert_eq!(q.get_cell(2, 0), &Cell::Word(7));
}

#[test]
fn test_destructors_run_exactly_once() {
    let mut conn = connect();
    conn.register_table_function(complete_descriptor("owned_state"))
        .unwrap();

    let mut q = conn.call_table_function("owned_state", Vec::new()).unwrap();
    let mut bi = q.begin_bind();
    bi.add_result_column("c", LogicalType::new(DuckDBType::Varchar));
    bi.set_bind_data(11, true);
    q.finish_bind(bi).unwrap();
    let mut ii = q.begin_init();
    ii.set_init_data(22, true);
    q.finish_init(ii).unwrap();

    assert_eq!(q.bind_destructor_runs(), 0);
    assert_eq!(q.init_destructor_runs(), 0);

    let (fi, mut chunk) = q.begin_execute();
    chunk.set_size(0);
    q.finish_execute(fi, chunk).unwrap();

    assert_eq!(q.bind_destructor_runs(), 0);
    assert_eq!(q.init_destructor_runs(), 0);

    q.teardown();
    assert_eq!(q.bind_destructor_runs(), 1);
    assert_eq!(q.init_destructor_runs(), 1);
    assert_eq!(q.local_init_destructor_runs(), 0);
}

#[test]
fn test_destructors_do_not_run_for_unreached_stages() {
    let mut conn = connect();
    conn.register_table_function(complete_descriptor("early_fail"))
        .unwrap();

    // The query fails at bind: no stage stored data, so no destructor runs
    // at teardown.
    let mut q = conn.call_table_function("early_fail", Vec::new()).unwrap();
    let mut bi = q.begin_bind();
    bi.set_error("bad arguments");
    let _ = q.finish_bind(bi);
    q.teardown();
    assert_eq!(q.bind_destructor_runs(), 0);
    assert_eq!(q.init_destructor_runs(), 0);
    assert_eq!(q.local_init_destructor_runs(), 0);
}

#[test]
fn test_payload_without_destructor_is_not_destroyed() {
    let mut conn = connect();
    conn.register_table_function(complete_descriptor("plain_state"))
        .unwrap();

    let mut q = conn.call_table_function("plain_state", Vec::new()).unwrap();
    let mut bi = q.begin_bind();
    bi.add_result_column("c", LogicalType::new(DuckDBType::Varchar));
    bi.set_bind_data(5, false);
    q.finish_bind(bi).unwrap();
    let mut ii = q.begin_init();
    ii.set_init_data(6, true);
    q.finish_init(ii).unwrap();

    q.teardown();
    assert_eq!(q.bind_destructor_runs(), 0);
    assert_eq!(q.init_destructor_runs(), 1);
}
