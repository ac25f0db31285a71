//! Tests for opening databases, with and without a configuration set, and
//! connecting to them.

use std::any::{Any, TypeId};

use duckdb_extension_framework::{Config, Connection, Database};

#[test]
fn database_test_database_creation() {
    let db = Database::new().unwrap();
    let conn = db.connect().unwrap();

    drop(db);

    assert_eq!(Any::type_id(&conn), TypeId::of::<Connection>());

    drop(conn);
}

#[test]
fn test_with_config() {
    let config = Config::new().unwrap();

    let db = Database::new_with_config(&config).unwrap();

    let conn = db.connect().unwrap();
    assert_ne!(conn.get_ptr(), 0);
}

#[test]
fn test_default_database_is_writable() {
    let db = Database::new().unwrap();
    let conn = db.connect().unwrap();

    assert_eq!(conn.begin_write(), Ok(()));
}
