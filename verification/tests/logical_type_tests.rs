//! Tests for the logical type system: simple and composite construction,
//! type-id read-back, and the shape checks of struct and union types.

use duckdb_extension_framework::{DuckDBType, EngineError, LogicalType, LogicalTypeId};

#[test]
fn test_logi() {
    let key = LogicalType::new(LogicalTypeId::Varchar);

    let value = LogicalType::new(LogicalTypeId::Utinyint);

    let map = LogicalType::new_map_type(&key, &value);

    assert_eq!(map.type_id(), LogicalTypeId::MapType);

    let union_ = LogicalType::new_union_type(vec![
        ("number".to_string(), LogicalType::new(LogicalTypeId::Bigint)),
        ("string".to_string(), LogicalType::new(LogicalTypeId::Varchar)),
    ])
    .unwrap();
    assert_eq!(union_.type_id(), LogicalTypeId::Union);

    let struct_ = LogicalType::new_struct_type(vec![
        ("number".to_string(), LogicalType::new(LogicalTypeId::Bigint)),
        ("string".to_string(), LogicalType::new(LogicalTypeId::Varchar)),
    ])
    .unwrap();
    assert_eq!(struct_.type_id(), LogicalTypeId::Struct);
}

#[test]
fn test_simple_kind_round_trip() {
    let kinds = vec![
        DuckDBType::Boolean,
        DuckDBType::Tinyint,
        DuckDBType::Smallint,
        DuckDBType::Integer,
        DuckDBType::Bigint,
        DuckDBType::Utinyint,
        DuckDBType::Usmallint,
        DuckDBType::Uinteger,
        DuckDBType::Ubigint,
        DuckDBType::Float,
        DuckDBType::Double,
        DuckDBType::Timestamp,
        DuckDBType::Date,
        DuckDBType::Time,
        DuckDBType::Interval,
        DuckDBType::Hugeint,
        DuckDBType::Varchar,
        DuckDBType::Blob,
        DuckDBType::Decimal,
        DuckDBType::TimestampS,
        DuckDBType::TimestampMs,
        DuckDBType::TimestampNs,
        DuckDBType::Uuid,
        DuckDBType::Json,
    ];
    for kind in kinds {
        let t = LogicalType::new(kind);
        assert_eq!(t.type_id(), kind);
    }
}

#[test]
fn test_empty_struct_shape_fails() {
    let r = LogicalType::new_struct_type(Vec::new());
    assert_eq!(r.err(), Some(EngineError::EmptyTypeShape));
}

#[test]
fn test_empty_union_shape_fails() {
    let r = LogicalType::new_union_type(Vec::new());
    assert_eq!(r.err(), Some(EngineError::EmptyTypeShape));
}

#[test]
fn test_duplicate_member_name_fails() {
    let r = LogicalType::new_struct_type(vec![
        ("x".to_string(), LogicalType::new(DuckDBType::Integer)),
        ("x".to_string(), LogicalType::new(DuckDBType::Varchar)),
    ]);
    assert_eq!(r.err(), Some(EngineError::DuplicateMemberName));
}

#[test]
fn test_member_name_with_nul_fails() {
    let r = LogicalType::new_union_type(vec![(
        "bad\0name".to_string(),
        LogicalType::new(DuckDBType::Integer),
    )]);
    assert_eq!(r.err(), Some(EngineError::EmbeddedNul));
}

#[test]
fn test_list_type_id() {
    let child = LogicalType::new(DuckDBType::Integer);
    let list = LogicalType::new_list_type(&child);
    assert_eq!(list.type_id(), DuckDBType::List);
    assert_eq!(child.type_id(), DuckDBType::Integer);
}

#[test]
fn test_clone_is_deep_and_exact() {
    let key = LogicalType::new(DuckDBType::Varchar);
    let value = LogicalType::new(DuckDBType::Bigint);
    let map = LogicalType::new_map_type(&key, &value);

    let copy = map.clone();
    assert_eq!(copy.type_id(), DuckDBType::MapType);

    let nested = LogicalType::new_struct_type(vec![
        ("m".to_string(), map),
        ("l".to_string(), LogicalType::new_list_type(&value)),
    ])
    .unwrap();
    let nested_copy = nested.clone();
    assert_eq!(nested_copy.type_id(), DuckDBType::Struct);
}
