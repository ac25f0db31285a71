//! Tests for data chunks, vectors and validity masks: construction, size
//! publishing, reset, fixed-width and string writes, and the null bitmap.

use duckdb_extension_framework::{DataChunk, DuckDBType, LogicalType, VECTOR_SIZE};

#[test]
fn test_data_chunk_construction() {
    let dc = DataChunk::new(vec![LogicalType::new(DuckDBType::Integer)]);

    assert_eq!(dc.get_column_count(), 1);

    drop(dc);
}

#[test]
fn test_vector() {
    let mut datachunk = DataChunk::new(vec![LogicalType::new(DuckDBType::Bigint)]);
    let vector = datachunk.get_vector_mut(0);

    vector.set_data(0, 42);

    assert_eq!(vector.get_data(0), 42);
    assert_eq!(vector.get_data_as_slice()[0], 42);
}

#[test]
fn test_fresh_chunk_has_declared_columns_and_size_zero() {
    let types = vec![
        LogicalType::new(DuckDBType::Integer),
        LogicalType::new(DuckDBType::Varchar),
        LogicalType::new(DuckDBType::Double),
    ];
    let dc = DataChunk::new(types);

    assert_eq!(dc.get_column_count(), 3);
    assert_eq!(dc.get_size(), 0);
}

#[test]
fn test_set_size_and_reset() {
    let mut dc = DataChunk::new(vec![LogicalType::new(DuckDBType::Integer)]);

    dc.set_size(7);
    assert_eq!(dc.get_size(), 7);

    dc.set_size(VECTOR_SIZE);
    assert_eq!(dc.get_size(), VECTOR_SIZE);

    let v = dc.get_vector_mut(0);
    v.ensure_validity_writable();
    v.get_validity_mut().set_row_invalid(3);
    assert!(!v.get_validity().row_is_valid(3));

    dc.reset();
    assert_eq!(dc.get_size(), 0);

    let v = dc.get_vector(0);
    let mask = v.get_validity();
    let mut row: usize = 0;
    while row < 16 {
        assert!(mask.row_is_valid(row));
        row += 1;
    }
}

#[test]
fn test_validity_round_trip() {
    let mut dc = DataChunk::new(vec![LogicalType::new(DuckDBType::Integer)]);
    let v = dc.get_vector_mut(0);

    // Before any write, every row defaults to valid.
    assert!(v.get_validity().row_is_valid(0));
    assert!(v.get_validity().row_is_valid(5));

    v.ensure_validity_writable();
    let mask = v.get_validity_mut();
    mask.set_row_invalid(5);

    let mut row: usize = 0;
    while row < 64 {
        assert_eq!(mask.row_is_valid(row), row != 5);
        row += 1;
    }

    mask.set_row_valid(5);
    let mut row: usize = 0;
    while row < 64 {
        assert!(mask.row_is_valid(row));
        row += 1;
    }

    mask.set_row_validity(63, false);
    mask.set_row_validity(64, false);
    assert!(!mask.row_is_valid(63));
    assert!(!mask.row_is_valid(64));
    assert!(mask.row_is_valid(62));
    assert!(mask.row_is_valid(65));
}

#[test]
fn test_writes_to_absent_mask_are_ignored() {
    let mut dc = DataChunk::new(vec![LogicalType::new(DuckDBType::Integer)]);
    let v = dc.get_vector_mut(0);

    // Without ensure_validity_writable, marking a row invalid is a no-op.
    let mask = v.get_validity_mut();
    mask.set_row_invalid(2);
    assert!(mask.row_is_valid(2));

    v.ensure_validity_writable();
    let mask = v.get_validity_mut();
    mask.set_row_invalid(2);
    assert!(!mask.row_is_valid(2));
}

#[test]
fn test_assign_string_element() {
    let mut dc = DataChunk::new(vec![LogicalType::new(DuckDBType::Varchar)]);
    let v = dc.get_vector_mut(0);

    v.assign_string_element(0, "hello world");
    v.assign_string_element_len(1, "hello world", 5);

    assert_eq!(v.get_string(0).as_str(), "hello world");
    assert_eq!(v.get_string(1).as_str(), "hello");
    assert_eq!(v.get_string(2).as_str(), "");
}

#[test]
fn test_get_column_type() {
    let dc = DataChunk::new(vec![
        LogicalType::new(DuckDBType::Varchar),
        LogicalType::new(DuckDBType::Bigint),
    ]);
    assert_eq!(dc.get_vector(0).get_column_type().type_id(), DuckDBType::Varchar);
    assert_eq!(dc.get_vector(1).get_column_type().type_id(), DuckDBType::Bigint);
}

#[test]
fn test_validity_render() {
    let mut dc = DataChunk::new(vec![LogicalType::new(DuckDBType::Integer)]);
    let v = dc.get_vector_mut(0);
    v.ensure_validity_writable();
    let mask = v.get_validity_mut();
    mask.set_row_invalid(1);

    let text = mask.render();
    assert_eq!(text.len(), VECTOR_SIZE);
    assert!(text.starts_with(".X.."));
    assert!(text[2..].chars().all(|c| c == '.'));
}
