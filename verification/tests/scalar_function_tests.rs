//! Tests for the scalar-function builder.

use duckdb_extension_framework::{DuckDBType, EngineError, LogicalTypeId, ScalarFunctionBuilder};

#[test]
fn test_basic() {
    let function_name = "test_function";

    let return_type = LogicalTypeId::Varchar;

    let mut sfb = ScalarFunctionBuilder::new(function_name, return_type);

    sfb.set_bind();
    sfb.set_function();

    sfb.build().unwrap();
}

#[test]
fn test_build_without_function_fails() {
    let mut sfb = ScalarFunctionBuilder::new("half_done", DuckDBType::Integer);
    sfb.set_bind();
    let r = sfb.build();
    assert!(matches!(r, Err(EngineError::IncompleteFunction)));
}

#[test]
fn test_bind_stage_is_optional() {
    let mut sfb = ScalarFunctionBuilder::new("no_bind", DuckDBType::Double);
    sfb.set_function();
    assert!(sfb.build().is_ok());
}
