//! A verified model of an embedded analytical engine's extension surface:
//! the logical type system, columnar batches (vectors, validity masks, data
//! chunks), the table-function registration protocol with its staged
//! bind/init/execute lifecycle, and the replacement-scan hook.

mod config;
mod connection;
mod constants;
mod data_chunk;
mod database;
mod error;
mod logical_type;
mod scalar_function;
mod table_function;
pub mod table_functions;
mod text;
mod value;
mod vector;

pub use crate::config::{
    flag_accepted, flag_error, flag_lookup, get_configs, is_known_flag, valid_access_mode, Config,
    ConfigItem, ConfigList,
};
pub use crate::connection::{arguments_match, catalog_lookup, Connection, ConnectionModel};
pub use crate::constants::{DuckDBType, LogicalTypeId};
pub use crate::data_chunk::DataChunk;
pub use crate::database::{Database, ReplacementScanHook};
pub use crate::error::EngineError;
pub use crate::logical_type::{
    lemma_composite_type_reports_kind, lemma_new_type_reports_kind, shape_admissible, shape_model,
    LogicalType, TypeModel,
};
pub use crate::scalar_function::{ScalarFunction, ScalarFunctionBuilder, ScalarFunctionModel};
pub use crate::table_function::{TableFunction, TableFunctionModel};
pub use crate::table_functions::{
    BindInfo, BindInfoModel, Cell, ExecuteStep, FunctionInfo, FunctionInfoModel, InitInfo,
    InitInfoModel, QueryExecution, ReplacementScanInfo, ReplacementScanInfoModel, Stage,
};
pub use crate::text::opt_text;
pub use crate::value::Value;
pub use crate::vector::{
    lemma_set_row_isolated, word_bit, ValidityMask, Vector, VALIDITY_WORDS, VECTOR_SIZE,
};
