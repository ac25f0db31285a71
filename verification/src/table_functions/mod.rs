//! The table-function protocol: the call-scoped info handles for each stage
//! and the staged query lifecycle that drives them.

mod bind_info;
mod function_info;
mod init_info;
mod lifecycle;
mod replacement_scan;

pub use self::bind_info::{BindInfo, BindInfoModel};
pub use self::function_info::{FunctionInfo, FunctionInfoModel};
pub use self::init_info::{InitInfo, InitInfoModel};
pub use self::lifecycle::{cell_matches, row_matches, lemma_destructors_run_once, Cell, ExecuteStep, QueryExecution, QueryModel, Stage};
pub use self::replacement_scan::{ReplacementScanInfo, ReplacementScanInfoModel};
pub use crate::table_function::TableFunction;
