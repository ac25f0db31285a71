//! The typed failures that the library's fallible operations report.

use vstd::prelude::*;

verus! {

/// Every fallible operation of the library reports one of these typed
/// failures instead of terminating the process.
///
/// The first group are construction errors, raised before any engine state is
/// touched; the second group are engine-reported errors; the callback
/// variants carry the message a callback wrote into its info object.
#[derive(Clone, Debug, PartialEq, Eq)]
pub enum EngineError {
    /// A name or message holds an embedded NUL and cannot cross the
    /// engine boundary as null-terminated text.
    EmbeddedNul,
    /// A struct or union type was built from an empty member set.
    EmptyTypeShape,
    /// A struct or union type was built with two members of the same name.
    DuplicateMemberName,
    /// A configuration flag name the engine does not recognize.
    UnknownConfigFlag,
    /// A recognized configuration flag was given a value the engine rejects.
    InvalidConfigValue,
    /// A table function was registered without a name, bind, init or
    /// execute stage.
    IncompleteFunction,
    /// A table function's name collides with one already registered.
    DuplicateFunctionName,
    /// A table reference or function name that resolves to nothing.
    CatalogError,
    /// The arguments of a call do not match the declared parameters.
    BindingError,
    /// The operation writes, but the database was opened read-only.
    ReadOnly,
    /// The bind callback reported failure with this message.
    BindError(String),
    /// The init or local-init callback reported failure with this message.
    InitError(String),
    /// The execute callback reported failure with this message.
    ExecuteError(String),
    /// The replacement-scan callback reported failure with this message.
    ReplacementScanError(String),
    /// The bind stage declared no result columns.
    NoResultColumns,
}

} // verus!
