//! The type-id discriminants of the engine's logical type system.

use vstd::prelude::*;

verus! {

/// The kind of a logical type: every column and constant value carries one of
/// these discriminants. The scalar kinds describe a value directly; `List`,
/// `Struct`, `Union`, `Map` and `Enum` are composite kinds whose full
/// description also needs child types.
#[derive(Clone, Copy, Debug, PartialEq, Eq, Structural)]
pub enum DuckDBType {
    Boolean,
    Tinyint,
    Smallint,
    Integer,
    Bigint,
    Utinyint,
    Usmallint,
    Uinteger,
    Ubigint,
    Float,
    Double,
    Timestamp,
    Date,
    Time,
    Interval,
    Hugeint,
    Varchar,
    Blob,
    Decimal,
    TimestampS,
    TimestampMs,
    TimestampNs,
    Enum,
    List,
    Struct,
    MapType,
    Uuid,
    Union,
    Json,
}

/// The historical name of the discriminant enum.
pub type LogicalTypeId = DuckDBType;

impl DuckDBType {
    /// A simple kind describes a value on its own; the remaining kinds are
    /// composite and need child types (or, for `Enum`, a dictionary).
    pub open spec fn spec_is_simple(self) -> bool {
        !(self is List || self is Struct || self is Union || self is MapType || self is Enum)
    }

    /// Returns whether this kind is simple (non-composite).
    #[verifier::when_used_as_spec(spec_is_simple)]
    pub fn is_simple(self) -> (r: bool)
        ensures
            r == self.spec_is_simple(),
    {
        !(matches!(self, DuckDBType::List)
            || matches!(self, DuckDBType::Struct)
            || matches!(self, DuckDBType::Union)
            || matches!(self, DuckDBType::MapType)
            || matches!(self, DuckDBType::Enum))
    }

    /// A kind whose physical storage is out-of-line text rather than a
    /// fixed-width word.
    pub open spec fn spec_is_text(self) -> bool {
        self is Varchar || self is Blob || self is Json
    }

    /// Returns whether values of this kind are stored as out-of-line text.
    #[verifier::when_used_as_spec(spec_is_text)]
    pub fn is_text(self) -> (r: bool)
        ensures
            r == self.spec_is_text(),
    {
        matches!(self, DuckDBType::Varchar)
            || matches!(self, DuckDBType::Blob)
            || matches!(self, DuckDBType::Json)
    }
}

} // verus!
