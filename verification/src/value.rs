//! A single dynamically-typed scalar value, as the engine supplies for
//! constant function arguments.

use vstd::prelude::*;

use crate::constants::DuckDBType;

verus! {

/// A boxed scalar of any storable type. The engine produces these when it
/// hands constant arguments to a function; the extension reads them and may
/// copy them into a replacement scan's parameter list.
///
/// The model carries the value's kind and its text rendering, which is what
/// the read-back operation exposes.
pub struct Value {
    kind: DuckDBType,
    text: String,
}

impl Value {
    /// The value's type kind.
    pub closed spec fn kind(&self) -> DuckDBType {
        self.kind
    }

    /// The value's text rendering.
    pub closed spec fn text(&self) -> Seq<char> {
        self.text@
    }

    /// Creates a varchar value holding the given text.
    pub fn from_varchar(text: &str) -> (r: Value)
        ensures
            r.kind() == DuckDBType::Varchar,
            r.text() == text@,
    {
        Value { kind: DuckDBType::Varchar, text: text.to_owned() }
    }

    /// The value's type kind, for the engine's argument checks.
    pub(crate) fn type_of(&self) -> (r: DuckDBType)
        ensures
            r == self.kind(),
    {
        self.kind
    }

    /// Obtains the string representation of the value.
    pub fn get_varchar(&self) -> (r: String)
        ensures
            r@ == self.text(),
    {
        self.text.clone()
    }
}

impl Clone for Value {
    /// A copy holding the same kind and text.
    fn clone(&self) -> (res: Self)
        ensures
            res.kind() == self.kind(),
            res.text() == self.text(),
    {
        Value { kind: self.kind, text: self.text.clone() }
    }
}

} // verus!
