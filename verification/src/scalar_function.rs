//! The scalar-function builder: the simpler two-stage contract of an
//! optional bind and a mandatory batch-transform execute stage.

use vstd::prelude::*;

use crate::constants::DuckDBType;
use crate::error::EngineError;

verus! {

/// The mathematical content of a scalar-function declaration.
pub struct ScalarFunctionModel {
    /// The function's catalog name.
    pub name: Seq<char>,
    /// The declared return type kind.
    pub return_type: DuckDBType,
    /// Whether a bind stage was supplied.
    pub has_bind: bool,
    /// Whether the batch-transform execute stage was supplied.
    pub has_function: bool,
}

/// A declared scalar function: name, return type, and which stages the
/// extension supplies. Unlike a table function it has no init fan-out; an
/// optional bind produces per-call bound data, then the pure batch
/// transform maps a chunk of argument vectors to one result vector.
pub struct ScalarFunction {
    name: String,
    return_type: DuckDBType,
    has_bind: bool,
}

impl ScalarFunction {
    /// The function's catalog name.
    pub closed spec fn name(&self) -> Seq<char> {
        self.name@
    }

    /// The declared return type kind.
    pub closed spec fn return_type(&self) -> DuckDBType {
        self.return_type
    }

    /// Whether a bind stage was supplied.
    pub closed spec fn has_bind(&self) -> bool {
        self.has_bind
    }
}

/// Builds a scalar function declaration stage by stage.
pub struct ScalarFunctionBuilder {
    name: String,
    return_type: DuckDBType,
    has_bind: bool,
    has_function: bool,
}

impl View for ScalarFunctionBuilder {
    type V = ScalarFunctionModel;

    closed spec fn view(&self) -> ScalarFunctionModel {
        ScalarFunctionModel {
            name: self.name@,
            return_type: self.return_type,
            has_bind: self.has_bind,
            has_function: self.has_function,
        }
    }
}

impl ScalarFunctionBuilder {
    /// Starts a declaration with the function's name and return type.
    pub fn new(function_name: &str, return_type: DuckDBType) -> (r: ScalarFunctionBuilder)
        ensures
            r@ == (ScalarFunctionModel {
                name: function_name@,
                return_type,
                has_bind: false,
                has_function: false,
            }),
    {
        ScalarFunctionBuilder {
            name: function_name.to_owned(),
            return_type,
            has_bind: false,
            has_function: false,
        }
    }

    /// Declares that the extension supplies the batch-transform execute
    /// stage.
    pub fn set_function(&mut self)
        ensures
            final(self)@ == (ScalarFunctionModel { has_function: true, ..old(self)@ }),
    {
        self.has_function = true;
    }

    /// Declares that the extension supplies the optional bind stage.
    pub fn set_bind(&mut self)
        ensures
            final(self)@ == (ScalarFunctionModel { has_bind: true, ..old(self)@ }),
    {
        self.has_bind = true;
    }

    /// Finishes the declaration. Fails exactly when no execute stage was
    /// supplied: the batch transform is mandatory, the bind stage is not.
    pub fn build(self) -> (r: Result<ScalarFunction, EngineError>)
        ensures
            r is Ok <==> self@.has_function,
            r matches Ok(f) ==> f.name() == self@.name && f.return_type() == self@.return_type
                && f.has_bind() == self@.has_bind,
            r matches Err(e) ==> e == EngineError::IncompleteFunction,
    {
        if !self.has_function {
            return Result::Err(EngineError::IncompleteFunction);
        }
        let ScalarFunctionBuilder { name, return_type, has_bind, .. } = self;
        Result::Ok(ScalarFunction { name, return_type, has_bind })
    }
}

} // verus!
