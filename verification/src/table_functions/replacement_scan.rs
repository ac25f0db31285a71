//! The replacement-scan info handle: where a replacement callback redirects
//! an unresolved table reference to a table function.

use vstd::prelude::*;

use crate::text::opt_text;
use crate::value::Value;

verus! {

/// The mathematical content of a replacement-scan handle.
pub struct ReplacementScanInfoModel {
    /// The literal text of the unresolved table reference.
    pub table_name: Seq<char>,
    /// The table function the reference should resolve to, once set.
    pub function_name: Option<Seq<char>>,
    /// The constant parameters to call that function with, in order.
    pub parameters: Seq<Value>,
    /// The error message, if the callback reported failure.
    pub error: Option<Seq<char>>,
}

/// An interface used inside a replacement-scan callback, valid only for
/// that invocation.
///
/// The callback sees the unresolved table reference and chooses exactly one
/// outcome: set a function name (optionally with constant parameters) to
/// redirect resolution, report an error to fail the query, or leave the
/// handle untouched to decline, letting normal resolution fail.
pub struct ReplacementScanInfo {
    table_name: String,
    function_name: Option<String>,
    parameters: Vec<Value>,
    error: Option<String>,
}

impl View for ReplacementScanInfo {
    type V = ReplacementScanInfoModel;

    closed spec fn view(&self) -> ReplacementScanInfoModel {
        ReplacementScanInfoModel {
            table_name: self.table_name@,
            function_name: match self.function_name {
                Option::Some(n) => Option::Some(n@),
                Option::None => Option::None,
            },
            parameters: self.parameters@,
            error: match self.error {
                Option::Some(e) => Option::Some(e@),
                Option::None => Option::None,
            },
        }
    }
}

impl ReplacementScanInfo {
    /// A fresh handle for one callback invocation over the given
    /// unresolved table reference.
    pub(crate) fn new(table_name: String) -> (r: ReplacementScanInfo)
        ensures
            r@ == (ReplacementScanInfoModel {
                table_name: table_name@,
                function_name: Option::None,
                parameters: Seq::empty(),
                error: Option::None,
            }),
    {
        let r = ReplacementScanInfo {
            table_name,
            function_name: Option::None,
            parameters: Vec::new(),
            error: Option::None,
        };
        proof {
            assert(r@.parameters =~= Seq::<Value>::empty());
        }
        r
    }

    /// The literal text of the table reference being resolved.
    pub fn get_table_name(&self) -> (r: &String)
        ensures
            r@ == self@.table_name,
    {
        &self.table_name
    }

    /// Sets the replacement function name to use. If this is called in the
    /// replacement callback, the replacement scan is performed; if not, the
    /// callback declines.
    pub fn set_function_name(&mut self, function_name: &str)
        requires
            !function_name@.contains('\u{0}'),
        ensures
            final(self)@ == (ReplacementScanInfoModel {
                function_name: Option::Some(function_name@),
                ..old(self)@
            }),
    {
        self.function_name = Option::Some(function_name.to_owned());
    }

    /// Adds a constant parameter for the replacement function call.
    pub fn add_parameter(&mut self, parameter: Value)
        ensures
            final(self)@ == (ReplacementScanInfoModel {
                parameters: old(self)@.parameters.push(parameter),
                ..old(self)@
            }),
    {
        self.parameters.push(parameter);
    }

    /// Reports that an error occurred during the replacement scan; the
    /// query fails with this message.
    pub fn set_error(&mut self, error: &str)
        requires
            !error@.contains('\u{0}'),
        ensures
            final(self)@ == (ReplacementScanInfoModel {
                error: Option::Some(error@),
                ..old(self)@
            }),
    {
        self.error = Option::Some(error.to_owned());
    }

    /// Takes the handle apart when the callback returns, handing the engine
    /// the chosen outcome: the replacement function name, its parameters,
    /// and the error.
    pub(crate) fn into_parts(self) -> (r: (Option<String>, Vec<Value>, Option<String>))
        ensures
            opt_text(r.0) == self@.function_name,
            r.1@ == self@.parameters,
            opt_text(r.2) == self@.error,
    {
        let ReplacementScanInfo { function_name, parameters, error, .. } = self;
        (function_name, parameters, error)
    }
}

} // verus!
