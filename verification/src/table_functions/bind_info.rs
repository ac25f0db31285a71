//! The bind-stage info handle: where the bind callback declares result
//! columns, reads constant parameters, and stores its bind data.

use vstd::prelude::*;

use crate::logical_type::{LogicalType, TypeModel};
use crate::text::opt_text;
use crate::value::Value;

verus! {

/// The mathematical content of a bind-stage handle.
pub struct BindInfoModel {
    /// The constant positional arguments the engine supplies.
    pub parameters: Seq<Value>,
    /// The descriptor's extra-info payload, if any.
    pub extra_info: Option<u64>,
    /// The result columns declared so far, in output order.
    pub result_columns: Seq<(Seq<char>, TypeModel)>,
    /// The opaque bind-data payload, once stored.
    pub bind_data: Option<u64>,
    /// Whether a destructor was registered for the bind data.
    pub bind_data_has_destructor: bool,
    /// The cardinality estimate, once set, with its exactness flag.
    pub cardinality: Option<(u64, bool)>,
    /// The error message, if the callback reported failure.
    pub error: Option<Seq<char>>,
}

/// An interface to store and retrieve data during the function bind stage.
///
/// The engine hands one of these to the bind callback; it is valid only for
/// that invocation. The callback declares all result columns (their order is
/// the output column order), may read the positional constant parameters,
/// may set a cardinality estimate, and stores arbitrary bind data for later
/// stages to read back read-only. Reporting an error makes the stage
/// terminal for the query.
pub struct BindInfo {
    parameters: Vec<Value>,
    extra_info: Option<u64>,
    result_columns: Vec<(String, LogicalType)>,
    bind_data: Option<u64>,
    bind_data_has_destructor: bool,
    cardinality: Option<(u64, bool)>,
    error: Option<String>,
}

impl View for BindInfo {
    type V = BindInfoModel;

    closed spec fn view(&self) -> BindInfoModel {
        BindInfoModel {
            parameters: self.parameters@,
            extra_info: self.extra_info,
            result_columns: self.result_columns@.map_values(
                |c: (String, LogicalType)| (c.0@, c.1@),
            ),
            bind_data: self.bind_data,
            bind_data_has_destructor: self.bind_data_has_destructor,
            cardinality: self.cardinality,
            error: match self.error {
                Option::Some(e) => Option::Some(e@),
                Option::None => Option::None,
            },
        }
    }
}

impl BindInfo {
    /// A fresh handle for one bind invocation, seeded with the call's
    /// constant arguments and the descriptor's extra-info payload.
    pub(crate) fn new(parameters: Vec<Value>, extra_info: Option<u64>) -> (r: BindInfo)
        ensures
            r@ == (BindInfoModel {
                parameters: parameters@,
                extra_info,
                result_columns: Seq::empty(),
                bind_data: Option::None,
                bind_data_has_destructor: false,
                cardinality: Option::None,
                error: Option::None,
            }),
    {
        let r = BindInfo {
            parameters,
            extra_info,
            result_columns: Vec::new(),
            bind_data: Option::None,
            bind_data_has_destructor: false,
            cardinality: Option::None,
            error: Option::None,
        };
        proof {
            assert(r@.result_columns =~= Seq::<(Seq<char>, TypeModel)>::empty());
        }
        r
    }

    /// Adds a result column to the output of the table function, taking
    /// ownership of its type.
    pub fn add_result_column(&mut self, column_name: &str, column_type: LogicalType)
        requires
            !column_name@.contains('\u{0}'),
        ensures
            final(self)@ == (BindInfoModel {
                result_columns: old(self)@.result_columns.push((column_name@, column_type@)),
                ..old(self)@
            }),
    {
        self.result_columns.push((column_name.to_owned(), column_type));
        proof {
            assert(self@.result_columns =~= old(self)@.result_columns.push(
                (column_name@, self.result_columns@.last().1@),
            ));
        }
    }

    /// Reports that an error occurred while binding; the query's
    /// compilation aborts with this message and no further stage runs.
    pub fn set_error(&mut self, error: &str)
        requires
            !error@.contains('\u{0}'),
        ensures
            final(self)@ == (BindInfoModel { error: Option::Some(error@), ..old(self)@ }),
    {
        self.error = Option::Some(error.to_owned());
    }

    /// Stores the opaque bind-data payload for later stages to read back,
    /// with or without a destructor for the engine to run at teardown.
    pub fn set_bind_data(&mut self, data: u64, has_destructor: bool)
        ensures
            final(self)@ == (BindInfoModel {
                bind_data: Option::Some(data),
                bind_data_has_destructor: has_destructor,
                ..old(self)@
            }),
    {
        self.bind_data = Option::Some(data);
        self.bind_data_has_destructor = has_destructor;
    }

    /// Retrieves the number of regular (non-named) parameters of the call.
    pub fn get_parameter_count(&self) -> (r: u64)
        ensures
            r == self@.parameters.len(),
    {
        self.parameters.len() as u64
    }

    /// Retrieves a copy of the constant parameter at `param_index`.
    pub fn get_parameter(&self, param_index: u64) -> (r: Value)
        requires
            param_index < self@.parameters.len(),
        ensures
            r.kind() == self@.parameters[param_index as int].kind(),
            r.text() == self@.parameters[param_index as int].text(),
    {
        let n = self.parameters.len();
        let idx = param_index as usize;
        proof {
            assert(param_index < n as u64);
        }
        self.parameters[idx].clone()
    }

    /// Sets the cardinality estimate the optimizer may use, and whether it
    /// is exact.
    pub fn set_cardinality(&mut self, cardinality: u64, is_exact: bool)
        ensures
            final(self)@ == (BindInfoModel {
                cardinality: Option::Some((cardinality, is_exact)),
                ..old(self)@
            }),
    {
        self.cardinality = Option::Some((cardinality, is_exact));
    }

    /// Retrieves the descriptor's extra-info payload, if one was attached.
    pub fn get_extra_info(&self) -> (r: Option<u64>)
        ensures
            r == self@.extra_info,
    {
        self.extra_info
    }

    /// Takes the handle apart when its invocation returns, handing the
    /// engine what the callback left behind: result columns, bind data and
    /// its destructor flag, the cardinality estimate, and the error.
    pub(crate) fn into_parts(self) -> (r: (
        Vec<(String, LogicalType)>,
        Option<u64>,
        bool,
        Option<(u64, bool)>,
        Option<String>,
    ))
        ensures
            r.0@.map_values(|c: (String, LogicalType)| (c.0@, c.1@)) == self@.result_columns,
            r.1 == self@.bind_data,
            r.2 == self@.bind_data_has_destructor,
            r.3 == self@.cardinality,
            opt_text(r.4) == self@.error,
    {
        let BindInfo { result_columns, bind_data, bind_data_has_destructor, cardinality, error, .. } =
            self;
        (result_columns, bind_data, bind_data_has_destructor, cardinality, error)
    }
}

} // verus!
