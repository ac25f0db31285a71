//! A client connection: the session that registers table functions in its
//! catalog and drives queries against them.

use vstd::prelude::*;

use crate::database::ReplacementScanHook;
use crate::error::EngineError;
use crate::table_function::{TableFunction, TableFunctionModel};
use crate::logical_type::TypeModel;
use crate::table_functions::{QueryExecution, QueryModel, ReplacementScanInfo, ReplacementScanInfoModel, Stage};
use crate::text::str_eq;
use crate::value::Value;

verus! {

/// The mathematical state of a connection.
pub struct ConnectionModel {
    /// The session's handle, never zero for a live connection.
    pub handle: usize,
    /// Whether the database was opened read-only.
    pub read_only: bool,
    /// The registered table functions, in registration order.
    pub catalog: Seq<TableFunctionModel>,
    /// The database's replacement-scan hook, if one was registered.
    pub replacement: Option<ReplacementScanHook>,
}

/// The first catalog entry registered under `name`, if any. Registration
/// refuses duplicates, so at most one entry matches.
pub open spec fn catalog_lookup(catalog: Seq<TableFunctionModel>, name: Seq<char>) -> Option<
    TableFunctionModel,
>
    decreases catalog.len(),
{
    if catalog.len() == 0 {
        Option::None
    } else if catalog[0].name == Option::Some(name) {
        Option::Some(catalog[0])
    } else {
        catalog_lookup(catalog.skip(1), name)
    }
}

/// Whether the supplied constant arguments fit a function's declared
/// positional parameters: same count, and each argument's kind either
/// matches the declared kind or is a varchar handed to a text-kinded
/// parameter (the engine casts the text).
pub open spec fn arguments_match(params: Seq<TypeModel>, args: Seq<Value>) -> bool {
    &&& params.len() == args.len()
    &&& forall|i: int|
        0 <= i < params.len() ==> ((#[trigger] args[i]).kind() == params[i].kind || (
        args[i].kind() is Varchar && params[i].kind.is_text()))
}

/// A connection to a database. This represents a (client) connection that
/// can be used to register table functions and query the database.
pub struct Connection {
    handle: usize,
    read_only: bool,
    catalog: Vec<TableFunction>,
    replacement: Option<ReplacementScanHook>,
}

impl View for Connection {
    type V = ConnectionModel;

    closed spec fn view(&self) -> ConnectionModel {
        ConnectionModel {
            handle: self.handle,
            read_only: self.read_only,
            catalog: self.catalog@.map_values(|f: TableFunction| f@),
            replacement: self.replacement,
        }
    }
}

impl Connection {
    /// Opens a session against a database with the given properties.
    pub(crate) fn open(
        handle: usize,
        read_only: bool,
        replacement: Option<ReplacementScanHook>,
    ) -> (r: Connection)
        requires
            handle != 0,
        ensures
            r@ == (ConnectionModel {
                handle,
                read_only,
                catalog: Seq::empty(),
                replacement,
            }),
    {
        let r = Connection { handle, read_only, catalog: Vec::new(), replacement };
        proof {
            assert(r@.catalog =~= Seq::<TableFunctionModel>::empty());
        }
        r
    }

    /// Returns the internal connection handle; never zero for a live
    /// connection.
    pub fn get_ptr(&self) -> (r: usize)
        ensures
            r == self@.handle,
    {
        self.handle
    }

    /// Registers the table function within this connection's catalog,
    /// transferring ownership to the engine.
    ///
    /// The descriptor needs at least a name, a bind stage, an init stage
    /// and an execute stage; an incomplete descriptor, or one whose name is
    /// already registered, is refused and the catalog is unchanged.
    pub fn register_table_function(&mut self, table_function: TableFunction) -> (r: Result<
        (),
        EngineError,
    >)
        ensures
            r is Ok <==> table_function@.complete() && catalog_lookup(
                old(self)@.catalog,
                table_function@.name->Some_0,
            ) is None,
            r is Ok ==> final(self)@ == (ConnectionModel {
                catalog: old(self)@.catalog.push(table_function@),
                ..old(self)@
            }),
            r is Err ==> final(self)@ == old(self)@,
            r matches Err(e) ==> e == (if !table_function@.complete() {
                EngineError::IncompleteFunction
            } else {
                EngineError::DuplicateFunctionName
            }),
    {
        if !table_function.is_complete() {
            return Result::Err(EngineError::IncompleteFunction);
        }
        let name_owned = match table_function.name_ref() {
            Option::Some(n) => n.clone(),
            Option::None => {
                proof {
                    assert(false);
                }
                String::new()
            },
        };
        if self.find_function(name_owned.as_str()).is_some() {
            return Result::Err(EngineError::DuplicateFunctionName);
        }
        let mut catalog: Vec<TableFunction> = Vec::new();
        core::mem::swap(&mut catalog, &mut self.catalog);
        catalog.push(table_function);
        core::mem::swap(&mut catalog, &mut self.catalog);
        proof {
            assert(self@.catalog =~= old(self)@.catalog.push(table_function@));
        }
        Result::Ok(())
    }

    /// Finds the catalog index of the function registered under `name`.
    fn find_function(&self, name: &str) -> (r: Option<usize>)
        ensures
            r matches Option::Some(i) ==> i < self@.catalog.len() && catalog_lookup(
                self@.catalog,
                name@,
            ) == Option::Some(self@.catalog[i as int]),
            r is None ==> catalog_lookup(self@.catalog, name@) is None,
    {
        let n = self.catalog.len();
        let mut i: usize = 0;
        proof {
            assert(self@.catalog.skip(0) =~= self@.catalog);
        }
        while i < n
            invariant
                n == self.catalog@.len(),
                i <= n,
                catalog_lookup(self@.catalog, name@) == catalog_lookup(
                    self@.catalog.skip(i as int),
                    name@,
                ),
            decreases n - i,
        {
            let entry_name = self.catalog[i].name_ref();
            let matches_name = match entry_name {
                Option::Some(en) => str_eq(en.as_str(), name),
                Option::None => false,
            };
            proof {
                assert(self@.catalog.skip(i as int)[0] == self@.catalog[i as int]);
                assert(self@.catalog.skip(i as int).skip(1) =~= self@.catalog.skip(i + 1));
            }
            if matches_name {
                return Option::Some(i);
            }
            i = i + 1;
        }
        proof {
            assert(self@.catalog.skip(n as int) =~= Seq::<TableFunctionModel>::empty());
        }
        Option::None
    }

    /// Starts a query over the table function registered under `name`,
    /// called with the given constant arguments.
    ///
    /// Fails with a catalog error if no function of that name is
    /// registered, and with a binding error if the arguments do not fit the
    /// declared parameters. On success the returned lifecycle awaits its
    /// bind stage.
    pub fn call_table_function(&self, name: &str, arguments: Vec<Value>) -> (r: Result<
        QueryExecution,
        EngineError,
    >)
        ensures
            catalog_lookup(self@.catalog, name@) is None ==> r == Result::<
                QueryExecution,
                EngineError,
            >::Err(EngineError::CatalogError),
            catalog_lookup(self@.catalog, name@) matches Option::Some(f) ==> {
                &&& !arguments_match(f.parameters, arguments@) ==> r == Result::<
                    QueryExecution,
                    EngineError,
                >::Err(EngineError::BindingError)
                &&& arguments_match(f.parameters, arguments@) ==> (r matches Result::Ok(q) && q@
                    == (QueryModel {
                    stage: Stage::AwaitingBind,
                    pushdown: f.pushdown,
                    has_local_init: f.has_local_init,
                    extra_info: f.extra_info,
                    parameters: arguments@,
                    result_columns: Seq::empty(),
                    cardinality: Option::None,
                    bind_data: Option::None,
                    bind_data_has_destructor: false,
                    init_data: Option::None,
                    init_data_has_destructor: false,
                    max_threads: 1,
                    local_init_done: false,
                    local_init_data: Option::None,
                    local_init_data_has_destructor: false,
                    rows: Seq::empty(),
                    error: Option::None,
                    bind_destructor_runs: 0,
                    init_destructor_runs: 0,
                    local_init_destructor_runs: 0,
                }) && q@.wf())
            },
    {
        let found = self.find_function(name);
        let idx = match found {
            Option::None => {
                return Result::Err(EngineError::CatalogError);
            },
            Option::Some(i) => i,
        };
        let f = &self.catalog[idx];
        proof {
            assert(self@.catalog[idx as int] == f@);
            assert(catalog_lookup(self@.catalog, name@) == Option::Some(f@));
        }
        let n_params = f.parameter_count();
        if arguments.len() != n_params {
            return Result::Err(EngineError::BindingError);
        }
        let mut i: usize = 0;
        while i < n_params
            invariant
                catalog_lookup(self@.catalog, name@) == Option::Some(f@),
                n_params == f@.parameters.len(),
                n_params == arguments@.len(),
                i <= n_params,
                forall|k: int|
                    0 <= k < i ==> ((#[trigger] arguments@[k]).kind() == f@.parameters[k].kind || (
                    arguments@[k].kind() is Varchar && f@.parameters[k].kind.is_text())),
            decreases n_params - i,
        {
            let declared = f.parameter_kind(i);
            let actual = arguments[i].type_of();
            let ok = actual == declared || (matches!(actual, crate::constants::DuckDBType::Varchar)
                && declared.is_text());
            if !ok {
                return Result::Err(EngineError::BindingError);
            }
            i = i + 1;
        }
        Result::Ok(
            QueryExecution::start(
                f.get_pushdown(),
                f.get_has_local_init(),
                f.get_extra_info(),
                arguments,
            ),
        )
    }

    /// Resolves an unresolved table reference through the database's
    /// replacement-scan hook.
    ///
    /// With a hook registered, this hands out the callback's info object
    /// over the reference text; the caller runs the callback against it and
    /// passes it to [`Connection::finish_replacement`]. Without a hook the
    /// reference fails resolution directly.
    pub fn resolve_table_reference(&self, table_reference: &str) -> (r: Result<
        ReplacementScanInfo,
        EngineError,
    >)
        ensures
            self@.replacement is Some ==> (r matches Result::Ok(info) && info@
                == (ReplacementScanInfoModel {
                table_name: table_reference@,
                function_name: Option::None,
                parameters: Seq::empty(),
                error: Option::None,
            })),
            self@.replacement is None ==> r == Result::<
                ReplacementScanInfo,
                EngineError,
            >::Err(EngineError::CatalogError),
    {
        match &self.replacement {
            Option::Some(_) => Result::Ok(ReplacementScanInfo::new(table_reference.to_owned())),
            Option::None => Result::Err(EngineError::CatalogError),
        }
    }

    /// Completes a replacement scan with what the callback left in its
    /// info object: an error fails the query with that message; an
    /// untouched handle declines, and resolution fails as it would have
    /// without the hook; a set function name redirects the query to that
    /// table function, called with the collected parameters.
    pub fn finish_replacement(&self, info: ReplacementScanInfo) -> (r: Result<
        QueryExecution,
        EngineError,
    >)
        ensures
            info@.error matches Option::Some(msg) ==> (r matches Result::Err(e) && e matches
                EngineError::ReplacementScanError(m) && m@ == msg),
            info@.error is None && info@.function_name is None ==> r == Result::<
                QueryExecution,
                EngineError,
            >::Err(EngineError::CatalogError),
            info@.function_name matches Option::Some(fname) ==> info@.error is None ==> {
                &&& catalog_lookup(self@.catalog, fname) is None ==> r == Result::<
                    QueryExecution,
                    EngineError,
                >::Err(EngineError::CatalogError)
                &&& catalog_lookup(self@.catalog, fname) matches Option::Some(f) ==> {
                    &&& !arguments_match(f.parameters, info@.parameters) ==> r == Result::<
                        QueryExecution,
                        EngineError,
                    >::Err(EngineError::BindingError)
                    &&& arguments_match(f.parameters, info@.parameters) ==> (r matches Result::Ok(
                        q,
                    ) && q@.stage is AwaitingBind && q@.wf() && q@.parameters == info@.parameters
                        && q@.pushdown == f.pushdown && q@.has_local_init == f.has_local_init
                        && q@.extra_info == f.extra_info)
                }
            },
    {
        let (function_name, parameters, error) = info.into_parts();
        match error {
            Option::Some(msg) => Result::Err(EngineError::ReplacementScanError(msg)),
            Option::None => match function_name {
                Option::None => Result::Err(EngineError::CatalogError),
                Option::Some(fname) => self.call_table_function(fname.as_str(), parameters),
            },
        }
    }

    /// The check every data-modifying statement passes first: it succeeds
    /// on a read-write database and reports a read-only error otherwise.
    pub fn begin_write(&self) -> (r: Result<(), EngineError>)
        ensures
            r is Ok <==> !self@.read_only,
            r matches Err(e) ==> e == EngineError::ReadOnly,
    {
        if self.read_only {
            Result::Err(EngineError::ReadOnly)
        } else {
            Result::Ok(())
        }
    }
}

} // verus!
