//! The staged lifecycle of one table-function query: bind, init, optional
//! thread-local init, repeated execute, and teardown, with the engine-side
//! bookkeeping each stage performs.

use vstd::prelude::*;

use crate::data_chunk::DataChunk;
use crate::error::EngineError;
use crate::logical_type::{LogicalType, TypeModel};
use crate::table_functions::bind_info::BindInfo;
use crate::table_functions::function_info::{FunctionInfo, FunctionInfoModel};
use crate::table_functions::init_info::{InitInfo, InitInfoModel};
use crate::value::Value;
use crate::vector::{Vector, VECTOR_SIZE};

verus! {

/// Where one query stands in the table-function protocol. The stages are
/// strictly ordered; the `Binding`/`Initializing`/`LocalInitializing`/
/// `Executing` states mark a callback invocation in flight between a
/// `begin_*` and its `finish_*`.
#[derive(Clone, Copy, Debug, PartialEq, Eq, Structural)]
pub enum Stage {
    /// Created for a query; the bind stage has not run yet.
    AwaitingBind,
    /// The bind callback is in flight.
    Binding,
    /// Bind succeeded; the result columns are declared.
    Bound,
    /// The global init callback is in flight.
    Initializing,
    /// Global init succeeded; local init and execution may follow.
    Ready,
    /// The thread-local init callback is in flight.
    LocalInitializing,
    /// An execute callback is in flight.
    Executing,
    /// At least one execute call returned rows; more may follow.
    Streaming,
    /// An execute call published size zero: the row stream is complete.
    Drained,
    /// A callback reported an error; the query is terminal.
    Failed,
    /// Teardown ran; every registered destructor has been invoked.
    TornDown,
}

/// One materialized result cell: NULL, a fixed-width word, or out-of-line
/// text, according to the column's validity bit and declared type.
#[derive(Clone, Debug, PartialEq, Eq)]
pub enum Cell {
    /// The row is marked invalid in the column's validity mask.
    Null,
    /// A fixed-width value, as the raw 64-bit word the vector stores.
    Word(u64),
    /// An out-of-line string value.
    Text(String),
}

/// What an execute round reported: more rows may follow, or the stream is
/// complete.
#[derive(Clone, Copy, Debug, PartialEq, Eq, Structural)]
pub enum ExecuteStep {
    /// The callback produced rows; the engine will call execute again.
    Continue,
    /// The callback published size zero; no execute call follows.
    Finished,
}

/// Whether `cell` is exactly what column vector `v` holds at `row`: NULL
/// when the validity bit is clear, the out-of-line string for text kinds,
/// and the raw fixed-width word otherwise.
pub open spec fn cell_matches(v: Vector, row: int, cell: Cell) -> bool {
    if !v.validity_view()[row] {
        cell is Null
    } else if v.col_type().kind.is_text() {
        match cell {
            Cell::Text(s) => s@ == v.strings_view()[row],
            _ => false,
        }
    } else {
        cell == Cell::Word(v.data_view()[row])
    }
}

/// Whether `row` is exactly what the chunk holds at row index `r`, one cell
/// per column.
pub open spec fn row_matches(output: DataChunk, r: int, row: Seq<Cell>) -> bool {
    &&& row.len() == output.columns().len()
    &&& forall|c: int|
        0 <= c < output.columns().len() ==> cell_matches(output.columns()[c], r, row[c])
}

/// The mathematical state of one query's lifecycle.
pub struct QueryModel {
    /// The protocol stage.
    pub stage: Stage,
    /// Whether the descriptor declared projection-pushdown support.
    pub pushdown: bool,
    /// Whether the descriptor supplies a thread-local init stage.
    pub has_local_init: bool,
    /// The descriptor's extra-info payload, if any.
    pub extra_info: Option<u64>,
    /// The constant call arguments still to be handed to bind.
    pub parameters: Seq<Value>,
    /// The result columns bind declared, in output order.
    pub result_columns: Seq<(Seq<char>, TypeModel)>,
    /// The cardinality estimate bind set, if any.
    pub cardinality: Option<(u64, bool)>,
    /// The bind-data payload, once stored.
    pub bind_data: Option<u64>,
    /// Whether the bind data carries a destructor.
    pub bind_data_has_destructor: bool,
    /// The shared scan state, once stored (and as execute updates it).
    pub init_data: Option<u64>,
    /// Whether the init data carries a destructor.
    pub init_data_has_destructor: bool,
    /// The parallelism hint init declared.
    pub max_threads: u64,
    /// Whether the thread-local init stage has run.
    pub local_init_done: bool,
    /// The thread-local state, once stored.
    pub local_init_data: Option<u64>,
    /// Whether the local-init data carries a destructor.
    pub local_init_data_has_destructor: bool,
    /// Every row the execute stage has emitted, in order.
    pub rows: Seq<Seq<Cell>>,
    /// The error a callback reported, if the query failed.
    pub error: Option<Seq<char>>,
    /// How often the bind-data destructor has run.
    pub bind_destructor_runs: u32,
    /// How often the init-data destructor has run.
    pub init_destructor_runs: u32,
    /// How often the local-init-data destructor has run.
    pub local_init_destructor_runs: u32,
}

impl QueryModel {
    /// Destructor bookkeeping, the heart of the teardown contract: no
    /// destructor runs more than once, none runs before teardown, a run
    /// implies the payload was registered with a destructor, and after
    /// teardown each registered destructor has run exactly once.
    pub open spec fn destructor_accounting(self) -> bool {
        &&& self.bind_destructor_runs <= 1
        &&& self.init_destructor_runs <= 1
        &&& self.local_init_destructor_runs <= 1
        &&& (!(self.stage is TornDown) ==> self.bind_destructor_runs == 0
            && self.init_destructor_runs == 0 && self.local_init_destructor_runs == 0)
        &&& (self.bind_destructor_runs == 1 ==> self.bind_data is Some
            && self.bind_data_has_destructor)
        &&& (self.init_destructor_runs == 1 ==> self.init_data is Some
            && self.init_data_has_destructor)
        &&& (self.local_init_destructor_runs == 1 ==> self.local_init_data is Some
            && self.local_init_data_has_destructor)
        &&& (self.stage is TornDown ==> self.bind_destructor_runs == (
        if self.bind_data is Some && self.bind_data_has_destructor {
            1int
        } else {
            0int
        }) && self.init_destructor_runs == (
        if self.init_data is Some && self.init_data_has_destructor {
            1int
        } else {
            0int
        }) && self.local_init_destructor_runs == (
        if self.local_init_data is Some && self.local_init_data_has_destructor {
            1int
        } else {
            0int
        }))
    }

    /// What each stage guarantees about the stored state.
    pub open spec fn stage_consistent(self) -> bool {
        &&& ((self.stage is AwaitingBind || self.stage is Binding) ==> self.bind_data is None
            && self.result_columns.len() == 0 && self.cardinality is None
            && self.init_data is None && self.local_init_data is None && self.rows.len() == 0)
        &&& ((self.stage is Bound || self.stage is Initializing || self.stage is Ready
            || self.stage is LocalInitializing || self.stage is Executing
            || self.stage is Streaming || self.stage is Drained) ==> self.result_columns.len()
            >= 1)
        &&& (self.stage is Failed ==> self.error is Some)
    }

    /// Well-formedness of a lifecycle state.
    pub open spec fn wf(self) -> bool {
        self.destructor_accounting() && self.stage_consistent()
    }
}

/// One table-function query, driven through the protocol's stages.
///
/// The host (the engine's scheduler) alternates with the extension's
/// callbacks: each `begin_*` hands out the stage's info object, the caller
/// runs the callback against it, and the matching `finish_*` hands it back
/// for the engine to record. Execute rounds repeat until one publishes size
/// zero; `teardown` ends the query and runs each registered destructor
/// exactly once.
///
/// The lifecycle drives one worker at a time. A host that schedules several
/// workers records the parallelism hint from init and keeps the shared scan
/// state synchronized itself; the thread-local init stage here models one
/// worker's slot.
pub struct QueryExecution {
    stage: Stage,
    pushdown: bool,
    has_local_init: bool,
    extra_info: Option<u64>,
    parameters: Vec<Value>,
    result_columns: Vec<(String, LogicalType)>,
    cardinality: Option<(u64, bool)>,
    bind_data: Option<u64>,
    bind_data_has_destructor: bool,
    init_data: Option<u64>,
    init_data_has_destructor: bool,
    max_threads: u64,
    local_init_done: bool,
    local_init_data: Option<u64>,
    local_init_data_has_destructor: bool,
    rows: Vec<Vec<Cell>>,
    error: Option<String>,
    bind_destructor_runs: u32,
    init_destructor_runs: u32,
    local_init_destructor_runs: u32,
}

impl View for QueryExecution {
    type V = QueryModel;

    closed spec fn view(&self) -> QueryModel {
        QueryModel {
            stage: self.stage,
            pushdown: self.pushdown,
            has_local_init: self.has_local_init,
            extra_info: self.extra_info,
            parameters: self.parameters@,
            result_columns: self.result_columns@.map_values(
                |c: (String, LogicalType)| (c.0@, c.1@),
            ),
            cardinality: self.cardinality,
            bind_data: self.bind_data,
            bind_data_has_destructor: self.bind_data_has_destructor,
            init_data: self.init_data,
            init_data_has_destructor: self.init_data_has_destructor,
            max_threads: self.max_threads,
            local_init_done: self.local_init_done,
            local_init_data: self.local_init_data,
            local_init_data_has_destructor: self.local_init_data_has_destructor,
            rows: self.rows@.map_values(|row: Vec<Cell>| row@),
            error: match self.error {
                Option::Some(e) => Option::Some(e@),
                Option::None => Option::None,
            },
            bind_destructor_runs: self.bind_destructor_runs,
            init_destructor_runs: self.init_destructor_runs,
            local_init_destructor_runs: self.local_init_destructor_runs,
        }
    }
}

impl QueryExecution {
    /// A fresh lifecycle for one query-plan node over a registered
    /// descriptor, holding the call's constant arguments for the bind
    /// stage.
    pub(crate) fn start(
        pushdown: bool,
        has_local_init: bool,
        extra_info: Option<u64>,
        parameters: Vec<Value>,
    ) -> (r: QueryExecution)
        ensures
            r@ == (QueryModel {
                stage: Stage::AwaitingBind,
                pushdown,
                has_local_init,
                extra_info,
                parameters: parameters@,
                result_columns: Seq::empty(),
                cardinality: Option::None,
                bind_data: Option::None,
                bind_data_has_destructor: false,
                init_data: Option::None,
                init_data_has_destructor: false,
                max_threads: 1,
                local_init_done: false,
                local_init_data: Option::None,
                local_init_data_has_destructor: false,
                rows: Seq::empty(),
                error: Option::None,
                bind_destructor_runs: 0,
                init_destructor_runs: 0,
                local_init_destructor_runs: 0,
            }),
            r@.wf(),
    {
        let r = QueryExecution {
            stage: Stage::AwaitingBind,
            pushdown,
            has_local_init,
            extra_info,
            parameters,
            result_columns: Vec::new(),
            cardinality: Option::None,
            bind_data: Option::None,
            bind_data_has_destructor: false,
            init_data: Option::None,
            init_data_has_destructor: false,
            max_threads: 1,
            local_init_done: false,
            local_init_data: Option::None,
            local_init_data_has_destructor: false,
            rows: Vec::new(),
            error: Option::None,
            bind_destructor_runs: 0,
            init_destructor_runs: 0,
            local_init_destructor_runs: 0,
        };
        proof {
            assert(r@.result_columns =~= Seq::<(Seq<char>, TypeModel)>::empty());
            assert(r@.rows =~= Seq::<Seq<Cell>>::empty());
        }
        r
    }

    /// The current protocol stage.
    pub fn current_stage(&self) -> (r: Stage)
        ensures
            r == self@.stage,
    {
        self.stage
    }

    /// Opens the bind stage: hands out the bind callback's info object,
    /// seeded with the call's constant arguments and the descriptor's
    /// extra-info payload. Runs exactly once per query.
    pub fn begin_bind(&mut self) -> (r: BindInfo)
        requires
            old(self)@.wf(),
            old(self)@.stage is AwaitingBind,
        ensures
            final(self)@ == (QueryModel {
                stage: Stage::Binding,
                parameters: Seq::empty(),
                ..old(self)@
            }),
            final(self)@.wf(),
            r@.parameters == old(self)@.parameters,
            r@.extra_info == old(self)@.extra_info,
            r@.result_columns == Seq::<(Seq<char>, TypeModel)>::empty(),
            r@.bind_data is None,
            r@.cardinality is None,
            r@.error is None,
    {
        self.stage = Stage::Binding;
        let mut parameters: Vec<Value> = Vec::new();
        core::mem::swap(&mut parameters, &mut self.parameters);
        proof {
            assert(self@.parameters =~= Seq::<Value>::empty());
        }
        BindInfo::new(parameters, self.extra_info)
    }

    /// Closes the bind stage with what the callback left in its info
    /// object. An error reported there is terminal: the query fails with
    /// that message, nothing the callback stored is kept, and no later
    /// stage runs. Succeeding with no declared result column is an
    /// engine-reported error. On success the declared columns, bind data
    /// and cardinality estimate are recorded.
    pub fn finish_bind(&mut self, info: BindInfo) -> (r: Result<(), EngineError>)
        requires
            old(self)@.wf(),
            old(self)@.stage is Binding,
        ensures
            final(self)@.wf(),
            info@.error matches Option::Some(msg) ==> {
                &&& r matches Result::Err(e) && e matches EngineError::BindError(m) && m@ == msg
                &&& final(self)@ == (QueryModel {
                    stage: Stage::Failed,
                    error: info@.error,
                    ..old(self)@
                })
            },
            info@.error is None && info@.result_columns.len() == 0 ==> {
                &&& r == Result::<(), EngineError>::Err(EngineError::NoResultColumns)
                &&& final(self)@ == (QueryModel {
                    stage: Stage::Failed,
                    error: Option::Some("table function must declare at least one result column"@),
                    ..old(self)@
                })
            },
            info@.error is None && info@.result_columns.len() > 0 ==> {
                &&& r is Ok
                &&& final(self)@ == (QueryModel {
                    stage: Stage::Bound,
                    result_columns: info@.result_columns,
                    bind_data: info@.bind_data,
                    bind_data_has_destructor: info@.bind_data_has_destructor,
                    cardinality: info@.cardinality,
                    ..old(self)@
                })
            },
    {
        let (result_columns, bind_data, bind_data_has_destructor, cardinality, error) =
            info.into_parts();
        match error {
            Option::Some(msg) => {
                self.stage = Stage::Failed;
                self.error = Option::Some(msg.clone());
                Result::Err(EngineError::BindError(msg))
            },
            Option::None => {
                if result_columns.len() == 0 {
                    self.stage = Stage::Failed;
                    self.error = Option::Some(
                        "table function must declare at least one result column".to_owned(),
                    );
                    return Result::Err(EngineError::NoResultColumns);
                }
                self.stage = Stage::Bound;
                self.result_columns = result_columns;
                self.bind_data = bind_data;
                self.bind_data_has_destructor = bind_data_has_destructor;
                self.cardinality = cardinality;
                Result::Ok(())
            },
        }
    }

    /// Opens the global init stage: hands out the init callback's info
    /// object, seeded with the bind data and the projected column indices.
    /// Without pushdown every column is implicitly projected, so the
    /// indices enumerate all result columns in order. Runs exactly once per
    /// query, after a successful bind.
    pub fn begin_init(&mut self) -> (r: InitInfo)
        requires
            old(self)@.wf(),
            old(self)@.stage is Bound,
        ensures
            final(self)@ == (QueryModel { stage: Stage::Initializing, ..old(self)@ }),
            final(self)@.wf(),
            r@ == (InitInfoModel {
                bind_data: old(self)@.bind_data,
                extra_info: old(self)@.extra_info,
                projected_columns: Seq::new(
                    old(self)@.result_columns.len(),
                    |i: int| i as u64,
                ),
                init_data: Option::None,
                init_data_has_destructor: false,
                max_threads: 1,
                error: Option::None,
            }),
    {
        self.stage = Stage::Initializing;
        let n = self.result_columns.len();
        let mut projected: Vec<u64> = Vec::new();
        let mut i: usize = 0;
        while i < n
            invariant
                i <= n,
                n == self.result_columns@.len(),
                projected@.len() == i,
                forall|k: int| 0 <= k < i ==> projected@[k] == k as u64,
            decreases n - i,
        {
            projected.push(i as u64);
            i = i + 1;
        }
        proof {
            assert(projected@ =~= Seq::new(self@.result_columns.len(), |i: int| i as u64));
        }
        InitInfo::new(self.bind_data, self.extra_info, projected)
    }

    /// Closes the global init stage. An error reported there is terminal
    /// for the query; on success the scan state and parallelism hint are
    /// recorded and execution may begin.
    pub fn finish_init(&mut self, info: InitInfo) -> (r: Result<(), EngineError>)
        requires
            old(self)@.wf(),
            old(self)@.stage is Initializing,
        ensures
            final(self)@.wf(),
            info@.error matches Option::Some(msg) ==> {
                &&& r matches Result::Err(e) && e matches EngineError::InitError(m) && m@ == msg
                &&& final(self)@ == (QueryModel {
                    stage: Stage::Failed,
                    error: info@.error,
                    ..old(self)@
                })
            },
            info@.error is None ==> {
                &&& r is Ok
                &&& final(self)@ == (QueryModel {
                    stage: Stage::Ready,
                    init_data: info@.init_data,
                    init_data_has_destructor: info@.init_data_has_destructor,
                    max_threads: info@.max_threads,
                    ..old(self)@
                })
            },
    {
        let (init_data, init_data_has_destructor, max_threads, error) = info.into_parts();
        match error {
            Option::Some(msg) => {
                self.stage = Stage::Failed;
                self.error = Option::Some(msg.clone());
                Result::Err(EngineError::InitError(msg))
            },
            Option::None => {
                self.stage = Stage::Ready;
                self.init_data = init_data;
                self.init_data_has_destructor = init_data_has_destructor;
                self.max_threads = max_threads;
                Result::Ok(())
            },
        }
    }

    /// Opens the thread-local init stage, available only when the
    /// descriptor supplies one, once, before the first execute round. The
    /// info object shows the same bind data and projection as global init.
    pub fn begin_local_init(&mut self) -> (r: InitInfo)
        requires
            old(self)@.wf(),
            old(self)@.stage is Ready,
            old(self)@.has_local_init,
            !old(self)@.local_init_done,
        ensures
            final(self)@ == (QueryModel { stage: Stage::LocalInitializing, ..old(self)@ }),
            final(self)@.wf(),
            r@ == (InitInfoModel {
                bind_data: old(self)@.bind_data,
                extra_info: old(self)@.extra_info,
                projected_columns: Seq::new(
                    old(self)@.result_columns.len(),
                    |i: int| i as u64,
                ),
                init_data: Option::None,
                init_data_has_destructor: false,
                max_threads: 1,
                error: Option::None,
            }),
    {
        self.stage = Stage::LocalInitializing;
        let n = self.result_columns.len();
        let mut projected: Vec<u64> = Vec::new();
        let mut i: usize = 0;
        while i < n
            invariant
                i <= n,
                n == self.result_columns@.len(),
                projected@.len() == i,
                forall|k: int| 0 <= k < i ==> projected@[k] == k as u64,
            decreases n - i,
        {
            projected.push(i as u64);
            i = i + 1;
        }
        proof {
            assert(projected@ =~= Seq::new(self@.result_columns.len(), |i: int| i as u64));
        }
        InitInfo::new(self.bind_data, self.extra_info, projected)
    }

    /// Closes the thread-local init stage. An error is terminal; on
    /// success the thread-local state is recorded.
    pub fn finish_local_init(&mut self, info: InitInfo) -> (r: Result<(), EngineError>)
        requires
            old(self)@.wf(),
            old(self)@.stage is LocalInitializing,
        ensures
            final(self)@.wf(),
            info@.error matches Option::Some(msg) ==> {
                &&& r matches Result::Err(e) && e matches EngineError::InitError(m) && m@ == msg
                &&& final(self)@ == (QueryModel {
                    stage: Stage::Failed,
                    error: info@.error,
                    ..old(self)@
                })
            },
            info@.error is None ==> {
                &&& r is Ok
                &&& final(self)@ == (QueryModel {
                    stage: Stage::Ready,
                    local_init_done: true,
                    local_init_data: info@.init_data,
                    local_init_data_has_destructor: info@.init_data_has_destructor,
                    ..old(self)@
                })
            },
    {
        let (init_data, init_data_has_destructor, _max_threads, error) = info.into_parts();
        match error {
            Option::Some(msg) => {
                self.stage = Stage::Failed;
                self.error = Option::Some(msg.clone());
                Result::Err(EngineError::InitError(msg))
            },
            Option::None => {
                self.stage = Stage::Ready;
                self.local_init_done = true;
                self.local_init_data = init_data;
                self.local_init_data_has_destructor = init_data_has_destructor;
                Result::Ok(())
            },
        }
    }

    /// Opens one execute round: hands out the execute callback's info
    /// object (showing read-only bind data and the current mutable scan
    /// state) and a fresh, borrowed output chunk with one column per
    /// declared result column, size zero, and all rows valid. The callback
    /// must fill columns and publish the row count; progress belongs in the
    /// scan state, not in callback locals.
    pub fn begin_execute(&mut self) -> (r: (FunctionInfo, DataChunk))
        requires
            old(self)@.wf(),
            old(self)@.stage is Ready || old(self)@.stage is Streaming,
        ensures
            final(self)@ == (QueryModel { stage: Stage::Executing, ..old(self)@ }),
            final(self)@.wf(),
            r.0@ == (FunctionInfoModel {
                bind_data: old(self)@.bind_data,
                init_data: old(self)@.init_data,
                local_init_data: old(self)@.local_init_data,
                extra_info: old(self)@.extra_info,
                error: Option::None,
            }),
            r.1.wf(),
            r.1.size_view() == 0,
            r.1.columns().len() == old(self)@.result_columns.len(),
            forall|c: int|
                0 <= c < old(self)@.result_columns.len() ==> (#[trigger] r.1.columns()[c]).col_type()
                    == old(self)@.result_columns[c].1,
            forall|c: int|
                0 <= c < old(self)@.result_columns.len() ==> (#[trigger] r.1.columns()[c]).validity_view()
                    =~= Seq::new(VECTOR_SIZE as nat, |j: int| true),
            forall|c: int|
                0 <= c < old(self)@.result_columns.len() ==> (#[trigger] r.1.columns()[c]).data_view()
                    =~= Seq::new(VECTOR_SIZE as nat, |j: int| 0u64),
            forall|c: int|
                0 <= c < old(self)@.result_columns.len() ==> (#[trigger] r.1.columns()[c]).strings_view()
                    =~= Seq::new(VECTOR_SIZE as nat, |j: int| Seq::<char>::empty()),
    {
        self.stage = Stage::Executing;
        let n = self.result_columns.len();
        let mut types: Vec<LogicalType> = Vec::new();
        let mut i: usize = 0;
        while i < n
            invariant
                i <= n,
                n == self.result_columns@.len(),
                types@.len() == i,
                forall|k: int| 0 <= k < i ==> (#[trigger] types@[k])@ == self.result_columns@[k].1@,
            decreases n - i,
        {
            types.push(self.result_columns[i].1.clone());
            i = i + 1;
        }
        let chunk = DataChunk::new(types);
        let info = FunctionInfo::new(
            self.bind_data,
            self.init_data,
            self.local_init_data,
            self.extra_info,
        );
        (info, chunk)
    }

    /// Closes one execute round with the callback's info object and the
    /// output chunk it filled. An error is terminal and nothing is kept
    /// from the round. Otherwise the scan-state updates are carried back;
    /// a published size of zero completes the row stream, and a positive
    /// size appends exactly the chunk's first `size` rows — one cell per
    /// column, NULL where the validity bit is clear, text or raw word
    /// according to the column's declared type — to the query's result.
    pub fn finish_execute(&mut self, info: FunctionInfo, output: DataChunk) -> (r: Result<
        ExecuteStep,
        EngineError,
    >)
        requires
            old(self)@.wf(),
            old(self)@.stage is Executing,
            output.wf(),
        ensures
            final(self)@.wf(),
            info@.error matches Option::Some(msg) ==> {
                &&& r matches Result::Err(e) && e matches EngineError::ExecuteError(m) && m@ == msg
                &&& final(self)@ == (QueryModel {
                    stage: Stage::Failed,
                    error: info@.error,
                    ..old(self)@
                })
            },
            info@.error is None && output.size_view() == 0 ==> {
                &&& r == Result::<ExecuteStep, EngineError>::Ok(ExecuteStep::Finished)
                &&& final(self)@ == (QueryModel {
                    stage: Stage::Drained,
                    init_data: info@.init_data,
                    local_init_data: info@.local_init_data,
                    ..old(self)@
                })
            },
            info@.error is None && output.size_view() > 0 ==> {
                &&& r == Result::<ExecuteStep, EngineError>::Ok(ExecuteStep::Continue)
                &&& final(self)@ == (QueryModel {
                    stage: Stage::Streaming,
                    init_data: info@.init_data,
                    local_init_data: info@.local_init_data,
                    rows: final(self)@.rows,
                    ..old(self)@
                })
                &&& final(self)@.rows.len() == old(self)@.rows.len() + output.size_view()
                &&& final(self)@.rows.take(old(self)@.rows.len() as int) == old(self)@.rows
                &&& forall|i: int|
                    0 <= i < output.size_view() ==> #[trigger] row_matches(
                        output,
                        i,
                        final(self)@.rows[old(self)@.rows.len() + i],
                    )
            },
    {
        let (init_data, local_init_data, error) = info.into_parts();
        match error {
            Option::Some(msg) => {
                self.stage = Stage::Failed;
                self.error = Option::Some(msg.clone());
                Result::Err(EngineError::ExecuteError(msg))
            },
            Option::None => {
                self.init_data = init_data;
                self.local_init_data = local_init_data;
                let size = output.get_size();
                if size == 0 {
                    self.stage = Stage::Drained;
                    Result::Ok(ExecuteStep::Finished)
                } else {
                    self.stage = Stage::Streaming;
                    let ghost mid = self@;
                    let n_cols = output.get_column_count();
                    let mut r_idx: usize = 0;
                    while r_idx < size
                        invariant
                            self@ == (QueryModel { rows: self@.rows, ..mid }),
                            output.wf(),
                            size == output.size_view(),
                            n_cols == output.columns().len(),
                            r_idx <= size,
                            self@.rows.len() == mid.rows.len() + r_idx,
                            self@.rows.take(mid.rows.len() as int) == mid.rows,
                            forall|i: int|
                                0 <= i < r_idx ==> #[trigger] row_matches(
                                    output,
                                    i,
                                    self@.rows[mid.rows.len() + i],
                                ),
                        decreases size - r_idx,
                    {
                        let mut row: Vec<Cell> = Vec::new();
                        let mut c: usize = 0;
                        while c < n_cols
                            invariant
                                output.wf(),
                                size == output.size_view(),
                                r_idx < size,
                                n_cols == output.columns().len(),
                                c <= n_cols,
                                row@.len() == c,
                                forall|k: int|
                                    0 <= k < c ==> cell_matches(
                                        output.columns()[k],
                                        r_idx as int,
                                        row@[k],
                                    ),
                            decreases n_cols - c,
                        {
                            let v = output.get_vector(c);
                            let valid = v.get_validity().row_is_valid(r_idx);
                            let cell = if !valid {
                                Cell::Null
                            } else {
                                let t = v.get_column_type();
                                if t.type_id().is_text() {
                                    Cell::Text(v.get_string(r_idx).clone())
                                } else {
                                    Cell::Word(v.get_data(r_idx))
                                }
                            };
                            row.push(cell);
                            c = c + 1;
                        }
                        let ghost rows_before = self@.rows;
                        self.rows.push(row);
                        proof {
                            assert(self@.rows =~= rows_before.push(row@));
                            assert(self@.rows.take(mid.rows.len() as int) =~= mid.rows);
                            assert(self@ == (QueryModel { rows: self@.rows, ..mid }));
                        }
                        r_idx = r_idx + 1;
                    }
                    Result::Ok(ExecuteStep::Continue)
                }
            },
        }
    }

    /// Ends the query at whatever stage it stands — drained, failed, or
    /// abandoned earlier — and invokes each registered destructor exactly
    /// once: the bind-data, init-data and local-init-data destructors run
    /// if and only if their payload was stored with one, and none of them
    /// has run before. The emitted rows stay readable.
    pub fn teardown(&mut self)
        requires
            old(self)@.wf(),
            !(old(self)@.stage is TornDown),
        ensures
            final(self)@.wf(),
            final(self)@ == (QueryModel {
                stage: Stage::TornDown,
                bind_destructor_runs: (
                if old(self)@.bind_data is Some && old(self)@.bind_data_has_destructor {
                    1u32
                } else {
                    0u32
                }),
                init_destructor_runs: (
                if old(self)@.init_data is Some && old(self)@.init_data_has_destructor {
                    1u32
                } else {
                    0u32
                }),
                local_init_destructor_runs: (
                if old(self)@.local_init_data is Some
                    && old(self)@.local_init_data_has_destructor {
                    1u32
                } else {
                    0u32
                }),
                ..old(self)@
            }),
    {
        self.stage = Stage::TornDown;
        self.bind_destructor_runs = if self.bind_data.is_some() && self.bind_data_has_destructor {
            1
        } else {
            0
        };
        self.init_destructor_runs = if self.init_data.is_some() && self.init_data_has_destructor {
            1
        } else {
            0
        };
        self.local_init_destructor_runs = if self.local_init_data.is_some()
            && self.local_init_data_has_destructor {
            1
        } else {
            0
        };
    }

    /// The number of rows emitted so far.
    pub fn row_count(&self) -> (r: usize)
        ensures
            r == self@.rows.len(),
    {
        self.rows.len()
    }

    /// The number of cells in emitted row `row`.
    pub fn row_width(&self, row: usize) -> (r: usize)
        requires
            row < self@.rows.len(),
        ensures
            r == self@.rows[row as int].len(),
    {
        self.rows[row].len()
    }

    /// Reads one cell of an emitted row.
    pub fn get_cell(&self, row: usize, col: usize) -> (r: &Cell)
        requires
            row < self@.rows.len(),
            col < self@.rows[row as int].len(),
        ensures
            *r == self@.rows[row as int][col as int],
    {
        &self.rows[row][col]
    }

    /// The cardinality estimate recorded at bind, if any.
    pub fn get_cardinality(&self) -> (r: Option<(u64, bool)>)
        ensures
            r == self@.cardinality,
    {
        self.cardinality
    }

    /// The parallelism hint recorded at init.
    pub fn get_max_threads(&self) -> (r: u64)
        ensures
            r == self@.max_threads,
    {
        self.max_threads
    }

    /// The error a callback reported, if the query failed.
    pub fn get_error(&self) -> (r: &Option<String>)
        ensures
            crate::text::opt_text(*r) == self@.error,
    {
        &self.error
    }

    /// How often the bind-data destructor has run: never before teardown,
    /// and exactly once after it if bind data was stored with a destructor.
    pub fn bind_destructor_runs(&self) -> (r: u32)
        ensures
            r == self@.bind_destructor_runs,
    {
        self.bind_destructor_runs
    }

    /// How often the init-data destructor has run.
    pub fn init_destructor_runs(&self) -> (r: u32)
        ensures
            r == self@.init_destructor_runs,
    {
        self.init_destructor_runs
    }

    /// How often the local-init-data destructor has run.
    pub fn local_init_destructor_runs(&self) -> (r: u32)
        ensures
            r == self@.local_init_destructor_runs,
    {
        self.local_init_destructor_runs
    }
}

/// In every reachable lifecycle state, no destructor has run more than
/// once; before teardown none has run at all; and once the query is torn
/// down, each destructor has run exactly once if and only if its payload
/// was registered with one — zero times if that stage never stored data.
pub proof fn lemma_destructors_run_once(q: QueryModel)
    requires
        q.wf(),
    ensures
        q.bind_destructor_runs <= 1,
        q.init_destructor_runs <= 1,
        q.local_init_destructor_runs <= 1,
        !(q.stage is TornDown) ==> q.bind_destructor_runs == 0 && q.init_destructor_runs == 0
            && q.local_init_destructor_runs == 0,
        q.stage is TornDown ==> q.bind_destructor_runs == (
        if q.bind_data is Some && q.bind_data_has_destructor {
            1int
        } else {
            0int
        }),
        q.stage is TornDown ==> q.init_destructor_runs == (
        if q.init_data is Some && q.init_data_has_destructor {
            1int
        } else {
            0int
        }),
        q.stage is TornDown ==> q.local_init_destructor_runs == (
        if q.local_init_data is Some && q.local_init_data_has_destructor {
            1int
        } else {
            0int
        }),
{
}

} // verus!
