//! The init-stage info handle: where the init (and thread-local init)
//! callback reads bind data and projection indices and stores its scan
//! state.

use vstd::prelude::*;

use crate::text::opt_text;

verus! {

/// The mathematical content of an init-stage handle.
pub struct InitInfoModel {
    /// The bind data stored during the bind stage, readable here.
    pub bind_data: Option<u64>,
    /// The descriptor's extra-info payload, if any.
    pub extra_info: Option<u64>,
    /// The projected column indices the query needs, in output order.
    pub projected_columns: Seq<u64>,
    /// The opaque init-data payload, once stored.
    pub init_data: Option<u64>,
    /// Whether a destructor was registered for the init data.
    pub init_data_has_destructor: bool,
    /// The declared maximum number of threads that may execute in parallel.
    pub max_threads: u64,
    /// The error message, if the callback reported failure.
    pub error: Option<Seq<char>>,
}

/// An interface to store and retrieve data during the function init stage.
///
/// The engine hands one of these to the init callback (and, when supplied,
/// to each thread-local init call); it is valid only for that invocation.
/// The callback may read the bind data, learn which columns the query
/// projects, declare how many threads may execute in parallel, and store
/// mutable shared scan state with its own destructor. Reporting an error is
/// terminal for the query.
pub struct InitInfo {
    bind_data: Option<u64>,
    extra_info: Option<u64>,
    projected_columns: Vec<u64>,
    init_data: Option<u64>,
    init_data_has_destructor: bool,
    max_threads: u64,
    error: Option<String>,
}

impl View for InitInfo {
    type V = InitInfoModel;

    closed spec fn view(&self) -> InitInfoModel {
        InitInfoModel {
            bind_data: self.bind_data,
            extra_info: self.extra_info,
            projected_columns: self.projected_columns@,
            init_data: self.init_data,
            init_data_has_destructor: self.init_data_has_destructor,
            max_threads: self.max_threads,
            error: match self.error {
                Option::Some(e) => Option::Some(e@),
                Option::None => Option::None,
            },
        }
    }
}

impl InitInfo {
    /// A fresh handle for one init invocation, seeded with the bind data,
    /// the extra-info payload, and the projected column indices. The
    /// default parallelism is one thread.
    pub(crate) fn new(
        bind_data: Option<u64>,
        extra_info: Option<u64>,
        projected_columns: Vec<u64>,
    ) -> (r: InitInfo)
        ensures
            r@ == (InitInfoModel {
                bind_data,
                extra_info,
                projected_columns: projected_columns@,
                init_data: Option::None,
                init_data_has_destructor: false,
                max_threads: 1,
                error: Option::None,
            }),
    {
        InitInfo {
            bind_data,
            extra_info,
            projected_columns,
            init_data: Option::None,
            init_data_has_destructor: false,
            max_threads: 1,
            error: Option::None,
        }
    }

    /// Stores the opaque init-data payload (the shared scan state) for the
    /// execute stage to read and mutate, with or without a destructor for
    /// the engine to run at teardown.
    pub fn set_init_data(&mut self, data: u64, has_destructor: bool)
        ensures
            final(self)@ == (InitInfoModel {
                init_data: Option::Some(data),
                init_data_has_destructor: has_destructor,
                ..old(self)@
            }),
    {
        self.init_data = Option::Some(data);
        self.init_data_has_destructor = has_destructor;
    }

    /// Returns the column indices of the projected columns: the columns the
    /// query actually needs, which a pushdown-capable function uses to skip
    /// the rest.
    pub fn get_column_indices(&self) -> (r: Vec<u64>)
        ensures
            r@ == self@.projected_columns,
    {
        let mut r: Vec<u64> = Vec::new();
        let n = self.projected_columns.len();
        let mut i: usize = 0;
        while i < n
            invariant
                n == self.projected_columns@.len(),
                i <= n,
                r@ =~= self.projected_columns@.take(i as int),
            decreases n - i,
        {
            r.push(self.projected_columns[i]);
            proof {
                assert(r@ =~= self.projected_columns@.take(i + 1));
            }
            i = i + 1;
        }
        proof {
            assert(r@ =~= self.projected_columns@);
        }
        r
    }

    /// Retrieves the descriptor's extra-info payload, if one was attached.
    pub fn get_extra_info(&self) -> (r: Option<u64>)
        ensures
            r == self@.extra_info,
    {
        self.extra_info
    }

    /// Retrieves the bind data stored during the bind stage. It should be
    /// treated as read-only; mutable progress belongs in the init data.
    pub fn get_bind_data(&self) -> (r: Option<u64>)
        ensures
            r == self@.bind_data,
    {
        self.bind_data
    }

    /// Declares how many threads may execute this table function in
    /// parallel (the default is one).
    pub fn set_max_threads(&mut self, max_threads: u64)
        ensures
            final(self)@ == (InitInfoModel { max_threads, ..old(self)@ }),
    {
        self.max_threads = max_threads;
    }

    /// Reports that an error occurred while initializing; the query aborts
    /// with this message and no further stage runs.
    pub fn set_error(&mut self, error: String)
        requires
            !error@.contains('\u{0}'),
        ensures
            final(self)@ == (InitInfoModel { error: Option::Some(error@), ..old(self)@ }),
    {
        self.error = Option::Some(error);
    }

    /// Takes the handle apart when its invocation returns, handing the
    /// engine what the callback left behind: init data and its destructor
    /// flag, the parallelism hint, and the error.
    pub(crate) fn into_parts(self) -> (r: (Option<u64>, bool, u64, Option<String>))
        ensures
            r.0 == self@.init_data,
            r.1 == self@.init_data_has_destructor,
            r.2 == self@.max_threads,
            opt_text(r.3) == self@.error,
    {
        let InitInfo { init_data, init_data_has_destructor, max_threads, error, .. } = self;
        (init_data, init_data_has_destructor, max_threads, error)
    }
}

} // verus!
