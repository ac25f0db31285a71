//! The execute-stage info handle: where the execute callback reads bind
//! data, reads and updates scan state, and reports errors.

use vstd::prelude::*;

use crate::text::opt_text;

verus! {

/// The mathematical content of an execute-stage handle.
pub struct FunctionInfoModel {
    /// The bind data stored during the bind stage, read-only here.
    pub bind_data: Option<u64>,
    /// The shared scan state stored during init, mutable here.
    pub init_data: Option<u64>,
    /// The thread-local state stored during local init, mutable here.
    pub local_init_data: Option<u64>,
    /// The descriptor's extra-info payload, if any.
    pub extra_info: Option<u64>,
    /// The error message, if the callback reported failure.
    pub error: Option<Seq<char>>,
}

/// An interface to store and retrieve data during the function execution
/// stage.
///
/// The engine hands one of these to every execute invocation; it is valid
/// only for that call. Progress must be tracked through the init or
/// local-init data — each call is a fresh invocation, and updates written
/// here are carried back into the query's scan state when the call returns.
pub struct FunctionInfo {
    bind_data: Option<u64>,
    init_data: Option<u64>,
    local_init_data: Option<u64>,
    extra_info: Option<u64>,
    error: Option<String>,
}

impl View for FunctionInfo {
    type V = FunctionInfoModel;

    closed spec fn view(&self) -> FunctionInfoModel {
        FunctionInfoModel {
            bind_data: self.bind_data,
            init_data: self.init_data,
            local_init_data: self.local_init_data,
            extra_info: self.extra_info,
            error: match self.error {
                Option::Some(e) => Option::Some(e@),
                Option::None => Option::None,
            },
        }
    }
}

impl FunctionInfo {
    /// A fresh handle for one execute invocation, seeded with the query's
    /// current payloads.
    pub(crate) fn new(
        bind_data: Option<u64>,
        init_data: Option<u64>,
        local_init_data: Option<u64>,
        extra_info: Option<u64>,
    ) -> (r: FunctionInfo)
        ensures
            r@ == (FunctionInfoModel {
                bind_data,
                init_data,
                local_init_data,
                extra_info,
                error: Option::None,
            }),
    {
        FunctionInfo { bind_data, init_data, local_init_data, extra_info, error: Option::None }
    }

    /// Reports that an error occurred while executing; the query aborts
    /// with this message.
    pub fn set_error(&mut self, error: &str)
        requires
            !error@.contains('\u{0}'),
        ensures
            final(self)@ == (FunctionInfoModel { error: Option::Some(error@), ..old(self)@ }),
    {
        self.error = Option::Some(error.to_owned());
    }

    /// Retrieves the bind data stored during the bind stage. It should be
    /// treated as read-only; for tracking state, use the init data instead.
    pub fn get_bind_data(&self) -> (r: Option<u64>)
        ensures
            r == self@.bind_data,
    {
        self.bind_data
    }

    /// Retrieves the shared scan state stored during init.
    pub fn get_init_data(&self) -> (r: Option<u64>)
        ensures
            r == self@.init_data,
    {
        self.init_data
    }

    /// Overwrites the shared scan state; the engine carries the update back
    /// into the query when this call returns.
    pub fn update_init_data(&mut self, data: u64)
        ensures
            final(self)@ == (FunctionInfoModel { init_data: Option::Some(data), ..old(self)@ }),
    {
        self.init_data = Option::Some(data);
    }

    /// Retrieves the descriptor's extra-info payload, if one was attached.
    pub fn get_extra_info(&self) -> (r: Option<u64>)
        ensures
            r == self@.extra_info,
    {
        self.extra_info
    }

    /// Retrieves the thread-local state stored during local init.
    pub fn get_local_init_data(&self) -> (r: Option<u64>)
        ensures
            r == self@.local_init_data,
    {
        self.local_init_data
    }

    /// Overwrites the thread-local state; the engine carries the update
    /// back into the executing thread's slot when this call returns.
    pub fn update_local_init_data(&mut self, data: u64)
        ensures
            final(self)@ == (FunctionInfoModel {
                local_init_data: Option::Some(data),
                ..old(self)@
            }),
    {
        self.local_init_data = Option::Some(data);
    }

    /// Takes the handle apart when its invocation returns, handing the
    /// engine the possibly updated scan state and the error.
    pub(crate) fn into_parts(self) -> (r: (Option<u64>, Option<u64>, Option<String>))
        ensures
            r.0 == self@.init_data,
            r.1 == self@.local_init_data,
            opt_text(r.2) == self@.error,
    {
        let FunctionInfo { init_data, local_init_data, error, .. } = self;
        (init_data, local_init_data, error)
    }
}

} // verus!
