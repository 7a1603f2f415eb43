//! The error taxonomy of the dispatcher.

use vstd::prelude::*;
use curl::MultiError;
use crate::engine::{multi_error_code, transfer_error_code, transfer_error_extra};

verus! {

/// The engine's result code that asks for another advance step at once.
pub const CALL_PERFORM: i32 = -1;

/// What the transfer engine reported when it failed.
#[derive(Debug, Clone, PartialEq, Eq)]
pub enum EngineFault {
    /// One transfer failed: the engine's result code and, where the engine
    /// recorded one, its message.
    Transfer { code: u32, extra: Option<String> },
    /// The multiplexing engine failed as a whole: its result code.
    Multiplexer { code: i32 },
}

/// Why a submitted transfer did not come back.
#[derive(Debug, Clone, PartialEq, Eq)]
pub enum AsyncCurlError {
    /// The request queue was closed: the worker has ended.
    QueueClosed,
    /// The reply channel was closed before a reply was sent.
    ReplyChannelClosed,
    /// The transfer engine reported a failure.
    EngineError(EngineFault),
    /// The thread that ran the transfer ended abnormally.
    ThreadJoinError,
    /// The engine reported no failure, but the transfer was still in progress
    /// when its driver had used up the advance steps that it grants.
    Unfinished,
}

impl EngineFault {
    /// Whether the fault holds what the engine's error of one transfer holds:
    /// its result code, and its message where it has one.
    pub open spec fn stands_for_transfer(self, e: curl::Error) -> bool {
        &&& self matches EngineFault::Transfer { code, extra }
        &&& code == transfer_error_code(e)
        &&& extra is Some <==> transfer_error_extra(e) is Some
        &&& extra is Some ==> extra->Some_0@ == transfer_error_extra(e)->Some_0
    }

    /// The fault of the multiplexing engine that holds the result code of the
    /// engine's error.
    pub open spec fn multiplexer_fault(e: MultiError) -> EngineFault {
        EngineFault::Multiplexer { code: multi_error_code(e) }
    }

    /// The fault that stands for the failure of one transfer: it holds the
    /// engine's result code and the message recorded with it, as they are.
    pub fn of_transfer(e: &curl::Error) -> (fault: EngineFault)
        ensures
            fault.stands_for_transfer(*e),
    {
        let extra = match e.extra_description() {
            Some(text) => Some(text.to_owned()),
            None => None,
        };
        EngineFault::Transfer { code: e.code(), extra }
    }

    /// The fault that stands for a failure of the multiplexing engine: it holds
    /// the engine's result code, as it is.
    pub fn of_multiplexer(e: &MultiError) -> (fault: EngineFault)
        ensures
            fault == EngineFault::multiplexer_fault(*e),
    {
        EngineFault::Multiplexer { code: e.code() }
    }

    /// The same result with the multiplexing engine's failure, where there is
    /// one, turned into the fault that stands for it.
    pub fn lift<T>(r: Result<T, MultiError>) -> (lifted: Result<T, EngineFault>)
        ensures
            r is Ok ==> lifted == Ok::<T, EngineFault>(r->Ok_0),
            r is Err ==> lifted == Err::<T, EngineFault>(EngineFault::multiplexer_fault(r->Err_0)),
    {
        match r {
            Ok(value) => Ok(value),
            Err(e) => Err(EngineFault::of_multiplexer(&e)),
        }
    }

    /// What the engine's result of one transfer becomes: a success stays as it
    /// is, and a failure becomes a fault that holds what the engine's error
    /// holds.
    pub open spec fn stands_for_result<T>(
        lifted: Result<T, EngineFault>,
        r: Result<T, curl::Error>,
    ) -> bool {
        match r {
            Ok(value) => lifted == Ok::<T, EngineFault>(value),
            Err(e) => lifted is Err && lifted->Err_0.stands_for_transfer(e),
        }
    }

    /// The same result with the failure of one transfer, where there is one,
    /// turned into the fault that stands for it.
    pub fn lift_transfer<T>(r: Result<T, curl::Error>) -> (lifted: Result<T, EngineFault>)
        ensures
            EngineFault::stands_for_result(lifted, r),
    {
        match r {
            Ok(value) => Ok(value),
            Err(e) => Err(EngineFault::of_transfer(&e)),
        }
    }

    /// Whether the fault is the engine's request to be advanced again at once.
    pub open spec fn asks_for_retry(self) -> bool {
        self matches EngineFault::Multiplexer { code } && code == CALL_PERFORM
    }

    /// Whether the fault is the engine's request to be advanced again at once.
    pub fn is_call_perform(&self) -> (b: bool)
        ensures
            b == self.asks_for_retry(),
    {
        match self {
            EngineFault::Multiplexer { code } => *code == CALL_PERFORM,
            EngineFault::Transfer { .. } => false,
        }
    }
}

} // verus!
