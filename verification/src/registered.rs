//! A transfer in the hands of a multiplexing engine, and the steps by which a
//! driver takes it to completion.

use vstd::prelude::*;
use curl::easy::Easy2;
use curl::multi::{Easy2Handle, Multi};
use crate::actor::{performed, settle};
use crate::engine::{multi_timeout_ms, multi_wait, transfer_results};
use crate::error::{AsyncCurlError, EngineFault};

verus! {

/// Where a transfer stands after one advance step.
#[derive(Debug, Clone, Copy, PartialEq, Eq)]
pub enum Progress {
    /// No transfer is in progress any more.
    Finished,
    /// The transfer is still in progress.
    InProgress,
}

/// What follows from one advance step: the transfer is finished once the engine
/// counts no transfer in progress, and a failure of the engine is an
/// `EngineError` that holds its fault.
pub open spec fn progress_says(step: Result<u32, EngineFault>) -> Result<Progress, AsyncCurlError> {
    match step {
        Ok(active) => Ok(
            if active == 0 {
                Progress::Finished
            } else {
                Progress::InProgress
            },
        ),
        Err(fault) => Err(AsyncCurlError::EngineError(fault)),
    }
}

/// Reads off one advance step where the transfer stands.
pub fn progress_after(step: Result<u32, EngineFault>) -> (r: Result<Progress, AsyncCurlError>)
    ensures
        r == progress_says(step),
{
    match step {
        Ok(active) => if active == 0 {
            Ok(Progress::Finished)
        } else {
            Ok(Progress::InProgress)
        },
        Err(fault) => Err(AsyncCurlError::EngineError(fault)),
    }
}

/// The longest wait that the engine can count, in milliseconds.
pub const MAX_WAIT_MS: u64 = 2_147_483_647;

/// The wait that is handed to the engine for a ceiling: the ceiling itself, or
/// the longest wait that the engine can count where the ceiling is longer.
pub open spec fn wait_within(ceiling_ms: u64) -> u64 {
    if ceiling_ms > MAX_WAIT_MS {
        MAX_WAIT_MS
    } else {
        ceiling_ms
    }
}

/// Cuts a ceiling down to the longest wait that the engine can count.
pub fn clamp_wait(ceiling_ms: u64) -> (ms: u64)
    ensures
        ms == wait_within(ceiling_ms),
{
    if ceiling_ms > MAX_WAIT_MS {
        MAX_WAIT_MS
    } else {
        ceiling_ms
    }
}

/// Whether the entry at `i` is the first in which the engine tells the
/// transfer's result.
pub open spec fn tells_first(results: Seq<Option<Result<(), curl::Error>>>, i: int) -> bool {
    &&& 0 <= i < results.len()
    &&& results[i] is Some
    &&& forall|j: int| 0 <= j < i ==> results[j] is None
}

/// Whether `outcome` is the transfer's own result as the engine's messages tell
/// it: what the first message that tells a result says, a failure as the fault
/// that stands for it; and a success where no message tells a result.
pub open spec fn outcome_says(
    results: Seq<Option<Result<(), curl::Error>>>,
    outcome: Result<(), EngineFault>,
) -> bool {
    &&& (forall|i: int| 0 <= i < results.len() ==> results[i] is None) ==> outcome is Ok
    &&& forall|i: int| #[trigger]
        tells_first(results, i) ==> EngineFault::stands_for_result(outcome, results[i]->Some_0)
}

/// Reads the transfer's own result off what the engine's messages tell of it.
pub fn transfer_outcome(results: &Vec<Option<Result<(), curl::Error>>>) -> (outcome: Result<
    (),
    EngineFault,
>)
    ensures
        outcome_says(results@, outcome),
{
    let mut i: usize = 0;
    while i < results.len()
        invariant
            i <= results.len(),
            forall|j: int| 0 <= j < i ==> results@[j] is None,
        decreases results.len() - i,
    {
        match &results[i] {
            Some(Ok(())) => {
                return Ok(());
            },
            Some(Err(e)) => {
                return Err(EngineFault::of_transfer(e));
            },
            None => {},
        }
        i = i + 1;
    }
    Ok(())
}

/// What finishing returns: the engine's fault where it fails to release the
/// transfer, and otherwise the transfer itself or the fault of its own result.
pub open spec fn finish_says<T>(
    released: Result<T, EngineFault>,
    outcome: Result<(), EngineFault>,
) -> Result<T, AsyncCurlError> {
    match released {
        Ok(transfer) => performed(transfer, outcome),
        Err(fault) => Err(AsyncCurlError::EngineError(fault)),
    }
}

/// Settles a transfer that the engine was asked to release, given the
/// transfer's own result.
pub fn finish_with<T>(released: Result<T, EngineFault>, outcome: Result<(), EngineFault>) -> (r:
    Result<T, AsyncCurlError>)
    ensures
        r == finish_says(released, outcome),
{
    match released {
        Ok(transfer) => settle(transfer, outcome),
        Err(fault) => Err(AsyncCurlError::EngineError(fault)),
    }
}

/// A transfer while a multiplexing engine of its own holds it.
#[verifier::reject_recursive_types(H)]
pub struct Registered<H> {
    multi: Multi,
    handle: Easy2Handle<H>,
}

impl<H> Registered<H> {
    /// Registers the transfer with a fresh multiplexing engine. Where the engine
    /// refuses it, its fault is returned as an `EngineError`.
    pub fn register(easy2: Easy2<H>) -> (r: Result<Registered<H>, AsyncCurlError>)
        ensures
            r is Err ==> r->Err_0 is EngineError && r->Err_0->EngineError_0 is Multiplexer,
    {
        let multi = Multi::new();
        match EngineFault::lift(multi.add2(easy2)) {
            Ok(handle) => Ok(Registered { multi, handle }),
            Err(fault) => Err(AsyncCurlError::EngineError(fault)),
        }
    }

    /// Advances the transfer by one step without blocking and tells where it
    /// stands. A failure of the engine is returned as an `EngineError`.
    pub fn advance(&self) -> (r: Result<Progress, AsyncCurlError>)
        ensures
            r is Err ==> r->Err_0 is EngineError && r->Err_0->EngineError_0 is Multiplexer,
    {
        progress_after(EngineFault::lift(self.multi.perform()))
    }

    /// Blocks until something happens on the transfer's sockets, for at most
    /// `ceiling_ms` milliseconds, or for the longest wait that the engine can
    /// count where `ceiling_ms` is longer. A failure of the engine is returned
    /// as an `EngineError`.
    pub fn wait(&self, ceiling_ms: u64) -> (r: Result<(), AsyncCurlError>)
        ensures
            r is Err ==> r->Err_0 is EngineError && r->Err_0->EngineError_0 is Multiplexer,
    {
        match EngineFault::lift(multi_wait(&self.multi, clamp_wait(ceiling_ms))) {
            Ok(_) => Ok(()),
            Err(fault) => Err(AsyncCurlError::EngineError(fault)),
        }
    }

    /// Asks the engine how long it suggests to wait before the next advance
    /// step, in milliseconds; `None` where it suggests nothing.
    pub fn suggested_wait(&self) -> (r: Result<Option<u128>, EngineFault>)
        ensures
            r is Err ==> r->Err_0 is Multiplexer,
    {
        EngineFault::lift(multi_timeout_ms(&self.multi))
    }

    /// Reads the transfer's own result from the engine, takes the transfer out
    /// of the engine, and returns it where that result is a success.
    ///
    /// A transfer that has failed comes back as an `EngineError` that holds the
    /// fault of that transfer. Where the engine fails to release the transfer,
    /// the engine's fault comes back instead. No other error is ever returned.
    pub fn finish(self) -> (r: Result<Easy2<H>, AsyncCurlError>)
        ensures
            r is Err ==> r->Err_0 is EngineError,
    {
        let results = transfer_results(&self.multi, &self.handle);
        let outcome = transfer_outcome(&results);
        finish_with(EngineFault::lift(self.multi.remove2(self.handle)), outcome)
    }
}

} // verus!
