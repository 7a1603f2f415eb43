//! The request envelope, what the isolated blocking strategy decides, and what
//! a caller is told of its submission.

use vstd::prelude::*;
use curl::easy::Easy2;
use tokio::sync::mpsc::error::SendError;
use tokio::sync::oneshot::error::RecvError;
use tokio::sync::oneshot::{Receiver, Sender};
use tokio::task::JoinError;
use crate::error::{AsyncCurlError, EngineFault};
use crate::registered::{Progress, Registered};

verus! {

/// The number of envelopes that the request queue holds: with one place,
/// a caller waits until the worker has taken the envelope before it.
pub const QUEUE_CAPACITY: usize = 1;

/// The wait that is assumed where the engine suggests none, in milliseconds.
pub const DEFAULT_TIMEOUT_MS: u128 = 2000;

/// One submitted transfer with the sending half of its reply channel.
#[verifier::reject_recursive_types(H)]
pub struct Request<H>(Easy2<H>, Sender<Result<Easy2<H>, AsyncCurlError>>);

impl<H> Request<H> {
    /// The transfer that the envelope carries.
    pub closed spec fn transfer(self) -> Easy2<H> {
        self.0
    }

    /// The sending half of the reply channel that the envelope carries.
    pub closed spec fn reply_to(self) -> Sender<Result<Easy2<H>, AsyncCurlError>> {
        self.1
    }

    /// Puts the transfer into an envelope with a fresh reply channel, and
    /// returns the envelope with the receiving half of that channel.
    pub fn new(easy2: Easy2<H>) -> (r: (Request<H>, Receiver<Result<Easy2<H>, AsyncCurlError>>))
        ensures
            r.0.transfer() == easy2,
    {
        let (sender, receiver) = tokio::sync::oneshot::channel();
        (Request(easy2, sender), receiver)
    }

    /// Opens the envelope.
    pub fn into_parts(self) -> (parts: (Easy2<H>, Sender<Result<Easy2<H>, AsyncCurlError>>))
        ensures
            parts.0 == self.transfer(),
            parts.1 == self.reply_to(),
    {
        (self.0, self.1)
    }
}

/// The request queue of one dispatcher: a fresh queue with `QUEUE_CAPACITY`
/// places, whose sending half the callers share and whose receiving half the
/// worker owns.
pub fn request_queue<H>() -> (ends: (
    tokio::sync::mpsc::Sender<Request<H>>,
    tokio::sync::mpsc::Receiver<Request<H>>,
)) {
    tokio::sync::mpsc::channel(QUEUE_CAPACITY)
}

/// Sends the reply through the reply channel. Where the caller has gone, the
/// reply comes back untouched; nothing else happens, and nothing fails.
pub fn deliver<T>(sender: Sender<T>, reply: T) -> (undelivered: Option<T>)
    ensures
        undelivered is Some ==> undelivered == Some(reply),
{
    match sender.send(reply) {
        Ok(()) => None,
        Err(reply) => Some(reply),
    }
}

/// What a strategy returns for the transfer's own result: the transfer itself
/// where the engine succeeded, and the engine's fault as an `EngineError` where
/// it failed.
pub open spec fn performed<T>(transfer: T, outcome: Result<(), EngineFault>) -> Result<
    T,
    AsyncCurlError,
> {
    match outcome {
        Ok(_) => Ok(transfer),
        Err(fault) => Err(AsyncCurlError::EngineError(fault)),
    }
}

/// Turns the transfer's own result into the strategy's result.
pub fn settle<T>(transfer: T, outcome: Result<(), EngineFault>) -> (r: Result<T, AsyncCurlError>)
    ensures
        r == performed(transfer, outcome),
{
    match outcome {
        Ok(()) => Ok(transfer),
        Err(fault) => Err(AsyncCurlError::EngineError(fault)),
    }
}

/// What a driver does after one advance step of a registered transfer.
#[derive(Debug, Clone, Copy, PartialEq, Eq)]
pub enum Pacing {
    /// No transfer is in progress any more: take the transfer out.
    Finish,
    /// Advance again at once.
    Advance,
    /// Pause for so many milliseconds, then advance again.
    Pause(u64),
}

/// The wait that follows from the engine's answer, in milliseconds: the wait
/// that it suggests, `DEFAULT_TIMEOUT_MS` where it suggests none, and no wait
/// where it asks to be advanced again at once. Any other failure of the engine
/// is an `EngineError`.
pub open spec fn wait_says(timeout: Result<Option<u128>, EngineFault>) -> Result<
    u128,
    AsyncCurlError,
> {
    match timeout {
        Ok(Some(ms)) => Ok(ms),
        Ok(None) => Ok(DEFAULT_TIMEOUT_MS),
        Err(fault) => if fault.asks_for_retry() {
            Ok(0u128)
        } else {
            Err(AsyncCurlError::EngineError(fault))
        },
    }
}

/// A wait in milliseconds as a pause that a driver can make: the wait itself, or
/// the longest pause that there is where the wait is longer.
pub open spec fn pause_within(ms: u128) -> u64 {
    if ms > u64::MAX {
        u64::MAX
    } else {
        ms as u64
    }
}

/// What a driver does while the transfer is in progress: it pauses for the wait
/// that follows from the engine's answer, and advances at once where that wait
/// is zero.
pub open spec fn pacing_says(timeout: Result<Option<u128>, EngineFault>) -> Result<
    Pacing,
    AsyncCurlError,
> {
    match wait_says(timeout) {
        Ok(ms) => Ok(
            if ms == 0 {
                Pacing::Advance
            } else {
                Pacing::Pause(pause_within(ms))
            },
        ),
        Err(error) => Err(error),
    }
}

/// Decides from the engine's answer whether, and for how long, a driver pauses
/// before the next advance step.
pub fn pacing_for(timeout: Result<Option<u128>, EngineFault>) -> (r: Result<Pacing, AsyncCurlError>)
    ensures
        r == pacing_says(timeout),
{
    let wait: u128 = match timeout {
        Ok(Some(ms)) => ms,
        Ok(None) => DEFAULT_TIMEOUT_MS,
        Err(fault) => {
            if !fault.is_call_perform() {
                return Err(AsyncCurlError::EngineError(fault));
            }
            0
        },
    };
    if wait == 0 {
        Ok(Pacing::Advance)
    } else if wait > u64::MAX as u128 {
        Ok(Pacing::Pause(u64::MAX))
    } else {
        Ok(Pacing::Pause(wait as u64))
    }
}

/// What follows from the transfer's progress alone: a transfer that has
/// finished is to be taken out, and for one in progress the engine's suggestion
/// decides.
pub open spec fn pacing_when(progress: Progress) -> Option<Pacing> {
    match progress {
        Progress::Finished => Some(Pacing::Finish),
        Progress::InProgress => None,
    }
}

/// Decides from the transfer's progress alone what a driver does, where that
/// is enough to decide.
pub fn pacing_of(progress: Progress) -> (r: Option<Pacing>)
    ensures
        r == pacing_when(progress),
{
    match progress {
        Progress::Finished => Some(Pacing::Finish),
        Progress::InProgress => None,
    }
}

/// Advances a registered transfer by one step and tells the driver what to do
/// next.
///
/// Where the step's progress decides, the answer is what `pacing_when` gives
/// for it. Otherwise the engine is asked for the wait it suggests, and the
/// answer is what `pacing_says` gives for it: a pause is never zero. A failure
/// of the step, or one of the question other than the request to advance again
/// at once, is returned as an `EngineError` that holds the multiplexing engine's
/// fault.
pub fn advance_paced<H>(registered: &Registered<H>) -> (r: Result<Pacing, AsyncCurlError>)
    ensures
        r is Err ==> r->Err_0 is EngineError && r->Err_0->EngineError_0 is Multiplexer,
        r is Ok && r->Ok_0 is Pause ==> r->Ok_0->Pause_0 > 0,
{
    let progress = match registered.advance() {
        Ok(progress) => progress,
        Err(error) => {
            return Err(error);
        },
    };
    match pacing_of(progress) {
        Some(pacing) => Ok(pacing),
        None => pacing_for(registered.suggested_wait()),
    }
}

/// What the strategy returns once the thread that ran the transfer has been
/// joined: the thread's own result, or `ThreadJoinError` where the thread ended
/// abnormally.
pub fn after_join<T>(joined: Result<Result<T, AsyncCurlError>, JoinError>) -> (r: Result<
    T,
    AsyncCurlError,
>)
    ensures
        joined is Ok ==> r == joined->Ok_0,
        joined is Err ==> r == Err::<T, AsyncCurlError>(AsyncCurlError::ThreadJoinError),
{
    match joined {
        Ok(result) => result,
        Err(_) => Err(AsyncCurlError::ThreadJoinError),
    }
}

/// What a caller is told once its envelope was offered to the request queue:
/// `QueueClosed` where the queue did not take it, because the worker has ended.
pub fn after_enqueue<T>(sent: Result<(), SendError<T>>) -> (r: Result<(), AsyncCurlError>)
    ensures
        sent is Ok ==> r == Ok::<(), AsyncCurlError>(()),
        sent is Err ==> r == Err::<(), AsyncCurlError>(AsyncCurlError::QueueClosed),
{
    match sent {
        Ok(()) => Ok(()),
        Err(_) => Err(AsyncCurlError::QueueClosed),
    }
}

/// What a caller is told once its reply channel has resolved: the reply itself,
/// or `ReplyChannelClosed` where the sending half was dropped without a reply.
pub fn after_reply<T>(received: Result<Result<T, AsyncCurlError>, RecvError>) -> (r: Result<
    T,
    AsyncCurlError,
>)
    ensures
        received is Ok ==> r == received->Ok_0,
        received is Err ==> r == Err::<T, AsyncCurlError>(AsyncCurlError::ReplyChannelClosed),
{
    match received {
        Ok(reply) => reply,
        Err(_) => Err(AsyncCurlError::ReplyChannelClosed),
    }
}

} // verus!
