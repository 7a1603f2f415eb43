//! The boundary to the runtime's channels.
//!
//! Nothing in this file is proved: each item states what the runtime's own
//! source shows of one of its types or functions.

use vstd::prelude::*;
use tokio::sync::mpsc::error::SendError;
use tokio::sync::oneshot::error::RecvError;
use tokio::sync::oneshot::{Receiver, Sender};
use tokio::task::JoinError;

verus! {

/// `tokio::sync::oneshot::Sender`: the sending half of a channel that carries
/// one value.
#[verifier::external_type_specification]
#[verifier::external_body]
#[verifier::reject_recursive_types(T)]
pub struct ExSender<T>(Sender<T>);

/// `tokio::sync::oneshot::Receiver`: the receiving half of a channel that
/// carries one value.
#[verifier::external_type_specification]
#[verifier::external_body]
#[verifier::reject_recursive_types(T)]
pub struct ExReceiver<T>(Receiver<T>);

/// `tokio::sync::oneshot::error::RecvError`: the sending half was dropped
/// before it sent.
#[verifier::external_type_specification]
#[verifier::external_body]
pub struct ExRecvError(RecvError);

/// `tokio::sync::mpsc::error::SendError`: the queue was closed; the error hands
/// the value back.
#[verifier::external_type_specification]
#[verifier::external_body]
#[verifier::reject_recursive_types(T)]
pub struct ExSendError<T>(SendError<T>);

/// `tokio::task::JoinError`: a spawned task did not run to completion.
#[verifier::external_type_specification]
#[verifier::external_body]
pub struct ExJoinError(JoinError);

/// `tokio::sync::mpsc::Sender`: a sending half of a bounded queue.
#[verifier::external_type_specification]
#[verifier::external_body]
#[verifier::reject_recursive_types(T)]
pub struct ExQueueSender<T>(tokio::sync::mpsc::Sender<T>);

/// `tokio::sync::mpsc::Receiver`: the receiving half of a bounded queue.
#[verifier::external_type_specification]
#[verifier::external_body]
#[verifier::reject_recursive_types(T)]
pub struct ExQueueReceiver<T>(tokio::sync::mpsc::Receiver<T>);

/// `tokio::sync::mpsc::channel`: a fresh queue with `buffer` places. The call
/// panics where `buffer` is zero or more than a semaphore of the runtime can
/// count, which is `usize::MAX >> 3`.
pub assume_specification<T>[ tokio::sync::mpsc::channel::<T> ](buffer: usize) -> (ends: (
    tokio::sync::mpsc::Sender<T>,
    tokio::sync::mpsc::Receiver<T>,
))
    requires
        0 < buffer <= usize::MAX / 8,
;

/// `tokio::sync::oneshot::channel`: a fresh channel for one value.
pub assume_specification<T>[ tokio::sync::oneshot::channel::<T> ]() -> (ends: (Sender<T>, Receiver<T>));

/// `tokio::sync::oneshot::Sender::send`: hands the value to the receiving half
/// without waiting. Where the receiving half is gone already, the value itself
/// comes back as the error.
pub assume_specification<T>[ Sender::<T>::send ](sender: Sender<T>, t: T) -> (r: Result<(), T>)
    ensures
        r is Err ==> r->Err_0 == t,
;

} // verus!
