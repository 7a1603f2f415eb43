//! The boundary to the transfer engine.
//!
//! Nothing in this file is proved: each item states what the engine's own
//! source shows of one of its functions. What a transfer returns depends on the
//! network, so the results of the calls that drive it carry no claim beyond
//! their type.

use vstd::prelude::*;
use curl::easy::Easy2;
use curl::multi::{Easy2Handle, Multi};
use curl::MultiError;
use std::time::Duration;

verus! {

/// `curl::easy::Easy2`: one configured transfer with its response sink.
#[verifier::external_type_specification]
#[verifier::external_body]
#[verifier::reject_recursive_types(H)]
pub struct ExEasy2<H>(Easy2<H>);

/// `curl::multi::Multi`: the multiplexing engine.
#[verifier::external_type_specification]
#[verifier::external_body]
pub struct ExMulti(Multi);

/// `curl::multi::Easy2Handle`: a transfer while the multiplexing engine owns it.
#[verifier::external_type_specification]
#[verifier::external_body]
#[verifier::reject_recursive_types(H)]
pub struct ExEasy2Handle<H>(Easy2Handle<H>);

/// `curl::Error`: the failure of one transfer.
#[verifier::external_type_specification]
#[verifier::external_body]
pub struct ExEasyError(curl::Error);

/// `curl::MultiError`: a failure of the multiplexing engine.
#[verifier::external_type_specification]
#[verifier::external_body]
pub struct ExMultiError(MultiError);

/// The result code that a `curl::Error` wraps: what `curl::Error::code`
/// returns for it.
pub uninterp spec fn transfer_error_code(e: curl::Error) -> u32;

/// The message that a `curl::Error` carries, if it carries one: what
/// `curl::Error::extra_description` returns for it.
pub uninterp spec fn transfer_error_extra(e: curl::Error) -> Option<Seq<char>>;

/// The result code that a `curl::MultiError` wraps: what
/// `curl::MultiError::code` returns for it.
pub uninterp spec fn multi_error_code(e: MultiError) -> i32;

/// `curl::Error::code`: the engine's result code that the error wraps. The
/// call reads a field of the error, so the same error gives the same code.
pub assume_specification[ curl::Error::code ](e: &curl::Error) -> (code: u32)
    ensures
        code == transfer_error_code(*e),
;

/// `curl::Error::extra_description`: the message that the engine recorded with
/// the failure, if it recorded one. The call reads a field of the error, so the
/// same error gives the same message.
pub assume_specification<'a>[ curl::Error::extra_description ](e: &'a curl::Error) -> (extra: Option<&'a str>)
    ensures
        extra is Some <==> transfer_error_extra(*e) is Some,
        extra is Some ==> extra->Some_0@ == transfer_error_extra(*e)->Some_0,
;

/// `curl::MultiError::code`: the engine's result code that the error wraps. The
/// call reads a field of the error, so the same error gives the same code.
pub assume_specification[ MultiError::code ](e: &MultiError) -> (code: i32)
    ensures
        code == multi_error_code(*e),
;

/// `curl::multi::Multi::new`: a fresh multiplexing engine with no transfer
/// registered. The call panics only where the engine cannot be allocated.
pub assume_specification[ Multi::new ]() -> (multi: Multi);

/// `curl::multi::Multi::add2`: registers the transfer with the engine and hands
/// back the handle that stands for it, or the engine's refusal.
pub assume_specification<H>[ Multi::add2::<H> ](multi: &Multi, easy: Easy2<H>) -> (r: Result<Easy2Handle<H>, MultiError>);

/// `curl::multi::Multi::perform`: advances every registered transfer without
/// blocking and tells how many are still in progress.
pub assume_specification[ Multi::perform ](multi: &Multi) -> (r: Result<u32, MultiError>);

/// `curl::multi::Multi::remove2`: takes the transfer out of the engine and hands
/// it back.
pub assume_specification<H>[ Multi::remove2::<H> ](multi: &Multi, easy: Easy2Handle<H>) -> (r: Result<Easy2<H>, MultiError>);

/// `curl::multi::Multi::wait` with no extra descriptors: blocks until one of the
/// engine's own sockets is ready or `ceiling_ms` milliseconds have passed, and
/// tells on how many sockets something happened. The engine counts the wait in
/// an `i32` of milliseconds, and its own clamping leaves out a few values just
/// above that range, on which the sum overflows: the wait is to fit.
#[verifier::external_body]
pub(crate) fn multi_wait(multi: &Multi, ceiling_ms: u64) -> (r: Result<u32, MultiError>)
    requires
        ceiling_ms <= 2_147_483_647,
{
    multi.wait(&mut [], Duration::from_millis(ceiling_ms))
}

/// `curl::multi::Multi::messages` with `curl::multi::Message::result_for2`: takes
/// every message that the engine holds out of it and gives, for each in turn,
/// what it tells of this transfer: the transfer's result where the message says
/// that this transfer has ended, and nothing where the message is of another
/// kind or of another transfer.
#[verifier::external_body]
pub(crate) fn transfer_results<H>(multi: &Multi, handle: &Easy2Handle<H>) -> (results: Vec<
    Option<Result<(), curl::Error>>,
>) {
    let mut results = Vec::new();
    multi.messages(|message| results.push(message.result_for2(handle)));
    results
}

/// `curl::multi::Multi::get_timeout`: how long the engine suggests to wait before
/// the next advance step, in milliseconds, or `None` where it has no suggestion.
/// The engine counts in whole milliseconds, so nothing is lost.
#[verifier::external_body]
pub(crate) fn multi_timeout_ms(multi: &Multi) -> (r: Result<Option<u128>, MultiError>) {
    match multi.get_timeout() {
        Ok(Some(d)) => Ok(Some(d.as_millis())),
        Ok(None) => Ok(None),
        Err(e) => Err(e),
    }
}

} // verus!
