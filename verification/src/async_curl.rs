//! The cooperative multiplexed strategy: the transfer is registered with a
//! multiplexing engine, which is advanced and waited on in turn until no
//! transfer is in progress.

use vstd::prelude::*;
use curl::easy::Easy2;
use crate::error::AsyncCurlError;
use crate::registered::{Progress, Registered};

verus! {

/// The longest that one wait between two advance steps may last, in
/// milliseconds.
pub const WAIT_CEILING_MS: u64 = 1000;

/// The number of waits that one transfer is granted. It is there so that the
/// driver is known to end; no transfer comes near it.
pub const MAX_ADVANCES: u64 = u64::MAX;

/// What the driver does after one advance step.
#[derive(Debug, Clone, Copy, PartialEq, Eq, Structural)]
pub enum Move {
    /// Read the transfer's result, take the transfer out and return.
    Release,
    /// Wait for at most `WAIT_CEILING_MS`, then advance again.
    Wait,
    /// Give the transfer up as `Unfinished`.
    GiveUp,
}

/// What follows from an advance step after `waits` waits: the transfer is
/// released once it has finished; while it is in progress the driver waits, and
/// gives up only when it has waited `MAX_ADVANCES` times.
pub open spec fn move_says(waits: u64, progress: Progress) -> Move {
    match progress {
        Progress::Finished => Move::Release,
        Progress::InProgress => if waits < MAX_ADVANCES {
            Move::Wait
        } else {
            Move::GiveUp
        },
    }
}

/// Decides what the driver does after one advance step.
pub fn next_move(waits: u64, progress: Progress) -> (m: Move)
    ensures
        m == move_says(waits, progress),
{
    match progress {
        Progress::Finished => Move::Release,
        Progress::InProgress => if waits < MAX_ADVANCES {
            Move::Wait
        } else {
            Move::GiveUp
        },
    }
}

/// Drives one transfer to completion through a multiplexing engine of its own.
///
/// The transfer is registered and advanced; after each advance step the driver
/// does what `move_says` gives. Once no transfer is in progress, the transfer's
/// own result is read, and the transfer is taken out again and returned. A
/// transfer that has failed, and the first failure that the engine reports in
/// whichever of these calls, is returned as an `EngineError`. The only other
/// error is `Unfinished`.
pub fn perform_curl_multi<H>(easy2: Easy2<H>) -> (r: Result<Easy2<H>, AsyncCurlError>)
    ensures
        r is Err ==> r->Err_0 is EngineError || r->Err_0 is Unfinished,
{
    let registered = match Registered::register(easy2) {
        Ok(registered) => registered,
        Err(error) => {
            return Err(error);
        },
    };
    let mut waits: u64 = 0;
    loop
        invariant
            waits <= MAX_ADVANCES,
        decreases MAX_ADVANCES - waits,
    {
        let progress = match registered.advance() {
            Ok(progress) => progress,
            Err(error) => {
                return Err(error);
            },
        };
        match next_move(waits, progress) {
            Move::Release => {
                return registered.finish();
            },
            Move::GiveUp => {
                return Err(AsyncCurlError::Unfinished);
            },
            Move::Wait => {},
        }
        match registered.wait(WAIT_CEILING_MS) {
            Ok(()) => {},
            Err(error) => {
                return Err(error);
            },
        }
        waits = waits + 1;
    }
}

} // verus!
