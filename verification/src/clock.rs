//! Reading the system clock as seconds since the Unix epoch. The claims
//! encoder backdates this reading by a fixed skew before using it; the
//! reading itself is the one environment-dependent step of the library.

use std::time::SystemTime;
use std::time::UNIX_EPOCH;
use vstd::prelude::*;

verus! {

/// Whole seconds since the Unix epoch of an instant, as a signed count.
///
/// The instant is given as the whole seconds between the epoch and it. An
/// instant too far in the future for a signed count indicates a broken
/// system clock and is excluded outright; one before the epoch cannot be
/// given at all.
pub fn timestamp(secs_since_epoch: u64) -> (r: i64)
    requires
        secs_since_epoch <= i64::MAX as u64,
    ensures
        r == secs_since_epoch as i64,
{
    secs_since_epoch as i64
}

/// Relies on `std::time::SystemTime::now` and `SystemTime::duration_since`
/// against `UNIX_EPOCH` (with `Duration::as_secs`): the current instant as
/// whole seconds since the Unix epoch. A clock that reads before the epoch,
/// or beyond the range of a signed count of seconds, is an unrecoverable
/// environment failure that no caller can remedy: the call aborts the
/// process rather than return.
#[verifier::external_body]
pub(crate) fn now_epoch_secs() -> (r: i64)
    ensures
        0 <= r,
{
    let secs: u64 = SystemTime::now()
        .duration_since(UNIX_EPOCH)
        .expect("Clock may have gone backwards")
        .as_secs();
    secs.try_into().expect("SystemTime before UNIX EPOCH")
}

} // verus!
