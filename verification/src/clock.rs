//! The time of day.

use std::time::SystemTime;
use vstd::prelude::*;

verus! {

/// How many nanoseconds a second has.
pub const NANOS_PER_SECOND: u128 = 1_000_000_000;

/// Whether a time span is given as whole seconds and the nanoseconds beyond them.
pub open spec fn is_span(span: (u64, u32)) -> bool {
    span.1 < NANOS_PER_SECOND
}

/// The nanoseconds since the Unix epoch, which was `elapsed` ago: 0 where it is yet to come.
pub open spec fn elapsed_nanos(elapsed: Option<(u64, u32)>) -> nat {
    match elapsed {
        Some((seconds, nanos)) => (seconds * NANOS_PER_SECOND + nanos) as nat,
        None => 0,
    }
}

/// `SystemTime::elapsed` on the Unix epoch: how long ago the epoch was, where the clock says that
/// it is past, as the whole seconds and the nanoseconds beyond them that the duration holds.
///
/// Claimed: the nanoseconds make less than a second. How much time has passed is left open: it
/// depends on the clock.
#[verifier::external_body]
fn since_unix_epoch() -> (elapsed: Option<(u64, u32)>)
    ensures
        elapsed matches Some(span) ==> is_span(span),
{
    let elapsed = SystemTime::UNIX_EPOCH.elapsed().ok()?;
    Some((elapsed.as_secs(), elapsed.subsec_nanos()))
}

/// The nanoseconds since the Unix epoch, which was `elapsed` ago: 0 where it is yet to come.
pub fn nanos_of(elapsed: Option<(u64, u32)>) -> (nanos: u128)
    ensures
        nanos == elapsed_nanos(elapsed),
{
    match elapsed {
        Some((seconds, nanos)) => seconds as u128 * NANOS_PER_SECOND + nanos as u128,
        None => 0,
    }
}

/// The nanoseconds since the Unix epoch, or 0 where the clock stands before it: those of the time
/// that has passed since then by the clock.
pub fn nanos_since_epoch() -> (nanos: u128)
    ensures
        exists|elapsed: Option<(u64, u32)>|
            {
                &&& nanos == #[trigger] elapsed_nanos(elapsed)
                &&& elapsed matches Some(span) ==> is_span(span)
            },
{
    let elapsed = since_unix_epoch();
    nanos_of(elapsed)
}

} // verus!
