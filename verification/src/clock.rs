//! Wall-clock access.
//!
//! All instants in this crate are whole milliseconds since the Unix epoch and
//! all durations are whole milliseconds, both held in a `u64`.

use std::collections::hash_map::DefaultHasher;
use std::hash::Hasher;
use std::time::SystemTime;
use std::time::UNIX_EPOCH;
use vstd::bytes::spec_u128_to_le_bytes;
use vstd::bytes::u128_to_le_bytes;
use vstd::prelude::*;
use vstd::std_specs::hash::DefaultHasherAdditionalSpecFns;

verus! {

/// Milliseconds in one second.
pub const MILLIS_PER_SECOND: u64 = 1000;

/// Nanoseconds in one millisecond.
pub const NANOS_PER_MILLI: u128 = 1_000_000;

/// Reads the system clock with `SystemTime::now` and converts the reading to
/// nanoseconds since the Unix epoch, zero for a reading before the epoch.
/// Nothing is claimed of the value: two readings may differ in either
/// direction.
#[verifier::external_body]
fn system_time_nanos() -> (now: u128) {
    match SystemTime::now().duration_since(UNIX_EPOCH) {
        Ok(elapsed) => elapsed.as_nanos(),
        Err(_) => 0u128,
    }
}

/// The instant of `nanos` nanoseconds since the Unix epoch in whole
/// milliseconds, capped at the largest `u64`.
pub open spec fn millis_of_nanos(nanos: u128) -> u64 {
    if nanos / NANOS_PER_MILLI > u64::MAX {
        u64::MAX
    } else {
        (nanos / NANOS_PER_MILLI) as u64
    }
}

/// Converts nanoseconds since the Unix epoch to whole milliseconds.
pub fn nanos_to_millis(nanos: u128) -> (millis: u64)
    ensures
        millis == millis_of_nanos(nanos),
{
    let millis: u128 = nanos / 1_000_000;
    if millis > u64::MAX as u128 {
        u64::MAX
    } else {
        millis as u64
    }
}

/// The current wall-clock time in milliseconds since the Unix epoch.
pub fn now_millis() -> (now: u64) {
    nanos_to_millis(system_time_nanos())
}

/// A pseudo-random value: the hash of a reading of the system clock, as
/// [`entropy_from`] gives it for the reading.
pub fn clock_entropy() -> (random: u64)
    ensures
        exists|nanos: u128| random == #[trigger] entropy_of(nanos),
{
    entropy_from(system_time_nanos())
}

/// The pseudo-random value for a clock reading of `nanos` nanoseconds: what
/// a `DefaultHasher` makes of the sixteen bytes of the reading, lowest
/// first, written to it in one piece.
pub open spec fn entropy_of(nanos: u128) -> u64 {
    DefaultHasher::spec_finish(seq![spec_u128_to_le_bytes(nanos)])
}

/// Hashes a clock reading of `nanos` nanoseconds into a pseudo-random
/// value.
pub fn entropy_from(nanos: u128) -> (random: u64)
    ensures
        random == entropy_of(nanos),
{
    let bytes = u128_to_le_bytes(nanos);
    let mut hasher = DefaultHasher::new();
    hasher.write(bytes.as_slice());
    hasher.finish()
}

} // verus!
