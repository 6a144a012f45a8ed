//! Durations, given as whole seconds and the nanoseconds past them.
use vstd::prelude::*;

verus! {

/// The number of nanoseconds in less than a second.
pub open spec fn subsec_valid(subsec_nanos: u32) -> bool {
    subsec_nanos < 1_000_000_000
}

/// Whole milliseconds in a duration, as `buffett_timing` counts them.
pub open spec fn millis_of(secs: int, subsec_nanos: int) -> int {
    secs * 1000 + subsec_nanos / 1_000_000
}

/// Nanoseconds in a duration.
pub open spec fn nanos_of(secs: int, subsec_nanos: int) -> int {
    secs * 1_000_000_000 + subsec_nanos
}

/// The milliseconds of a duration are its nanoseconds rounded down to whole
/// milliseconds.
pub proof fn lemma_millis_are_rounded_nanos(secs: int, subsec_nanos: int)
    requires
        secs >= 0,
        0 <= subsec_nanos < 1_000_000_000,
    ensures
        millis_of(secs, subsec_nanos) * 1_000_000 <= nanos_of(secs, subsec_nanos),
        nanos_of(secs, subsec_nanos) < (millis_of(secs, subsec_nanos) + 1) * 1_000_000,
{
    vstd::arithmetic::div_mod::lemma_fundamental_div_mod(subsec_nanos, 1_000_000);
}

/// `buffett_timing::timing::duration_in_milliseconds` on the duration of
/// `secs` seconds and `subsec_nanos` nanoseconds. Its source returns
/// `secs * 1000 + subsec_nanos / 1_000_000` with unchecked arithmetic, which
/// overflows only when that sum exceeds `u64::MAX`; `requires` leaves that out,
/// and the nanoseconds under a second, so that building the duration cannot panic.
#[verifier::external_body]
pub(crate) fn duration_in_milliseconds(secs: u64, subsec_nanos: u32) -> (r: u64)
    requires
        subsec_valid(subsec_nanos),
        millis_of(secs as int, subsec_nanos as int) <= u64::MAX,
    ensures
        r == millis_of(secs as int, subsec_nanos as int),
{
    buffett_timing::timing::duration_in_milliseconds(&std::time::Duration::new(secs, subsec_nanos))
}

/// Nanoseconds in the duration of `secs` seconds and `subsec_nanos` nanoseconds.
pub fn elapsed_nanos(secs: u64, subsec_nanos: u32) -> (r: u64)
    requires
        nanos_of(secs as int, subsec_nanos as int) <= u64::MAX,
    ensures
        r == nanos_of(secs as int, subsec_nanos as int),
{
    secs * 1_000_000_000 + subsec_nanos as u64
}

/// Whole seconds in `nanos` nanoseconds.
pub fn whole_seconds(nanos: u64) -> (r: u64)
    ensures
        r == nanos / 1_000_000_000,
{
    nanos / 1_000_000_000
}

} // verus!
