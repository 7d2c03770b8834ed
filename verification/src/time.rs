//! Timing a piece of work: two readings of the clock, and the span between
//! them in nanoseconds.
use std::time::Duration;
use std::time::Instant;
use vstd::prelude::*;

verus! {

/// A point in time of `std`.
#[verifier::external_type_specification]
#[verifier::external_body]
pub struct ExInstant(Instant);

/// `Instant::now`: the time at the moment of the call, of which nothing is
/// known beforehand.
#[verifier::external_body]
fn now() -> Instant {
    Instant::now()
}

/// `Instant::saturating_duration_since`: the time that passed from `start`
/// to `moment`, none where `moment` is not the later one. Nothing is known
/// of it beforehand.
#[verifier::external_body]
fn time_between(moment: &Instant, start: &Instant) -> Duration {
    moment.saturating_duration_since(*start)
}

/// `Duration::as_nanos`: the span in whole nanoseconds.
#[verifier::external_body]
fn whole_nanoseconds(span: &Duration) -> u128 {
    span.as_nanos()
}

/// A reading of the clock: the nanoseconds that have passed since `start`,
/// as many as the counter holds. Nothing is known of a reading beforehand.
pub fn precise_time_ns(start: &Instant) -> u64 {
    let moment = now();
    let passed = whole_nanoseconds(&time_between(&moment, start));
    if passed > 0xffff_ffff_ffff_ffff {
        0xffff_ffff_ffff_ffff
    } else {
        #[verifier::truncate] (passed as u64)
    }
}

/// The nanoseconds from one reading of the clock to a later one; none where
/// the second reading is not the later one.
pub open spec fn spec_span(before: u64, after: u64) -> u64 {
    if after >= before {
        (after - before) as u64
    } else {
        0
    }
}

/// The nanoseconds from one reading of the clock to a later one.
pub fn span(before: u64, after: u64) -> (out: u64)
    ensures
        out == spec_span(before, after),
{
    if after >= before {
        after - before
    } else {
        0
    }
}

/// What `duration_span` returns for a piece of work that gave `result`,
/// where the clock read `before` when the work began and `after` when it
/// had ended: the span between the readings beside the value of the work,
/// or the error of the work without a span.
pub fn timed<R, E>(before: u64, after: u64, result: Result<R, E>) -> (out: Result<(u64, R), E>)
    ensures
        out == match result {
            Ok(r) => Ok::<(u64, R), E>((spec_span(before, after), r)),
            Err(e) => Err::<(u64, R), E>(e),
        },
{
    match result {
        Ok(r) => Ok((span(before, after), r)),
        Err(e) => Err(e),
    }
}

/// Does the work `f` once, between two readings of the clock, and says how
/// many nanoseconds lie between the readings. The result of the work is
/// handed on as it is, an error without a span. The readings are whatever
/// the clock says: `timed` states what is returned for each pair of them.
pub fn duration_span<F, R, E>(f: F) -> (out: Result<(u64, R), E>)
    where F: FnOnce() -> Result<R, E>
    requires
        f.requires(()),
    ensures
        match out {
            Ok((_, r)) => f.ensures((), Ok::<R, E>(r)),
            Err(e) => f.ensures((), Err::<R, E>(e)),
        },
{
    let start = now();
    let before = precise_time_ns(&start);
    match f() {
        Err(e) => Err(e),
        Ok(r) => {
            let after = precise_time_ns(&start);
            timed(before, after, Ok(r))
        },
    }
}

} // verus!
