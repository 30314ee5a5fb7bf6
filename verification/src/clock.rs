//! The clock, of whose readings nothing is promised: what depends on them is
//! stated for every reading.
use std::time::{Duration, Instant};
use vstd::prelude::*;

verus! {

/// A point in time.
#[verifier::external_type_specification]
#[verifier::external_body]
pub struct ExInstant(std::time::Instant);

/// `Instant::now`: some point in time.
pub assume_specification[ std::time::Instant::now ]() -> std::time::Instant;

/// `Instant::elapsed`: some span of time.
pub assume_specification[ std::time::Instant::elapsed ](start: &std::time::Instant) -> Duration;

/// `Duration::as_nanos`: a span of time as a number, of which nothing is said.
pub assume_specification[ Duration::as_nanos ](d: &Duration) -> u128;

/// That `start` was the time when the clock was read.
pub open spec fn began(start: Instant) -> bool {
    call_ensures(Instant::now, (), start)
}

/// That the clock, when it was read, gave `ns` nanoseconds since `start`.
pub open spec fn read_as(start: Instant, ns: u128) -> bool {
    exists|d: Duration| #[trigger]
        call_ensures(Instant::elapsed, (&start,), d) && call_ensures(
            Duration::as_nanos,
            (&d,),
            ns,
        )
}

/// That the clock was read and gave more than `limit_ns` nanoseconds since an
/// earlier reading.
pub open spec fn ran_out(limit_ns: u64) -> bool {
    exists|start: Instant, ns: u128|
        began(start) && #[trigger] read_as(start, ns) && ns > limit_ns
}

/// That the clock was read and gave at least `limit_ns` nanoseconds since an
/// earlier reading.
pub open spec fn was_reached(limit_ns: u64) -> bool {
    exists|start: Instant, ns: u128|
        began(start) && #[trigger] read_as(start, ns) && ns >= limit_ns
}

/// Starts measuring time: reads the clock.
pub fn start() -> (r: Instant)
    ensures
        began(r),
{
    Instant::now()
}

/// Whether more than `limit_ns` nanoseconds have passed since `start`, as the
/// clock gives it now. Either answer may come at any time.
pub fn passed(start: &Instant, limit_ns: u64) -> (r: bool)
    ensures
        exists|ns: u128| #[trigger] read_as(*start, ns) && r == (ns > limit_ns),
{
    let d = start.elapsed();
    let ns: u128 = d.as_nanos();
    assert(read_as(*start, ns));
    ns > limit_ns as u128
}

/// Whether `limit_ns` nanoseconds or more have passed since `start`, as the clock
/// gives it now. Either answer may come at any time.
pub fn reached(start: &Instant, limit_ns: u64) -> (r: bool)
    ensures
        exists|ns: u128| #[trigger] read_as(*start, ns) && r == (ns >= limit_ns),
{
    let d = start.elapsed();
    let ns: u128 = d.as_nanos();
    assert(read_as(*start, ns));
    ns >= limit_ns as u128
}

/// A limit has run out once the clock gives more than it, and is reached once the clock
/// gives it or more: it has run out where the next nanosecond is reached.
pub proof fn law_running_out_and_reaching(limit_ns: u64)
    ensures
        ran_out(limit_ns) ==> was_reached(limit_ns),
        limit_ns < u64::MAX ==> (was_reached((limit_ns + 1) as u64) <==> ran_out(limit_ns)),
{
    if ran_out(limit_ns) {
        let (start, ns) = choose|start: Instant, ns: u128|
            began(start) && #[trigger] read_as(start, ns) && ns > limit_ns;
        assert(began(start) && read_as(start, ns) && ns >= limit_ns);
    }
    if limit_ns < u64::MAX {
        let next = (limit_ns + 1) as u64;
        if was_reached(next) {
            let (start, ns) = choose|start: Instant, ns: u128|
                began(start) && #[trigger] read_as(start, ns) && ns >= next;
            assert(began(start) && read_as(start, ns) && ns > limit_ns);
        }
        if ran_out(limit_ns) {
            let (start, ns) = choose|start: Instant, ns: u128|
                began(start) && #[trigger] read_as(start, ns) && ns > limit_ns;
            assert(began(start) && read_as(start, ns) && ns >= next);
        }
    }
}

} // verus!
