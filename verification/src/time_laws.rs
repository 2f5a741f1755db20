//! Time adds up.

use vstd::prelude::*;

use crate::time::{moment, Clock, TimeSpan, Timestamp};

verus! {

/// Spans are counted in nanoseconds: a microsecond is a thousand of them, a
/// millisecond a million.
pub proof fn spans_are_counted_in_nanoseconds(
    n: u128,
    nanos: TimeSpan,
    micros: TimeSpan,
    m: u64,
    millis: TimeSpan,
    span: TimeSpan,
    whole: u128,
    none: TimeSpan,
)
    requires
        call_ensures(TimeSpan::from_nanos, (n,), nanos),
        call_ensures(TimeSpan::from_micros, (n,), micros),
        call_ensures(TimeSpan::from_millis, (m,), millis),
        call_ensures(TimeSpan::as_micros, (span,), whole),
        call_ensures(TimeSpan::zero, (), none),
    ensures
        nanos.nanos == n,
        n * 1_000 <= u128::MAX ==> micros.nanos == n * 1_000,
        n * 1_000 > u128::MAX ==> micros.nanos == u128::MAX,
        millis.nanos == m * 1_000_000,
        whole * 1_000 <= span.nanos < (whole + 1) * 1_000,
        none.nanos == 0,
{
}

/// Spans and their multiples add up, as far as the count reaches.
pub proof fn spans_add_up(
    a: TimeSpan,
    b: TimeSpan,
    sum: TimeSpan,
    n: u64,
    product: TimeSpan,
)
    requires
        call_ensures(TimeSpan::plus, (a, b), sum),
        call_ensures(TimeSpan::times, (a, n), product),
    ensures
        a.nanos + b.nanos <= u128::MAX ==> sum.nanos == a.nanos + b.nanos,
        a.nanos + b.nanos > u128::MAX ==> sum.nanos == u128::MAX,
        a.nanos * n <= u128::MAX ==> product.nanos == a.nanos * n,
        a.nanos * n > u128::MAX ==> product.nanos == u128::MAX,
{
}

/// An instant that is a span past another is that span away from it, and there is
/// no time from a later instant to an earlier one.
pub proof fn instants_are_as_far_apart_as_they_were_put(
    at: Timestamp,
    after: TimeSpan,
    later: Timestamp,
    there: TimeSpan,
    back: TimeSpan,
)
    requires
        call_ensures(Timestamp::plus, (at, after), later),
        call_ensures(Timestamp::since, (later, at), there),
        call_ensures(Timestamp::since, (at, later), back),
    ensures
        at.nanos + after.nanos <= u128::MAX ==> later.nanos == at.nanos + after.nanos && there
            == after,
        at.nanos + after.nanos > u128::MAX ==> later.nanos == u128::MAX,
        at.nanos <= later.nanos,
        back.nanos == 0,
{
}

/// A clock reads zero at its origin and counts the time since, and never backwards.
pub proof fn clocks_count_from_their_origin(
    origin: tokio::time::Instant,
    clock: Clock,
    at: &tokio::time::Instant,
    reading: Timestamp,
    later: &tokio::time::Instant,
    second: Timestamp,
)
    requires
        call_ensures(Clock::counting_from, (origin,), clock),
        call_ensures(Clock::reading, (&clock, at), reading),
        call_ensures(Clock::reading, (&clock, later), second),
        moment(*at) <= moment(*later),
    ensures
        moment(*at) <= moment(origin) ==> reading.nanos == 0,
        moment(origin) <= moment(*at) && moment(*at) - moment(origin) <= u128::MAX ==> reading.nanos
            == moment(*at) - moment(origin),
        reading.nanos <= second.nanos,
{
}

} // verus!
