//! How points in time and spans go together.
use super::{Duration, Instant};
use vstd::prelude::*;

verus! {

/// What is left until a deadline is what it takes to get there: a deadline that was set a span ahead is
/// that span away, and one that is still to come is reached when what is left has passed.
pub proof fn law_a_deadline_is_its_span_away(now: Instant, span: Duration, deadline: Instant)
    ensures
        now.later(span) matches Some(set) ==> set.time_left(now) == span,
        now@ <= deadline@ ==> now.later(deadline.time_left(now)) == Some(deadline),
        deadline@ <= now@ ==> deadline.time_left(now)@ == 0,
        now@ < deadline@ ==> deadline.time_left(now)@ > 0,
{
}

/// A later point is never an earlier one, and no point is later by nothing; the clock gives out only
/// where it can hold no more.
pub proof fn law_later_points_are_in_order(now: Instant, span: Duration, more: Duration)
    ensures
        now.later(span) matches Some(set) ==> set@ >= now@ && (span@ > 0 ==> set@ > now@),
        span@ < more@ && now.later(more) is Some ==> now.later(span) is Some && now.later(
            span,
        )->Some_0@ < now.later(more)->Some_0@,
        span@ == 0 ==> now.later(span) == Some(now),
        now.later(span) is None <==> now@ + span@ > u128::MAX,
{
}

/// A millisecond is a million nanoseconds.
pub proof fn law_a_millisecond_is_a_million_nanoseconds(first: u64, second: u64)
    ensures
        Duration::of_millis(1)@ == 1_000_000,
        Duration::of_millis(first)@ / 1_000_000 == first,
        first + second <= u64::MAX ==> Duration::of_millis((first + second) as u64)@
            == Duration::of_millis(first)@ + Duration::of_millis(second)@,
{
}

} // verus!
