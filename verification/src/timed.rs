//! A future wrapper that measures how long the wrapped future took, from
//! its first poll to its completion.
use std::time::Instant;
use vstd::prelude::*;

verus! {

/// Declares the outside type `std::time::Instant`, with no fields visible.
#[verifier::external_type_specification]
#[verifier::external_body]
pub struct ExInstant(Instant);

/// Wraps a future and records when it was first polled, so that its output
/// can be paired with the time it took.
pub struct TimedWrapper<Fut> {
    /// When the wrapped future was first polled; `None` before that.
    pub start: Option<Instant>,
    /// The wrapped future.
    pub future: Fut,
}

impl<Fut> TimedWrapper<Fut> {
    /// Wraps `future`, not polled yet.
    pub fn new(future: Fut) -> (r: Self)
        ensures
            r.start is None,
            r.future == future,
    {
        Self { start: None, future }
    }
}

/// Calls `Instant::now`. The instant it returns depends on the clock, so
/// nothing is claimed of it.
#[verifier::external_body]
fn clock_now() -> Instant {
    Instant::now()
}

/// One poll's choice of start: with `before` recorded ahead of the poll, the
/// poll measures from `r` and leaves `after` recorded. A recorded start is
/// kept and measured from; without one, the poll records the instant it
/// measures from.
pub open spec fn poll_start_step(before: Option<Instant>, after: Option<Instant>, r: Instant) -> bool {
    match before {
        Some(s) => r == s && after == before,
        None => after == Some(r),
    }
}

/// The instant that a poll measures the elapsed time from: the one recorded
/// at the first poll; at the first poll itself, the clock is read and its
/// reading recorded.
pub fn poll_start(start: &mut Option<Instant>) -> (r: Instant)
    ensures
        poll_start_step(*old(start), *final(start), r),
{
    match *start {
        Some(s) => s,
        None => {
            let now = clock_now();
            *start = Some(now);
            now
        },
    }
}

/// Over any run of polls of a wrapper that starts with no start recorded
/// (as `TimedWrapper::new` makes it), every poll measures from the instant
/// that the first poll recorded, and that instant stays recorded.
/// `starts[k]` is what is recorded before poll `k`, `results[k]` what poll
/// `k` measures from.
pub proof fn lemma_polls_measure_from_first(starts: Seq<Option<Instant>>, results: Seq<Instant>)
    requires
        starts.len() == results.len() + 1,
        starts[0] is None,
        forall|k: int|
            0 <= k < results.len() ==> poll_start_step(
                #[trigger] starts[k],
                starts[k + 1],
                results[k],
            ),
    ensures
        forall|k: int|
            0 <= k < results.len() ==> #[trigger] results[k] == results[0] && starts[k + 1] == Some(
                results[0],
            ),
    decreases results.len(),
{
    let n = results.len();
    if n > 1 {
        let s = starts.take(n as int);
        let rs = results.take(n - 1);
        assert forall|k: int| 0 <= k < rs.len() implies poll_start_step(
            #[trigger] s[k],
            s[k + 1],
            rs[k],
        ) by {
            assert(s[k] == starts[k]);
            assert(s[k + 1] == starts[k + 1]);
            assert(poll_start_step(starts[k], starts[k + 1], results[k]));
        }
        lemma_polls_measure_from_first(s, rs);
        assert(starts[n - 1] == s[n - 1]);
        assert(rs[n - 2] == results[n - 2]);
        assert(poll_start_step(starts[n - 1], starts[n as int], results[n - 1]));
        assert forall|k: int| 0 <= k < n implies #[trigger] results[k] == results[0] && starts[k
            + 1] == Some(results[0]) by {
            if k < n - 1 {
                assert(rs[k] == results[k]);
                assert(s[k + 1] == starts[k + 1]);
            }
        }
    } else if n == 1 {
        assert(poll_start_step(starts[0], starts[1], results[0]));
    }
}

} // verus!
