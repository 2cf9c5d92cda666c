//! The process-wide throttle in front of the tagging service.
//!
//! A caller asks [`RateLimiter::acquire`] with the current reading of a millisecond clock.
//! The answer is either a grant (a wait of zero: the call may start at that instant) or the
//! time to sleep before asking again. Whoever shares one limiter behind a lock gets calls
//! that start at least [`MIN_INTERVAL_MS`] apart, whatever the interleaving.

use vstd::prelude::*;

verus! {

/// The least distance between the starts of two tagging calls, in milliseconds.
pub const MIN_INTERVAL_MS: u64 = 4000;

/// The time at which the last tagging call was allowed to start, if any.
pub struct RateLimiter {
    last_start: Option<u64>,
}

impl View for RateLimiter {
    type V = Option<u64>;

    closed spec fn view(&self) -> Option<u64> {
        self.last_start
    }
}

/// Whether a call may start at `now` when the last one started at `last`.
///
/// A clock reading that lies before `last` counts as no time passed.
pub open spec fn may_start(last: Option<u64>, now: u64) -> bool {
    match last {
        None => true,
        Some(t) => now - t >= MIN_INTERVAL_MS,
    }
}

/// The time to sleep before asking again: nothing on a grant, one whole interval otherwise.
pub open spec fn wait_for(last: Option<u64>, now: u64) -> u64 {
    if may_start(last, now) {
        0
    } else {
        MIN_INTERVAL_MS
    }
}

/// The limiter after it was asked at `now`: a grant moves the last start to `now`.
pub open spec fn after_poll(last: Option<u64>, now: u64) -> Option<u64> {
    if may_start(last, now) {
        Some(now)
    } else {
        last
    }
}

/// The limiter after it was asked at each of `polls` in turn.
pub open spec fn after_polls(last: Option<u64>, polls: Seq<u64>) -> Option<u64>
    decreases polls.len(),
{
    if polls.len() == 0 {
        last
    } else {
        after_poll(after_polls(last, polls.drop_last()), polls.last())
    }
}

/// The instants among `polls` at which a call was allowed to start, in order.
pub open spec fn starts(last: Option<u64>, polls: Seq<u64>) -> Seq<u64>
    decreases polls.len(),
{
    if polls.len() == 0 {
        Seq::empty()
    } else {
        let before = starts(last, polls.drop_last());
        if may_start(after_polls(last, polls.drop_last()), polls.last()) {
            before.push(polls.last())
        } else {
            before
        }
    }
}

impl RateLimiter {
    /// A limiter that has allowed no call yet.
    pub fn new() -> (limiter: Self)
        ensures
            limiter@ is None,
    {
        RateLimiter { last_start: None }
    }

    /// Asks whether a tagging call may start at `now`.
    ///
    /// Returns the number of milliseconds to sleep before asking again. Zero is a grant:
    /// the limiter then records `now` as the start of the call. The first call is always
    /// granted. Asking and recording are one step: the limiter is held exclusively while
    /// it is asked, so two callers never see the same slot free.
    pub fn acquire(&mut self, now: u64) -> (wait: u64)
        ensures
            wait == wait_for(old(self)@, now),
            final(self)@ == after_poll(old(self)@, now),
    {
        let granted = match self.last_start {
            None => true,
            Some(t) => now >= t && now - t >= MIN_INTERVAL_MS,
        };
        if granted {
            self.last_start = Some(now);
            0
        } else {
            MIN_INTERVAL_MS
        }
    }

    /// The start of the last call that was allowed, if any.
    pub fn last_start(&self) -> (last: Option<u64>)
        ensures
            last == self@,
    {
        self.last_start
    }
}

/// The last start on record is the last of the starts that were allowed.
pub proof fn lemma_last_start(last: Option<u64>, polls: Seq<u64>)
    ensures
        starts(last, polls).len() == 0 ==> after_polls(last, polls) == last,
        starts(last, polls).len() > 0 ==> after_polls(last, polls) == Some(
            starts(last, polls).last(),
        ),
    decreases polls.len(),
{
    if polls.len() > 0 {
        lemma_last_start(last, polls.drop_last());
    }
}

/// However the callers of one limiter interleave, any two calls that it allowed start at
/// least [`MIN_INTERVAL_MS`] apart, and the first of them that far after the start it
/// already had on record.
pub proof fn lemma_starts_spaced(last: Option<u64>, polls: Seq<u64>)
    ensures
        forall|i: int, j: int|
            0 <= i < j < starts(last, polls).len() ==> #[trigger] starts(last, polls)[j]
                - #[trigger] starts(last, polls)[i] >= MIN_INTERVAL_MS,
        forall|j: int|
            0 <= j < starts(last, polls).len() && last is Some ==> #[trigger] starts(
                last,
                polls,
            )[j] - last->0 >= MIN_INTERVAL_MS,
    decreases polls.len(),
{
    if polls.len() > 0 {
        let head = polls.drop_last();
        lemma_starts_spaced(last, head);
        lemma_last_start(last, head);
    }
}

} // verus!
