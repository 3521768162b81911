//! Time, as the engine sees it: instants on a monotonic clock and the
//! durations between them.
//!
//! The clock is a value that is handed to the engine, not something the
//! engine reads from its surroundings. Whoever owns the clock moves it
//! forward, from a hardware timer in flight or by hand in a test, and the
//! engine's behaviour is a function of the instants it is shown.

use crate::data_format::Seconds;
use vstd::prelude::*;

verus! {

/// An instant: milliseconds since the clock's origin.
#[derive(Debug, Copy, Clone, PartialEq, Eq)]
pub struct Timestamp(pub u64);

impl Timestamp {
    /// The time from `self` to `now`. It is never negative: seen from an
    /// instant that lies ahead of `now`, no time has passed.
    pub open spec fn until(self, now: Timestamp) -> Seconds {
        if now.0 >= self.0 {
            Seconds((now.0 - self.0) as u64)
        } else {
            Seconds(0)
        }
    }

    /// The time from `self` to the instant the clock shows.
    pub fn elapsed(&self, clock: &Clock) -> (elapsed: Seconds)
        ensures
            elapsed == self.until(clock@),
    {
        let now = clock.now();
        if now.0 >= self.0 {
            Seconds(now.0 - self.0)
        } else {
            Seconds(0)
        }
    }
}

/// A monotonic clock. The instant it shows can be moved forward and never
/// back.
pub struct Clock {
    now: Timestamp,
}

impl View for Clock {
    type V = Timestamp;

    closed spec fn view(&self) -> Timestamp {
        self.now
    }
}

impl Clock {
    /// A clock that shows `start`.
    pub fn new(start: Timestamp) -> (clock: Clock)
        ensures
            clock@ == start,
    {
        Clock { now: start }
    }

    /// The instant the clock shows.
    pub fn now(&self) -> (now: Timestamp)
        ensures
            now == self@,
    {
        self.now
    }

    /// The time from `since` to the instant the clock shows.
    pub fn elapsed(&self, since: Timestamp) -> (elapsed: Seconds)
        ensures
            elapsed == since.until(self@),
    {
        since.elapsed(self)
    }

    /// Moves the clock forward by `by`. A clock at the end of its range
    /// stays there.
    pub fn advance(&mut self, by: Seconds)
        ensures
            final(self)@.0 == if old(self)@.0 + by.0 <= u64::MAX {
                old(self)@.0 + by.0
            } else {
                u64::MAX as int
            },
            old(self)@.0 <= final(self)@.0,
    {
        self.now = Timestamp(self.now.0.saturating_add(by.0));
    }

    /// Shows the clock a reading of the underlying timer. The clock moves to
    /// the reading if that lies ahead, and stays where it is otherwise, so a
    /// timer that jitters backwards is not passed on.
    pub fn observe(&mut self, reading: Timestamp)
        ensures
            final(self)@.0 == if reading.0 >= old(self)@.0 {
                reading.0
            } else {
                old(self)@.0
            },
            old(self)@.0 <= final(self)@.0,
    {
        if reading.0 >= self.now.0 {
            self.now = reading;
        }
    }
}

/// Elapsed time grows with the clock: between two instants of a monotonic
/// clock, the time since any fixed instant does not shrink.
pub proof fn lemma_elapsed_monotonic(since: Timestamp, earlier: Timestamp, later: Timestamp)
    requires
        earlier.0 <= later.0,
    ensures
        since.until(later).reaches(since.until(earlier)),
{
}

} // verus!
