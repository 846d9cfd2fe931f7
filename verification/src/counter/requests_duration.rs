//! The active-duration accumulator: the time during which at least one
//! request was in flight.
//!
//! Times are microseconds since the Unix epoch and durations are
//! microseconds. Each operation exists in two forms: one that is told the
//! time, and one that reads the clock and then does the same.

use vstd::prelude::*;
use crate::clock::now_micros;

verus! {

/// Accumulated duration of the intervals during which requests were open.
///
/// Overlapping requests are counted once: the interval starts with the
/// first request that opens and ends when the last one closes.
#[derive(Clone, Copy, Debug)]
pub struct RequestsDurationCounter {
    /// Duration of the intervals that have ended.
    pub duration: i64,
    /// Number of requests that are open now.
    pub active_requests_count: u16,
    /// When the oldest open request began.
    pub first_active_request_start_time: Option<i64>,
}

impl RequestsDurationCounter {
    /// Time since the current interval began, or zero when none is open.
    pub open spec fn active_duration(self, now: int) -> int {
        match self.first_active_request_start_time {
            Some(start) => now - start,
            None => 0,
        }
    }

    /// The counter's value at `now`: what has ended plus what is under way.
    pub open spec fn value(self, now: int) -> int {
        self.duration + self.active_duration(now)
    }

    /// Whether no request is open and no interval is under way.
    pub open spec fn idle(self) -> bool {
        self.active_requests_count == 0 && self.first_active_request_start_time is None
    }

    /// Whether one more request can be counted.
    pub open spec fn can_open(self) -> bool {
        self.active_requests_count < u16::MAX
    }

    /// The counter after a request opened at `now`.
    pub open spec fn opened(self, now: i64) -> RequestsDurationCounter {
        RequestsDurationCounter {
            duration: self.duration,
            active_requests_count: (self.active_requests_count + 1) as u16,
            first_active_request_start_time: match self.first_active_request_start_time {
                Some(start) => Some(start),
                None => Some(now),
            },
        }
    }

    /// Whether a response at `now` can be taken: a request is open, and if
    /// it is the last one, the total still fits.
    pub open spec fn can_close(self, now: i64) -> bool {
        &&& self.active_requests_count > 0
        &&& self.active_requests_count == 1 ==> i64::MIN <= self.value(now as int) <= i64::MAX
    }

    /// The counter after a request closed at `now`.
    pub open spec fn closed(self, now: i64) -> RequestsDurationCounter {
        if self.active_requests_count == 1 {
            RequestsDurationCounter {
                duration: self.value(now as int) as i64,
                active_requests_count: 0,
                first_active_request_start_time: None,
            }
        } else {
            RequestsDurationCounter {
                duration: self.duration,
                active_requests_count: (self.active_requests_count - 1) as u16,
                first_active_request_start_time: self.first_active_request_start_time,
            }
        }
    }

    /// Whether `r` is what reading at `now` gives: the value, or `None`
    /// when the value does not fit the result type.
    pub open spec fn counted_as(self, now: i64, r: Option<i64>) -> bool {
        &&& r is Some <==> i64::MIN <= self.value(now as int) <= i64::MAX
        &&& r is Some ==> r->0 == self.value(now as int)
    }

    /// A counter that has seen nothing.
    pub fn new() -> (r: Self)
        ensures
            r.idle(),
            r.duration == 0,
    {
        RequestsDurationCounter {
            duration: 0,
            active_requests_count: 0,
            first_active_request_start_time: None,
        }
    }

    /// The value at `now`, or `None` when it does not fit the result type.
    /// Reading changes nothing.
    pub fn count_at(&self, now: i64) -> (r: Option<i64>)
        ensures
            self.counted_as(now, r),
    {
        let total: i128 = match self.first_active_request_start_time {
            Some(start) => self.duration as i128 + (now as i128 - start as i128),
            None => self.duration as i128,
        };
        if total < i64::MIN as i128 || total > i64::MAX as i128 {
            None
        } else {
            Some(total as i64)
        }
    }

    /// Counts a request that opened at `now`. Returns whether it was
    /// counted: it is not, and nothing changes, only when as many requests
    /// are open as the counter can hold.
    pub fn on_request_at(&mut self, now: i64) -> (r: bool)
        ensures
            r == old(self).can_open(),
            r ==> *final(self) == old(self).opened(now),
            !r ==> *final(self) == *old(self),
    {
        if self.active_requests_count == u16::MAX {
            return false;
        }
        self.active_requests_count = self.active_requests_count + 1;
        if self.first_active_request_start_time.is_none() {
            self.first_active_request_start_time = Some(now);
        }
        true
    }

    /// Counts the end of a request at `now`. When it was the last open
    /// one, the interval ends and its length joins the total. Returns
    /// whether the response was counted: it is not, and nothing changes,
    /// when no request is open or the total would no longer fit.
    pub fn on_response_at(&mut self, now: i64) -> (r: bool)
        ensures
            r == old(self).can_close(now),
            r ==> *final(self) == old(self).closed(now),
            !r ==> *final(self) == *old(self),
    {
        if self.active_requests_count == 0 {
            return false;
        }
        if self.active_requests_count == 1 {
            match self.count_at(now) {
                Some(total) => {
                    self.duration = total;
                    self.active_requests_count = 0;
                    self.first_active_request_start_time = None;
                    true
                },
                None => false,
            }
        } else {
            self.active_requests_count = self.active_requests_count - 1;
            true
        }
    }

    /// The value now, by the system clock. See [`Self::count_at`].
    pub fn count(&self) -> (r: Option<i64>)
        ensures
            exists|now: i64| self.counted_as(now, r),
    {
        let now = now_micros();
        let r = self.count_at(now);
        assert(self.counted_as(now, r));
        r
    }

    /// Counts a request that opens now, by the system clock. See
    /// [`Self::on_request_at`].
    pub fn on_request(&mut self) -> (r: bool)
        ensures
            r == old(self).can_open(),
            r ==> exists|now: i64| *final(self) == old(self).opened(now),
            !r ==> *final(self) == *old(self),
    {
        let now = now_micros();
        let r = self.on_request_at(now);
        assert(r ==> *self == old(self).opened(now));
        r
    }

    /// Counts the end of a request now, by the system clock. See
    /// [`Self::on_response_at`].
    pub fn on_response(&mut self) -> (r: bool)
        ensures
            exists|now: i64|
                r == old(self).can_close(now) && (r ==> *final(self) == old(self).closed(now)),
            !r ==> *final(self) == *old(self),
    {
        let now = now_micros();
        let r = self.on_response_at(now);
        assert(r == old(self).can_close(now) && (r ==> *self == old(self).closed(now)));
        r
    }
}

/// One activation: on a counter at rest, a request at `t0` and its
/// response at `t1` add exactly `t1 - t0`, and the counter is at rest
/// again, so that its value no longer depends on when it is read.
pub proof fn lemma_one_activation(c: RequestsDurationCounter, t0: i64, t1: i64, later: int)
    requires
        c.idle(),
        c.opened(t0).can_close(t1),
    ensures
        c.can_open(),
        c.opened(t0).closed(t1).idle(),
        c.opened(t0).closed(t1).value(later) == c.duration + (t1 - t0),
{
}

/// Overlapping activations are counted once: when a second request opens
/// at `t1` while the first is open, and both close at `t2` and `t3` in
/// whichever order, the total grows by the time from the first opening to
/// the last closing.
pub proof fn lemma_overlapping_activations(
    c: RequestsDurationCounter,
    t0: i64,
    t1: i64,
    t2: i64,
    t3: i64,
    later: int,
)
    requires
        c.idle(),
        c.opened(t0).opened(t1).closed(t2).can_close(t3),
    ensures
        c.opened(t0).opened(t1).can_close(t2),
        c.opened(t0).opened(t1).closed(t2).closed(t3).idle(),
        c.opened(t0).opened(t1).closed(t2).closed(t3).value(later) == c.duration + (t3 - t0),
{
}

/// Reading while an activation is open shows the time so far, and the
/// activation still closes as if it had not been read: the value read at
/// `mid` is the total plus `mid - t0`, and after the response at `t1` the
/// total has grown by `t1 - t0`.
pub proof fn lemma_reading_while_open(c: RequestsDurationCounter, t0: i64, mid: i64, t1: i64)
    requires
        c.idle(),
        c.opened(t0).can_close(t1),
    ensures
        c.opened(t0).value(mid as int) == c.duration + (mid - t0),
        c.opened(t0).closed(t1).value(mid as int) == c.duration + (t1 - t0),
{
}

} // verus!
