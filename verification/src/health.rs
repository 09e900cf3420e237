//! Health of the UDP dispatcher, as the REST API and the metrics report it.
use vstd::prelude::*;

verus! {

/// Nanoseconds in a second.
pub const NANOS_PER_SEC: u64 = 1_000_000_000;

/// Nanoseconds from `since` to `now` on the monotonic clock; none where `since` is not yet past.
pub open spec fn elapsed_nanos(since: u64, now: u64) -> u64 {
    if now >= since {
        (now - since) as u64
    } else {
        0
    }
}

/// Whole seconds in a number of nanoseconds.
pub open spec fn whole_seconds(nanos: u64) -> u64 {
    nanos / NANOS_PER_SEC
}

/// Reads the time passed between two readings of the monotonic clock.
pub fn elapsed(since: u64, now: u64) -> (nanos: u64)
    ensures
        nanos == elapsed_nanos(since, now),
{
    if now >= since {
        now - since
    } else {
        0
    }
}

/// When the dispatcher started, when it last handled an event, and how many it has handled.
///
/// Times are readings of one monotonic clock, in nanoseconds.
#[derive(Clone, Copy, Debug)]
pub struct DispatcherHealth {
    pub started: u64,
    pub last_event: Option<u64>,
    pub events: u64,
}

impl DispatcherHealth {
    /// A dispatcher that has handled no event yet.
    pub fn new(now: u64) -> (health: DispatcherHealth)
        ensures
            health.started == now,
            health.last_event is None,
            health.events == 0,
    {
        DispatcherHealth { started: now, last_event: None, events: 0 }
    }

    /// Counts an event that was handled at `now`; the count wraps around.
    pub fn record_event(&mut self, now: u64)
        ensures
            final(self).started == old(self).started,
            final(self).last_event == Some(now),
            final(self).events == (old(self).events + 1) % 0x1_0000_0000_0000_0000,
    {
        self.last_event = Some(now);
        self.events = self.events.wrapping_add(1);
    }

    /// Whole seconds since the last event, if there was one.
    pub fn seconds_since_last_event(&self, now: u64) -> (seconds: Option<u64>)
        ensures
            seconds == (match self.last_event {
                Some(at) => Some(whole_seconds(elapsed_nanos(at, now))),
                None => None,
            }),
    {
        match self.last_event {
            Some(at) => Some(elapsed(at, now) / NANOS_PER_SEC),
            None => None,
        }
    }

    /// Whole seconds since the dispatcher started.
    pub fn uptime_secs(&self, now: u64) -> (seconds: u64)
        ensures
            seconds == whole_seconds(elapsed_nanos(self.started, now)),
    {
        elapsed(self.started, now) / NANOS_PER_SEC
    }

    /// The number of events handled.
    pub fn total_events(&self) -> (events: u64)
        ensures
            events == self.events,
    {
        self.events
    }
}

/// Time passes from one reading of the clock to a later one: the first and what has passed are the
/// second. From a reading that is not yet past, none has passed.
pub proof fn law_elapsed_time_leads_to_now(since: u64, now: u64)
    ensures
        since <= now ==> since + elapsed_nanos(since, now) == now,
        since > now ==> elapsed_nanos(since, now) == 0,
{
}

/// The whole seconds of a time are no more than the time, and one more would be too many.
pub proof fn law_whole_seconds_are_the_most_that_fit(nanos: u64)
    ensures
        whole_seconds(nanos) * 1_000_000_000 <= nanos,
        nanos < (whole_seconds(nanos) + 1) * 1_000_000_000,
{
}

} // verus!
