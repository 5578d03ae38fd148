//! The input source: key presses merged with ticks of a fixed rate.
//!
//! The source waits for a key until the next tick is due, forwards a key
//! that arrives, and sends a tick once the rate has passed since the last
//! one. The waiting and sending belong to the application; when to wait,
//! for how long, and when a tick is due is decided here. All times are
//! nanoseconds on one monotonic clock.

use vstd::prelude::*;

verus! {

/// The rate at which the source ticks unless told otherwise: 50 ms.
pub const DEFAULT_TICK_RATE: u64 = 50_000_000;

/// What the dispatch loop receives.
#[derive(Debug, PartialEq, Eq)]
pub enum Event<I> {
    /// A key was pressed.
    Input(I),
    /// A full tick rate has passed since the last tick.
    Tick,
}

/// How a wait for the terminal ended.
#[derive(Debug, PartialEq, Eq)]
pub enum Wake<I> {
    /// A key was pressed.
    Key(I),
    /// The terminal reported something that is not a key press.
    Other,
    /// The wait ran out.
    TimedOut,
}

/// The event to send for the end of a wait: a key press is always passed
/// on, nothing else is.
pub fn key_event<I>(wake: Wake<I>) -> (event: Option<Event<I>>)
    ensures
        event == match wake {
            Wake::Key(key) => Some(Event::Input(key)),
            Wake::Other => None::<Event<I>>,
            Wake::TimedOut => None::<Event<I>>,
        },
{
    match wake {
        Wake::Key(key) => Some(Event::Input(key)),
        Wake::Other => None,
        Wake::TimedOut => None,
    }
}

/// The pacing of the ticks: the rate, and when the last tick was sent.
#[derive(Clone, Copy, Debug, PartialEq, Eq, Structural)]
pub struct TickClock {
    pub tick_rate: u64,
    pub last_tick: u64,
}

impl TickClock {
    /// The time that has passed since the last tick; none, where `now` lies
    /// before it.
    pub open spec fn spec_elapsed(self, now: u64) -> int {
        if now >= self.last_tick {
            now - self.last_tick
        } else {
            0
        }
    }

    /// A tick is due once a full rate has passed since the last one.
    pub open spec fn spec_tick_due(self, now: u64) -> bool {
        self.spec_elapsed(now) >= self.tick_rate
    }

    /// What is left of the rate since the last tick; nothing, once it has
    /// passed.
    pub open spec fn spec_timeout(self, now: u64) -> int {
        if self.spec_tick_due(now) {
            0
        } else {
            self.tick_rate - self.spec_elapsed(now)
        }
    }

    /// A clock that starts counting at `now`.
    pub fn new(tick_rate: u64, now: u64) -> (clock: TickClock)
        ensures
            clock == (TickClock { tick_rate, last_tick: now }),
    {
        TickClock { tick_rate, last_tick: now }
    }

    /// The time that has passed since the last tick.
    fn elapsed(&self, now: u64) -> (elapsed: u64)
        ensures
            elapsed == self.spec_elapsed(now),
    {
        if now >= self.last_tick {
            now - self.last_tick
        } else {
            0
        }
    }

    /// How long to wait for a key at `now`: up to the moment the next tick
    /// is due, and not at all once it is. A wait that runs out ends at a
    /// moment at which the tick is due, and no shorter wait does.
    pub fn timeout(&self, now: u64) -> (wait: u64)
        ensures
            wait == self.spec_timeout(now),
            wait <= self.tick_rate,
            wait == 0 <==> self.spec_tick_due(now),
            forall|later: u64|
                now >= self.last_tick && later >= now ==> (#[trigger] self.spec_tick_due(later)
                    <==> later - now >= wait),
    {
        let elapsed: u64 = self.elapsed(now);
        if elapsed >= self.tick_rate {
            0
        } else {
            self.tick_rate - elapsed
        }
    }

    /// Whether a tick is to be sent at `now`.
    pub fn tick_due(&self, now: u64) -> (due: bool)
        ensures
            due == self.spec_tick_due(now),
    {
        self.elapsed(now) >= self.tick_rate
    }

    /// Notes that a tick was sent at `now`: the next one is due a full rate
    /// later. A key press in between does not move it.
    pub fn tick_sent(&mut self, now: u64)
        ensures
            *final(self) == (TickClock { tick_rate: old(self).tick_rate, last_tick: now }),
            forall|later: u64|
                later >= now ==> (#[trigger] final(self).spec_tick_due(later) <==> later - now
                    >= old(self).tick_rate),
    {
        self.last_tick = now;
    }
}

} // verus!
