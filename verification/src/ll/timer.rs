//! The schedule of advertising events.
//!
//! Advertising events follow each other at the advertising interval plus a
//! pseudo-random delay, advDelay, of 0 ms to 10 ms that is drawn anew for
//! each event. The schedule only ever adds to the instant of the event
//! before: it is never set back to the time of day.
//!
//! Instants and durations are counted in microseconds.

use rand::rngs::SmallRng;
use rand::{Rng, SeedableRng};
use vstd::prelude::*;

verus! {

/// The shortest advertising interval, 20 ms, in microseconds.
pub const MIN_INTERVAL: u64 = 20_000;

/// The longest advertising interval, 10,485.759375 s, in microseconds.
pub const MAX_INTERVAL: u64 = 10_485_759_375;

/// The bound of advDelay, 10 ms, in microseconds: every delay is below it.
pub const MAX_ADV_DELAY: u64 = 10_000;

/// Why an advertising interval is refused.
#[derive(Debug, Clone, Copy, PartialEq, Eq, Structural)]
pub enum IntervalError {
    /// The interval is below 20 ms.
    TooShort,
    /// The interval is above 10,485.759375 s.
    TooLong,
}

/// `rand::rngs::SmallRng`: a small and fast generator of pseudo-random
/// numbers. Nothing of what it holds is looked at.
#[verifier::external_type_specification]
#[verifier::external_body]
pub struct ExSmallRng(rand::rngs::SmallRng);

/// `SmallRng::seed_from_u64`: a generator made from a seed. Nothing is
/// claimed of what it goes on to give.
#[verifier::external_body]
pub(crate) fn seeded_rng(seed: u64) -> (rng: SmallRng) {
    SmallRng::seed_from_u64(seed)
}

/// `Rng::gen_range` with a range of `u64` that excludes its end: some value
/// of the range. Which one is not told. It panics for an empty range only,
/// and such a range is not handed to it.
#[verifier::external_body]
fn gen_range(rng: &mut SmallRng, low: u64, high: u64) -> (value: u64)
    requires
        low < high,
    ensures
        low <= value < high,
    no_unwind
{
    rng.gen_range(low..high)
}

/// What the schedule stands at: the interval and the instant of the event
/// that comes next.
pub struct TimerView {
    pub interval: u64,
    pub event: u64,
}

impl TimerView {
    /// The interval is one that the link layer allows.
    pub open spec fn wf(self) -> bool {
        MIN_INTERVAL <= self.interval <= MAX_INTERVAL
    }

    /// The schedule can go on by one event without leaving the range of
    /// the clock.
    pub open spec fn can_advance(self) -> bool {
        self.event + self.interval + MAX_ADV_DELAY <= u64::MAX
    }

    /// Whether `next` is this schedule one event on: the interval is the
    /// same, and the next event comes after the interval and a delay below
    /// 10 ms.
    pub open spec fn advances_to(self, next: TimerView) -> bool {
        &&& next.interval == self.interval
        &&& self.event + self.interval <= next.event < self.event + self.interval + MAX_ADV_DELAY
    }
}

/// The instant of the event that follows the event at `event` after the
/// interval and a delay.
pub open spec fn spec_next_event(event: u64, interval: u64, delay: u64) -> int {
    event + interval + delay
}

/// The timer of the advertising events.
pub struct AdvertisingTimer {
    /// Pseudo-random value used to generate the advDelay between each advertising event
    rng: SmallRng,
    /// The advertising interval.
    /// It should be an integer multiple of 0.625 ms in the range 20 ms to 10,485.759375 s.
    /// used with advDelay to determine the start of the next advertising event.
    interval: u64,
    event: u64,
}

impl View for AdvertisingTimer {
    type V = TimerView;

    closed spec fn view(&self) -> TimerView {
        TimerView { interval: self.interval, event: self.event }
    }
}

/// What is wrong with an advertising interval, where something is.
pub open spec fn spec_check_interval(interval: u64) -> Result<(), IntervalError> {
    if interval < MIN_INTERVAL {
        Err(IntervalError::TooShort)
    } else if interval > MAX_INTERVAL {
        Err(IntervalError::TooLong)
    } else {
        Ok(())
    }
}

/// Tells whether an advertising interval lies in the range from 20 ms to
/// 10,485.759375 s, and on which side it lies out of it.
pub fn check_interval(interval: u64) -> (checked: Result<(), IntervalError>)
    ensures
        checked == spec_check_interval(interval),
{
    if interval < MIN_INTERVAL {
        return Err(IntervalError::TooShort);
    }
    if interval > MAX_INTERVAL {
        return Err(IntervalError::TooLong);
    }
    Ok(())
}

impl AdvertisingTimer {
    #[verifier::type_invariant]
    spec fn inv(self) -> bool {
        MIN_INTERVAL <= self.interval <= MAX_INTERVAL
    }

    /// A timer whose first event is at `now`. An interval out of range is
    /// refused.
    pub fn new(rng: SmallRng, interval: u64, now: u64) -> (timer: Result<Self, IntervalError>)
        ensures
            match spec_check_interval(interval) {
                Ok(_) => timer matches Ok(made) && made@ == (TimerView { interval, event: now }),
                Err(error) => timer matches Err(found) && found == error,
            },
    {
        match check_interval(interval) {
            Ok(_) => Ok(Self { rng, interval, event: now }),
            Err(error) => Err(error),
        }
    }

    /// The advertising interval.
    pub fn interval(&self) -> (interval: u64)
        ensures
            interval == self@.interval,
            self@.wf(),
    {
        proof {
            use_type_invariant(self);
        }
        self.interval
    }

    /// The instant of the event that comes next. The schedule stays as it
    /// is.
    pub fn scheduled(&self) -> (event: u64)
        ensures
            event == self@.event,
    {
        self.event
    }

    /// Whether the schedule can go on by one event without leaving the
    /// range of the clock.
    pub fn can_advance(&self) -> (can: bool)
        ensures
            can == self@.can_advance(),
    {
        proof {
            use_type_invariant(self);
        }
        self.event <= u64::MAX - self.interval - MAX_ADV_DELAY
    }

    /// The advDelay is a (pseudo-)random value with a range 0 ms to 10 ms generated by the Link Layer for each advertising event.
    fn rng_delay(&mut self) -> (delay: u64)
        ensures
            delay < MAX_ADV_DELAY,
            final(self)@ == old(self)@,
    {
        proof {
            use_type_invariant(&*self);
        }
        gen_range(&mut self.rng, 0, MAX_ADV_DELAY)
    }

    /// The instant of the event that follows the event at `event` after the
    /// interval and a delay.
    pub fn next_after(event: u64, interval: u64, delay: u64) -> (next: u64)
        requires
            spec_next_event(event, interval, delay) <= u64::MAX,
        ensures
            next == spec_next_event(event, interval, delay),
    {
        event + interval + delay
    }

    /// Returns the next advertising event instant and updates the internal state
    pub fn next_event(&mut self) -> (event: u64)
        requires
            old(self)@.can_advance(),
        ensures
            event == old(self)@.event,
            old(self)@.advances_to(final(self)@),
            old(self)@.wf(),
            final(self)@.wf(),
    {
        proof {
            use_type_invariant(&*self);
        }
        let event = self.event;
        let delay = self.rng_delay();

        self.event = Self::next_after(event, self.interval, delay);
        event
    }
}

/// The instants at which a schedule calls for its events, one after the
/// other: what `event` is in each of some states of a timer.
pub open spec fn spec_instants(states: Seq<TimerView>) -> Seq<u64> {
    Seq::new(states.len(), |i: int| states[i].event)
}

/// However often a timer is advanced, the instants that it gives are
/// strictly increasing, and each lies after the one before by the interval
/// at least and by the interval and 10 ms at most.
pub proof fn lemma_schedule_monotonic(states: Seq<TimerView>, i: int, j: int)
    requires
        states.len() > 0,
        states[0].wf(),
        forall|k: int| 0 <= k < states.len() - 1 ==> #[trigger] states[k].advances_to(states[k + 1]),
        0 <= i < j < states.len(),
    ensures
        states[j].interval == states[0].interval,
        spec_instants(states)[i] < spec_instants(states)[j],
        spec_instants(states)[i] + (j - i) * states[0].interval <= spec_instants(states)[j],
        spec_instants(states)[j] <= spec_instants(states)[i] + (j - i) * (states[0].interval
            + MAX_ADV_DELAY),
        j == i + 1 ==> states[0].interval <= spec_instants(states)[j] - spec_instants(states)[i]
            <= states[0].interval + MAX_ADV_DELAY,
    decreases j - i,
{
    lemma_interval_kept(states, j);
    lemma_interval_kept(states, i);
    let interval = states[0].interval;
    if j == i + 1 {
        assert(states[i].advances_to(states[i + 1]));
        assert((j - i) * interval == interval) by (nonlinear_arith)
            requires
                j - i == 1,
        ;
        assert((j - i) * (interval + MAX_ADV_DELAY) == interval + MAX_ADV_DELAY)
            by (nonlinear_arith)
            requires
                j - i == 1,
        ;
    } else {
        lemma_schedule_monotonic(states, i, j - 1);
        lemma_interval_kept(states, j - 1);
        assert(states[j - 1].advances_to(states[j - 1 + 1]));
        assert((j - i) * interval == (j - 1 - i) * interval + interval) by (nonlinear_arith);
        assert((j - i) * (interval + MAX_ADV_DELAY) == (j - 1 - i) * (interval + MAX_ADV_DELAY)
            + (interval + MAX_ADV_DELAY)) by (nonlinear_arith);
    }
}

/// Advancing a timer never changes its interval.
proof fn lemma_interval_kept(states: Seq<TimerView>, j: int)
    requires
        forall|k: int| 0 <= k < states.len() - 1 ==> #[trigger] states[k].advances_to(states[k + 1]),
        0 <= j < states.len(),
    ensures
        states[j].interval == states[0].interval,
    decreases j,
{
    if j > 0 {
        lemma_interval_kept(states, j - 1);
        assert(states[j - 1].advances_to(states[j - 1 + 1]));
    }
}

} // verus!
