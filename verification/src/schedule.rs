use vstd::prelude::*;
use vstd::arithmetic::div_mod::lemma_add_mod_noop;
use vstd::arithmetic::div_mod::lemma_add_mod_noop_right;
use vstd::arithmetic::div_mod::lemma_mod_bound;
use vstd::arithmetic::div_mod::lemma_mod_twice;

verus! {

/// Nanoseconds in a second.
pub const NANOS_PER_SECOND: u64 = 1_000_000_000;

/// Nanoseconds in a millisecond.
pub const NANOS_PER_MILLI: u64 = 1_000_000;

/// Whether a loop goes on after a tick.
#[derive(Clone, Copy, Debug, PartialEq, Eq, Structural)]
pub enum State {
    Continue,
    Stop,
}

impl State {
    /// What the display loop decides in one tick: it goes on while the
    /// window is open and no cancel is requested.
    pub open spec fn display_spec(open: bool, cancel: bool) -> State {
        if open && !cancel {
            State::Continue
        } else {
            State::Stop
        }
    }

    /// What the display loop decides in one tick.
    #[verifier::when_used_as_spec(display_spec)]
    pub fn display(open: bool, cancel: bool) -> (s: State)
        ensures
            s == State::display_spec(open, cancel),
    {
        if open && !cancel {
            State::Continue
        } else {
            State::Stop
        }
    }
}

/// The pacing state of a fixed-rate loop as a mathematical value, all in
/// nanoseconds: the target period, the time accumulated against it, and
/// the clock reading of the previous tick.
pub struct Pace {
    pub period: int,
    pub accumulator: int,
    pub previous: int,
}

impl Pace {
    /// The period of a loop that runs `rate` times a second.
    pub open spec fn period_of(rate: u64) -> int {
        NANOS_PER_SECOND as int / rate as int
    }

    /// The state after a tick at clock reading `now`: the elapsed time is
    /// added to the accumulator and whole periods are retired from it.
    pub open spec fn ticked(self, now: int) -> Pace {
        Pace {
            period: self.period,
            accumulator: (self.accumulator + (now - self.previous)) % self.period,
            previous: now,
        }
    }

    /// How many whole milliseconds the loop sleeps in this state: what is
    /// left of the period.
    pub open spec fn sleep_millis(self) -> int {
        (self.period - self.accumulator) / (NANOS_PER_MILLI as int)
    }

    /// What a tick attempted at clock reading `now` leaves. A reading at
    /// or after the previous tick is accounted for; a reading before it,
    /// from a clock that went back, changes nothing.
    pub open spec fn attempt(self, now: int) -> Attempt {
        if now >= self.previous {
            Attempt { pace: self.ticked(now), millis: Some(self.ticked(now).sleep_millis()) }
        } else {
            Attempt { pace: self, millis: None }
        }
    }
}

/// The outcome of an attempted tick: the pacing state it leaves and, where
/// the tick was accounted for, the milliseconds to sleep.
pub struct Attempt {
    pub pace: Pace,
    pub millis: Option<int>,
}

/// A count of milliseconds as a mathematical value.
pub open spec fn millis_of(r: Option<u64>) -> Option<int> {
    match r {
        Some(millis) => Some(millis as int),
        None => None,
    }
}

/// `clock_ticks::precise_time_ns`. It reads the system clock, so nothing
/// is promised of the number it returns.
#[verifier::external_body]
fn precise_time_ns() -> u64 {
    clock_ticks::precise_time_ns()
}

/// The accumulator that keeps a loop at a fixed rate.
pub struct Pacer {
    period: u64,
    accumulator: u64,
    previous_clock: u64,
}

impl View for Pacer {
    type V = Pace;

    closed spec fn view(&self) -> Pace {
        Pace {
            period: self.period as int,
            accumulator: self.accumulator as int,
            previous: self.previous_clock as int,
        }
    }
}

impl Pacer {
    #[verifier::type_invariant]
    spec fn inv(self) -> bool {
        0 < self.period <= NANOS_PER_SECOND && self.accumulator < self.period
    }

    /// A pacer for `rate` ticks a second whose previous tick was at clock
    /// reading `now`.
    pub fn new(rate: u64, now: u64) -> (pacer: Pacer)
        requires
            0 < rate <= NANOS_PER_SECOND,
        ensures
            pacer@ == (Pace { period: Pace::period_of(rate), accumulator: 0, previous: now as int }),
            pacer@.period > 0,
    {
        assert(1_000_000_000int / (rate as int) >= 1) by (nonlinear_arith)
            requires
                0 < rate <= 1_000_000_000,
        ;
        Pacer { period: NANOS_PER_SECOND / rate, accumulator: 0, previous_clock: now }
    }

    /// A pacer for `rate` ticks a second that starts at the present clock
    /// reading.
    pub fn start(rate: u64) -> (pacer: Pacer)
        requires
            0 < rate <= NANOS_PER_SECOND,
        ensures
            pacer@.period == Pace::period_of(rate),
            pacer@.accumulator == 0,
    {
        Pacer::new(rate, precise_time_ns())
    }

    /// The target period in nanoseconds.
    pub fn period(&self) -> (p: u64)
        ensures
            p == self@.period,
            p > 0,
    {
        proof {
            use_type_invariant(self);
        }
        self.period
    }

    /// The time accumulated against the period, in nanoseconds.
    pub fn accumulator(&self) -> (a: u64)
        ensures
            a == self@.accumulator,
            a < self@.period,
    {
        proof {
            use_type_invariant(self);
        }
        self.accumulator
    }

    /// The clock reading of the previous tick.
    pub fn previous_clock(&self) -> (t: u64)
        ensures
            t == self@.previous,
    {
        self.previous_clock
    }

    /// Accounts for a tick at clock reading `now` and returns for how many
    /// milliseconds the loop has to sleep.
    pub fn tick(&mut self, now: u64) -> (millis: u64)
        requires
            now >= old(self)@.previous,
        ensures
            final(self)@ == old(self)@.ticked(now as int),
            millis == final(self)@.sleep_millis(),
    {
        proof {
            use_type_invariant(&*self);
            lemma_add_mod_noop_right(
                self.accumulator as int,
                now - self.previous_clock,
                self.period as int,
            );
        }
        let elapsed: u64 = (now - self.previous_clock) % self.period;
        let accumulator: u64 = (self.accumulator + elapsed) % self.period;
        self.accumulator = accumulator;
        self.previous_clock = now;
        (self.period - self.accumulator) / NANOS_PER_MILLI
    }

    /// Accounts for a tick at clock reading `now` where the clock has not
    /// gone back behind the previous tick, and returns for how many
    /// milliseconds the loop has to sleep. Where it has gone back nothing
    /// is accounted for and `None` is returned.
    pub fn try_tick(&mut self, now: u64) -> (r: Option<u64>)
        ensures
            (Attempt { pace: final(self)@, millis: millis_of(r) }) == old(self)@.attempt(now as int),
            r is Some <==> now >= old(self)@.previous,
    {
        if now >= self.previous_clock {
            Some(self.tick(now))
        } else {
            None
        }
    }

    /// Reads the clock and attempts a tick at that reading, as `try_tick`
    /// does. The tick is accounted for whenever the previous tick was at
    /// clock reading 0, which no reading lies behind.
    pub fn pace(&mut self) -> (r: Option<u64>)
        ensures
            exists|now: u64|
                (Attempt { pace: final(self)@, millis: millis_of(r) }) == #[trigger] old(
                    self,
                )@.attempt(now as int),
            old(self)@.previous == 0 ==> r is Some,
            match r {
                Some(millis) => {
                    &&& final(self)@.previous >= old(self)@.previous
                    &&& final(self)@ == old(self)@.ticked(final(self)@.previous)
                    &&& millis == final(self)@.sleep_millis()
                },
                None => final(self)@ == old(self)@ && old(self)@.previous > 0,
            },
    {
        let now = precise_time_ns();
        let r = self.try_tick(now);
        assert((Attempt { pace: self@, millis: millis_of(r) }) == old(self)@.attempt(now as int));
        r
    }
}

/// Pacing does not drift: two ticks in a row leave the accumulator where
/// one tick at the later clock reading would have left it.
pub proof fn law_ticks_compose(p: Pace, first: int, second: int)
    requires
        p.period > 0,
    ensures
        p.ticked(first).ticked(second) == p.ticked(second),
{
    let a = p.accumulator + (first - p.previous);
    lemma_add_mod_noop(a, second - first, p.period);
    lemma_mod_twice(a, p.period);
    lemma_add_mod_noop(a % p.period, second - first, p.period);
}

/// After a tick less than one period is left in the accumulator, and the
/// loop sleeps for no longer than a period.
pub proof fn law_tick_bounds(p: Pace, now: int)
    requires
        p.period > 0,
    ensures
        0 <= p.ticked(now).accumulator < p.period,
        0 <= p.ticked(now).sleep_millis() <= p.period / (NANOS_PER_MILLI as int),
{
    lemma_mod_bound(p.accumulator + (now - p.previous), p.period);
}

} // verus!
