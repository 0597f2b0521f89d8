use vstd::prelude::*;

verus! {

/// State of the recurring timer.
#[derive(Clone, Copy, Debug, PartialEq, Eq, Structural)]
pub enum State {
    /// The next poll re-arms the deadline timer one period from now.
    Delaying,
    /// The next poll only waits on the deadline that is already armed.
    Awaiting,
}

/// What the recurring timer holds, as mathematical values.
pub struct IntervalView {
    /// The instant at which the deadline timer is armed.
    pub deadline: int,
    /// The duration between values.
    pub period: int,
    pub state: State,
}

/// The outcome of a poll that reports `reported` when the deadline timer
/// answered `timer`.
pub open spec fn finish_spec<E>(reported: u64, timer: Result<TimerPoll, E>) -> Result<Progress, E> {
    match timer {
        Ok(TimerPoll::Elapsed) => Ok(Progress::Ready(reported)),
        Ok(TimerPoll::Pending) => Ok(Progress::NotReady),
        Err(e) => Err(e),
    }
}

impl IntervalView {
    /// The timer after the first half of a poll at clock reading `now`: a
    /// `Delaying` timer re-arms one period from `now`, an `Awaiting` one keeps
    /// its deadline; either way the state flips.
    pub open spec fn begin(self, now: int) -> IntervalView {
        match self.state {
            State::Delaying => IntervalView {
                deadline: now + self.period,
                period: self.period,
                state: State::Awaiting,
            },
            State::Awaiting => IntervalView {
                deadline: self.deadline,
                period: self.period,
                state: State::Delaying,
            },
        }
    }
}

/// What the deadline timer answered when it was polled.
#[derive(Clone, Copy, Debug, PartialEq, Eq, Structural)]
pub enum TimerPoll {
    /// The clock has reached the deadline.
    Elapsed,
    /// The deadline lies ahead; the task is woken when it is reached.
    Pending,
}

/// The outcome of one poll of the recurring timer.
#[derive(Clone, Copy, Debug, PartialEq, Eq, Structural)]
pub enum Progress {
    /// A value is produced: the instant at which it was due.
    Ready(u64),
    /// No value yet; the deadline timer wakes the task.
    NotReady,
}

/// A sequence of instants at a nominal period, each deadline measured from
/// the moment the previous wait completed.
#[derive(Debug)]
pub struct Interval {
    /// Instant for which the deadline timer is armed.
    deadline: u64,
    /// The duration between values yielded by the `Interval`.
    duration: u64,
    state: State,
}

impl View for Interval {
    type V = IntervalView;

    closed spec fn view(&self) -> IntervalView {
        IntervalView { deadline: self.deadline as int, period: self.duration as int, state: self.state }
    }
}

impl Interval {
    #[verifier::type_invariant]
    spec fn period_positive(self) -> bool {
        self.duration > 0
    }

    /// Creates an `Interval` whose deadline timer is armed for `at` and that
    /// yields every `duration` after that.
    pub fn new(at: u64, duration: u64) -> (r: Interval)
        requires
            duration > 0,
        ensures
            r@ == (IntervalView { deadline: at as int, period: duration as int, state: State::Delaying }),
    {
        Interval::new_with_deadline(at, duration)
    }

    /// Creates an `Interval` that yields every `duration`, with clock reading
    /// `now`: the same as `Interval::new(now + duration, duration)`.
    pub fn new_interval(now: u64, duration: u64) -> (r: Interval)
        requires
            duration > 0,
            now + duration <= u64::MAX,
        ensures
            r@ == (IntervalView { deadline: now + duration, period: duration as int, state: State::Delaying }),
    {
        Interval::new(now + duration, duration)
    }

    pub(crate) fn new_with_deadline(deadline: u64, duration: u64) -> (r: Interval)
        requires
            duration > 0,
        ensures
            r@ == (IntervalView { deadline: deadline as int, period: duration as int, state: State::Delaying }),
    {
        Interval { deadline, duration, state: State::Delaying }
    }

    /// The instant for which the deadline timer is armed.
    pub fn deadline(&self) -> (r: u64)
        ensures
            r == self@.deadline,
    {
        self.deadline
    }

    /// The duration between values; never zero.
    pub fn period(&self) -> (r: u64)
        ensures
            r == self@.period,
            r > 0,
    {
        proof {
            use_type_invariant(self);
        }
        self.duration
    }

    pub fn state(&self) -> (r: State)
        ensures
            r == self@.state,
    {
        self.state
    }

    /// The first half of a poll at clock reading `now`: returns the instant
    /// that this poll reports if the deadline timer has elapsed (the deadline
    /// armed before the call), and re-arms or flips the state as `begin` says.
    /// The caller then polls a deadline timer armed at `deadline()` and hands
    /// its answer to `finish_poll`.
    pub fn begin_poll(&mut self, now: u64) -> (reported: u64)
        requires
            old(self)@.state == State::Delaying ==> now + old(self)@.period <= u64::MAX,
        ensures
            reported == old(self)@.deadline,
            final(self)@ == old(self)@.begin(now as int),
    {
        proof {
            use_type_invariant(&*self);
        }
        let reported = self.deadline;
        match self.state {
            State::Delaying => {
                // The next deadline is one period after this moment, not after
                // the previous deadline.
                self.deadline = now + self.duration;
                self.state = State::Awaiting;
            },
            State::Awaiting => {
                self.state = State::Delaying;
            },
        }
        reported
    }

    /// The second half of a poll: the value reported when the deadline timer
    /// has elapsed, nothing yet while it is pending, and its error unchanged.
    pub fn finish_poll<E>(reported: u64, timer: Result<TimerPoll, E>) -> (r: Result<Progress, E>)
        ensures
            r == finish_spec(reported, timer),
    {
        match timer {
            Ok(TimerPoll::Elapsed) => Ok(Progress::Ready(reported)),
            Ok(TimerPoll::Pending) => Ok(Progress::NotReady),
            Err(e) => Err(e),
        }
    }
}

} // verus!
