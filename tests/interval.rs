use delayed_interval::{Interval, Progress, State, TimerPoll};

const SECOND: u64 = 1_000_000_000;

/// One poll at clock reading `now`, against a deadline timer that has
/// elapsed exactly when the clock has reached its deadline.
fn poll_at(interval: &mut Interval, now: u64) -> Progress {
    let reported = interval.begin_poll(now);
    let answer = if now >= interval.deadline() {
        TimerPoll::Elapsed
    } else {
        TimerPoll::Pending
    };
    Interval::finish_poll::<()>(reported, Ok(answer)).unwrap()
}

/// Polls at each clock reading in turn and collects the values produced.
fn values_of(interval: &mut Interval, polls: &[u64]) -> Vec<u64> {
    let mut values = Vec::new();
    for &now in polls {
        if let Progress::Ready(v) = poll_at(interval, now) {
            values.push(v);
        }
    }
    values
}

#[test]
fn new_arms_first_fire_instant() {
    let interval = Interval::new(5 * SECOND, 3 * SECOND);
    assert_eq!(interval.deadline(), 5 * SECOND);
    assert_eq!(interval.period(), 3 * SECOND);
    assert_eq!(interval.state(), State::Delaying);
}

#[test]
fn first_poll_reports_first_fire_instant() {
    let mut interval = Interval::new(5 * SECOND, 3 * SECOND);
    assert_eq!(interval.begin_poll(SECOND), 5 * SECOND);
    assert_eq!(interval.deadline(), 4 * SECOND);
    assert_eq!(interval.state(), State::Awaiting);
}

#[test]
fn awaiting_poll_keeps_deadline() {
    let mut interval = Interval::new(5 * SECOND, 3 * SECOND);
    interval.begin_poll(SECOND);
    assert_eq!(interval.begin_poll(4 * SECOND), 4 * SECOND);
    assert_eq!(interval.deadline(), 4 * SECOND);
    assert_eq!(interval.state(), State::Delaying);
}

#[test]
fn new_interval_first_value_one_period_later() {
    let mut interval = Interval::new_interval(7 * SECOND, 3 * SECOND);
    assert_eq!(interval.deadline(), 10 * SECOND);
    assert_eq!(poll_at(&mut interval, 7 * SECOND), Progress::NotReady);
    assert_eq!(poll_at(&mut interval, 10 * SECOND), Progress::Ready(10 * SECOND));
}

#[test]
fn first_value_is_first_fire_instant() {
    let mut interval = Interval::new(9 * SECOND, 4 * SECOND);
    assert_eq!(values_of(&mut interval, &[5 * SECOND, 9 * SECOND]), vec![9 * SECOND]);
}

#[test]
fn values_strictly_increase() {
    let mut interval = Interval::new(2, 3);
    let polls = [0, 1, 3, 3, 4, 4, 7, 20, 20, 21, 23, 30, 40, 41];
    let values = values_of(&mut interval, &polls);
    assert_eq!(values, vec![10, 26]);
    for pair in values.windows(2) {
        assert!(pair[0] < pair[1]);
        assert!(pair[0] + 3 <= pair[1]);
    }
}

#[test]
fn slow_consumer_gets_no_burst() {
    // Three seconds between values; each value takes ten seconds to handle.
    let mut interval = Interval::new_interval(0, 3 * SECOND);
    assert_eq!(poll_at(&mut interval, 0), Progress::NotReady);
    assert_eq!(poll_at(&mut interval, 3 * SECOND), Progress::Ready(3 * SECOND));
    // The request at thirteen seconds re-arms one period from then.
    assert_eq!(poll_at(&mut interval, 13 * SECOND), Progress::NotReady);
    assert_eq!(interval.deadline(), 16 * SECOND);
    assert_eq!(poll_at(&mut interval, 16 * SECOND), Progress::Ready(16 * SECOND));
    assert_eq!(poll_at(&mut interval, 26 * SECOND), Progress::NotReady);
    assert_eq!(poll_at(&mut interval, 29 * SECOND), Progress::Ready(29 * SECOND));
}

#[test]
fn completions_are_processing_plus_period_apart() {
    let period = 3;
    let d = 2;
    let mut interval = Interval::new_interval(100, period);
    let mut completions = Vec::new();
    let mut now = 100;
    for _ in 0..4 {
        assert_eq!(poll_at(&mut interval, now), Progress::NotReady);
        now = interval.deadline();
        assert_eq!(poll_at(&mut interval, now), Progress::Ready(now));
        completions.push(now);
        now += d;
    }
    assert_eq!(completions, vec![103, 108, 113, 118]);
}

#[test]
fn back_to_back_values_one_period_apart() {
    let mut interval = Interval::new_interval(0, 5);
    let polls = [0, 5, 5, 10, 10, 15, 15, 20];
    assert_eq!(values_of(&mut interval, &polls), vec![5, 10, 15, 20]);
}

#[test]
fn timer_error_is_passed_on() {
    let mut interval = Interval::new(5, 3);
    let reported = interval.begin_poll(0);
    let r: Result<Progress, &str> = Interval::finish_poll(reported, Err("timer shut down"));
    assert_eq!(r, Err("timer shut down"));
}

#[test]
fn pending_timer_yields_nothing() {
    let r: Result<Progress, ()> = Interval::finish_poll(8, Ok(TimerPoll::Pending));
    assert_eq!(r, Ok(Progress::NotReady));
    let r: Result<Progress, ()> = Interval::finish_poll(8, Ok(TimerPoll::Elapsed));
    assert_eq!(r, Ok(Progress::Ready(8)));
}
