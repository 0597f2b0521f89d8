//! The sequence of values that a recurring timer produces when it is driven
//! against a deadline timer that answers `Elapsed` exactly when the clock has
//! reached its deadline, and the laws of that sequence.
use vstd::prelude::*;

use crate::interval::{IntervalView, State};

verus! {

/// One poll at clock reading `now`: the timer afterwards, and the value
/// produced if the deadline timer, polled after `begin`, had elapsed.
pub open spec fn poll_at(v: IntervalView, now: int) -> (IntervalView, Option<int>) {
    let next = v.begin(now);
    if now >= next.deadline {
        (next, Some(v.deadline))
    } else {
        (next, None)
    }
}

/// Polls at each clock reading of `polls` in turn: the timer afterwards and
/// the values produced, in order.
pub open spec fn run(v: IntervalView, polls: Seq<int>) -> (IntervalView, Seq<int>)
    decreases polls.len(),
{
    if polls.len() == 0 {
        (v, Seq::empty())
    } else {
        let (w, values) = run(v, polls.drop_last());
        let (next, produced) = poll_at(w, polls.last());
        match produced {
            Some(x) => (next, values.push(x)),
            None => (next, values),
        }
    }
}

/// Clock readings that never go backwards.
pub open spec fn nondecreasing(s: Seq<int>) -> bool {
    forall|i: int, j: int| 0 <= i <= j < s.len() ==> s[i] <= s[j]
}

/// The moment of the `k`-th request when the first comes at `q` and each
/// later one comes `d` after the previous value was received, that value
/// having been due `period` after its request.
pub open spec fn request_time(q: int, period: int, d: int, k: nat) -> int
    decreases k,
{
    if k == 0 {
        q
    } else {
        request_time(q, period, d, (k - 1) as nat) + period + d
    }
}

/// `n` rounds of a consumer that spends `d` on each value: each round is a
/// poll at the request and a poll when the deadline timer wakes the task, at
/// its deadline.
pub open spec fn paced_polls(q: int, period: int, d: int, n: nat) -> Seq<int>
    decreases n,
{
    if n == 0 {
        Seq::empty()
    } else {
        let start = request_time(q, period, d, (n - 1) as nat);
        paced_polls(q, period, d, (n - 1) as nat).push(start).push(start + period)
    }
}

proof fn lemma_run_invariant(v: IntervalView, polls: Seq<int>)
    requires
        v.state == State::Delaying,
        v.period > 0,
        nondecreasing(polls),
    ensures
        ({
            let (w, values) = run(v, polls);
            &&& w.period == v.period
            &&& forall|i: int, j: int|
                0 <= i < j < values.len() ==> #[trigger] values[i] + v.period <= #[trigger] values[j]
            &&& (w.state == State::Delaying && values.len() > 0) ==> polls.len() > 0
                && values.last() <= polls.last()
            &&& w.state == State::Awaiting ==> polls.len() > 0 && w.deadline <= polls.last()
                + v.period && (values.len() > 0 ==> values.last() + v.period <= w.deadline)
        }),
    decreases polls.len(),
{
    if polls.len() > 0 {
        let prefix = polls.drop_last();
        assert(nondecreasing(prefix));
        lemma_run_invariant(v, prefix);
        let (w, values) = run(v, prefix);
        let t = polls.last();
        if prefix.len() > 0 {
            assert(prefix.last() == polls[polls.len() - 2]);
            assert(prefix.last() <= t);
        }
        let (next, produced) = poll_at(w, t);
        if let Some(x) = produced {
            let grown = values.push(x);
            assert forall|i: int, j: int| 0 <= i < j < grown.len() implies #[trigger] grown[i]
                + v.period <= #[trigger] grown[j] by {
                if j == values.len() {
                    if i < values.len() - 1 {
                        assert(values[i] + v.period <= values[values.len() - 1]);
                    }
                }
            }
        }
    }
}

/// Whatever the clock readings at which a freshly built timer is polled, as
/// long as they never go backwards, the values it produces are strictly
/// increasing, and any two of them lie at least one period apart: no burst of
/// overdue values follows a long wait.
pub proof fn lemma_values_increase(v: IntervalView, polls: Seq<int>)
    requires
        v.state == State::Delaying,
        v.period > 0,
        nondecreasing(polls),
    ensures
        forall|i: int, j: int|
            0 <= i < j < run(v, polls).1.len() ==> #[trigger] run(v, polls).1[i] < #[trigger] run(
                v,
                polls,
            ).1[j],
        forall|i: int, j: int|
            0 <= i < j < run(v, polls).1.len() ==> #[trigger] run(v, polls).1[i] + v.period
                <= #[trigger] run(v, polls).1[j],
{
    lemma_run_invariant(v, polls);
}

/// A consumer that requests first at `q`, is woken by the deadline timer at
/// its deadline, and requests again `d` after each value it receives: the
/// `k`-th value is due one period after the `k`-th request and is received at
/// that instant, so successive values, and the moments they are received,
/// lie `period + d` apart. A long processing time delays the schedule; it
/// never makes the timer catch up.
pub proof fn lemma_paced_consumer(v: IntervalView, q: int, d: int, n: nat)
    requires
        v.state == State::Delaying,
        v.period > 0,
        d >= 0,
    ensures
        ({
            let polls = paced_polls(q, v.period, d, n);
            let (w, values) = run(v, polls);
            &&& polls.len() == 2 * n
            &&& values.len() == n
            &&& w.state == State::Delaying
            &&& w.period == v.period
            &&& forall|k: int|
                0 <= k < n ==> #[trigger] values[k] == request_time(q, v.period, d, k as nat)
                    + v.period && polls[2 * k + 1] == values[k]
            &&& forall|k: int| 0 <= k < n - 1 ==> #[trigger] values[k + 1] == values[k] + v.period + d
        }),
    decreases n,
{
    if n > 0 {
        let m = (n - 1) as nat;
        lemma_paced_consumer(v, q, d, m);
        let prior = paced_polls(q, v.period, d, m);
        let polls = paced_polls(q, v.period, d, n);
        let start = request_time(q, v.period, d, m);
        assert(polls.drop_last() =~= prior.push(start));
        assert(polls.drop_last().drop_last() =~= prior);
        let (w0, earlier) = run(v, prior);
        let w1 = IntervalView { deadline: start + v.period, period: v.period, state: State::Awaiting };
        assert(run(v, prior.push(start)) == (w1, earlier));
        let values = run(v, polls).1;
        assert(values =~= earlier.push(start + v.period));
        assert forall|k: int| 0 <= k < n implies polls[2 * k + 1] == values[k] by {
            if k < m {
                assert(polls[2 * k + 1] == prior[2 * k + 1]);
            }
        }
        assert forall|k: int| 0 <= k < n - 1 implies #[trigger] values[k + 1] == values[k]
            + v.period + d by {
            if k + 1 < m {
                assert(earlier[k + 1] == earlier[k] + v.period + d);
            } else {
                assert(request_time(q, v.period, d, (k + 1) as nat) == request_time(
                    q,
                    v.period,
                    d,
                    k as nat,
                ) + v.period + d);
            }
        }
    }
}

/// A consumer that requests again the moment it receives a value sees the
/// values exactly one period apart.
pub proof fn lemma_back_to_back(v: IntervalView, q: int, n: nat)
    requires
        v.state == State::Delaying,
        v.period > 0,
    ensures
        ({
            let values = run(v, paced_polls(q, v.period, 0, n)).1;
            &&& values.len() == n
            &&& forall|k: int| 0 <= k < n - 1 ==> #[trigger] values[k + 1] == values[k] + v.period
        }),
{
    lemma_paced_consumer(v, q, 0, n);
}

/// A timer armed for `at` and first polled one period before `at` (as a
/// timer built by `new_interval` is when polled at once) produces `at` as
/// its first value once the deadline timer has elapsed.
pub proof fn lemma_first_value(at: int, period: int, woken: int)
    requires
        period > 0,
        woken >= at,
    ensures
        run(
            IntervalView { deadline: at, period, state: State::Delaying },
            seq![at - period, woken],
        ).1 == seq![at],
{
    let v = IntervalView { deadline: at, period, state: State::Delaying };
    let polls = seq![at - period, woken];
    assert(polls.drop_last() =~= seq![at - period]);
    assert(seq![at - period].drop_last() =~= Seq::<int>::empty());
    assert(run(v, Seq::<int>::empty()) == (v, Seq::<int>::empty()));
    let armed = IntervalView { deadline: at, period, state: State::Awaiting };
    assert(run(v, seq![at - period]) == (armed, Seq::<int>::empty()));
    assert(run(v, polls).1 =~= seq![at]);
}

} // verus!
