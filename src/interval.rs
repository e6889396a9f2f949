//! The firing schedule of a periodic timer.
//!
//! Times are nanoseconds since the timer was started. Tick `k` (counting from
//! zero) is due at `k * period`: the first tick is due at once, and no tick
//! ever fires before it is due. A due time past `u64::MAX` is never reached,
//! and from there on the schedule does not fire again.
use vstd::prelude::*;

verus! {

/// The due time of tick `k`, when it can be represented.
pub open spec fn due_time(period: nat, k: nat) -> Option<nat> {
    if k * period <= u64::MAX {
        Some(k * period)
    } else {
        None
    }
}

/// The mathematical state of an [`IntervalSchedule`].
pub struct ScheduleView {
    pub period: nat,
    /// How many ticks have fired.
    pub fired: nat,
}

/// What polling at time `now` does: the tick due next fires when `now` has
/// reached its due time, and is reported with that due time.
pub open spec fn tick_spec(v: ScheduleView, now: nat) -> (ScheduleView, Option<nat>) {
    match due_time(v.period, v.fired) {
        Some(due) => if now >= due {
            (ScheduleView { fired: v.fired + 1, ..v }, Some(due))
        } else {
            (v, None)
        },
        None => (v, None),
    }
}

/// A machine time as a number.
pub open spec fn as_nat(t: Option<u64>) -> Option<nat> {
    match t {
        Some(d) => Some(d as nat),
        None => None,
    }
}

/// A periodic timer's schedule.
pub struct IntervalSchedule {
    period: u64,
    next_due: Option<u64>,
    fired: Ghost<nat>,
}

impl View for IntervalSchedule {
    type V = ScheduleView;

    closed spec fn view(&self) -> ScheduleView {
        ScheduleView { period: self.period as nat, fired: self.fired@ }
    }
}

impl IntervalSchedule {
    /// The schedule's fields agree with its view.
    pub closed spec fn wf(&self) -> bool {
        &&& self.period > 0
        &&& match due_time(self.period as nat, self.fired@) {
            Some(due) => self.next_due == Some(due as u64),
            None => self.next_due is None,
        }
    }

    /// A schedule with the given period that has not fired yet. A zero
    /// period is refused, as by every periodic timer.
    pub fn new(period: u64) -> (r: Self)
        requires
            period > 0,
        ensures
            r.wf(),
            r@ == (ScheduleView { period: period as nat, fired: 0 }),
    {
        IntervalSchedule { period, next_due: Some(0), fired: Ghost(0) }
    }

    /// Poll at time `now`: the due time of the tick that fires, if one does.
    pub fn poll_tick(&mut self, now: u64) -> (r: Option<u64>)
        requires
            old(self).wf(),
        ensures
            final(self).wf(),
            (final(self)@, as_nat(r)) == tick_spec(old(self)@, now as nat),
    {
        match self.next_due {
            Some(due) => {
                if now >= due {
                    let ghost k = self.fired@;
                    let ghost p = self.period as nat;
                    proof {
                        assert((k + 1) * p == k * p + p) by (nonlinear_arith);
                        self.fired@ = k + 1;
                    }
                    self.next_due = due.checked_add(self.period);
                    Some(due)
                } else {
                    None
                }
            },
            None => None,
        }
    }

    /// How long to wait from time `now` until the next tick is due: zero when
    /// it is due already, nothing when no tick will come.
    pub fn wait_from(&self, now: u64) -> (r: Option<u64>)
        requires
            self.wf(),
        ensures
            r == match due_time(self@.period, self@.fired) {
                Some(due) => Some(
                    if due > now {
                        (due - now) as u64
                    } else {
                        0u64
                    },
                ),
                None => None::<u64>,
            },
    {
        match self.next_due {
            Some(due) => if due > now {
                Some(due - now)
            } else {
                Some(0)
            },
            None => None,
        }
    }
}

/// A periodic timer never fires early: the tick that fires after `k` ticks
/// is the one due at `k * period`, and it fires only at a poll no earlier
/// than that. So of the first three ticks (`k` = 0, 1, 2) of a timer started
/// at `T`, the last comes no earlier than `T + 2 * period`; and every poll
/// from the due time on fires the tick, so the ticks never run out while
/// their due times can be represented.
pub proof fn lemma_interval_never_fires_early(v: ScheduleView, now: nat)
    requires
        v.period > 0,
    ensures
        tick_spec(v, now).1 is Some ==> {
            &&& tick_spec(v, now).1 == Some(v.fired * v.period)
            &&& now >= v.fired * v.period
            &&& tick_spec(v, now).0.fired == v.fired + 1
        },
        tick_spec(v, now).1 is None ==> tick_spec(v, now).0 == v,
        v.fired * v.period <= u64::MAX && now >= v.fired * v.period ==> tick_spec(v, now).1 is Some,
        v.fired == 2 && tick_spec(v, now).1 is Some ==> now >= 2 * v.period,
{
}

/// The ticks fired by polling at each of `times` in turn: each with its due
/// time and the time of the poll that fired it, and the state reached.
pub open spec fn tick_run(v: ScheduleView, times: Seq<nat>) -> (ScheduleView, Seq<(nat, nat)>)
    decreases times.len(),
{
    if times.len() == 0 {
        (v, Seq::empty())
    } else {
        let (w, t) = tick_spec(v, times[0]);
        let (u, rest) = tick_run(w, times.drop_first());
        match t {
            Some(due) => (u, seq![(due, times[0])] + rest),
            None => (u, rest),
        }
    }
}

/// However a periodic timer is polled, its ticks come in order and never
/// early: the `j`-th tick fired from a state with `k` ticks behind it is the
/// one due at `(k + j) * period`, fired at a poll no earlier than that. For a
/// timer started at `T` (no tick behind it) of which three ticks are taken,
/// the third is due at `T + 2 * period` and comes no earlier.
pub proof fn lemma_interval_ticks_in_order(v: ScheduleView, times: Seq<nat>)
    requires
        v.period > 0,
    ensures
        tick_run(v, times).0.period == v.period,
        tick_run(v, times).0.fired == v.fired + tick_run(v, times).1.len(),
        forall|j: int|
            0 <= j < tick_run(v, times).1.len() ==> {
                &&& (#[trigger] tick_run(v, times).1[j]).0 == (v.fired + j) * v.period
                &&& tick_run(v, times).1[j].1 >= tick_run(v, times).1[j].0
            },
    decreases times.len(),
{
    if times.len() > 0 {
        let (w, t) = tick_spec(v, times[0]);
        lemma_interval_ticks_in_order(w, times.drop_first());
        let (u, rest) = tick_run(w, times.drop_first());
        let out = tick_run(v, times).1;
        if t is Some {
            assert forall|j: int| 0 <= j < out.len() implies {
                &&& (#[trigger] out[j]).0 == (v.fired + j) * v.period
                &&& out[j].1 >= out[j].0
            } by {
                if j > 0 {
                    assert(out[j] == rest[j - 1]);
                    assert((w.fired + (j - 1)) == v.fired + j);
                }
            }
        }
    }
}

} // verus!
