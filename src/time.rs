//! Timeout decorators: racing a guarded operation against a timer.
//!
//! A decorator is polled in two stages. First the guarded operation is
//! polled and its progress handed to an `on_guarded` function; only when that
//! asks for it is the timer polled, and whether it fired handed to an
//! `on_timer` function. So when both are ready in the same poll, the guarded
//! operation wins.
//!
//! The per-item decorators (over a stream or a byte reader) rebuild their
//! timer, with the configured budget, exactly when they yield something:
//! [`GuardedStep::Yield`] and [`TimerStep::Yield`] both mean "rebuild the
//! timer, then yield".
use vstd::prelude::*;

verus! {

/// The error of a guarded operation that did not finish within its budget.
#[derive(Debug, Clone, Copy, PartialEq, Eq, Structural)]
pub struct Elapsed;

/// The outcome of polling something once.
#[derive(Debug)]
pub enum Progress<T> {
    /// Not ready yet; a wake-up has been registered.
    Pending,
    /// Ready with a value.
    Ready(T),
}

/// What a decorator does once the guarded operation has been polled.
#[derive(Debug)]
pub enum GuardedStep<T> {
    /// Yield this value now, without polling the timer.
    Yield(T),
    /// The guarded operation is pending: poll the timer next.
    CheckTimer,
}

/// What a decorator does once the timer has been polled.
#[derive(Debug)]
pub enum TimerStep<T> {
    /// Yield this value now.
    Yield(T),
    /// Neither is ready: stay pending.
    Wait,
}

/// A guarded future that was polled: its value wins when it is ready.
pub open spec fn future_on_guarded_spec<T>(g: Progress<T>) -> GuardedStep<Result<T, Elapsed>> {
    match g {
        Progress::Ready(t) => GuardedStep::Yield(Ok(t)),
        Progress::Pending => GuardedStep::CheckTimer,
    }
}

/// The timer of a pending guarded operation was polled.
pub open spec fn on_timer_spec<T>(fired: bool) -> TimerStep<Result<T, Elapsed>> {
    if fired {
        TimerStep::Yield(Err(Elapsed))
    } else {
        TimerStep::Wait
    }
}

/// A guarded stream was polled: an item, or the end of the stream, is
/// yielded as it is, each item marked as a success.
pub open spec fn stream_on_guarded_spec<T>(g: Progress<Option<T>>) -> GuardedStep<
    Option<Result<T, Elapsed>>,
> {
    match g {
        Progress::Ready(Some(t)) => GuardedStep::Yield(Some(Ok(t))),
        Progress::Ready(None) => GuardedStep::Yield(None),
        Progress::Pending => GuardedStep::CheckTimer,
    }
}

/// The timer of a pending guarded stream was polled: a firing is yielded as
/// an item that carries the timeout.
pub open spec fn stream_on_timer_spec<T>(fired: bool) -> TimerStep<Option<Result<T, Elapsed>>> {
    if fired {
        TimerStep::Yield(Some(Err(Elapsed)))
    } else {
        TimerStep::Wait
    }
}

/// Decide on the progress of a guarded future (or of one read of a guarded
/// reader).
pub fn future_on_guarded<T>(g: Progress<T>) -> (r: GuardedStep<Result<T, Elapsed>>)
    ensures
        r == future_on_guarded_spec(g),
{
    match g {
        Progress::Ready(t) => GuardedStep::Yield(Ok(t)),
        Progress::Pending => GuardedStep::CheckTimer,
    }
}

/// Decide on the timer of a pending guarded future (or read).
pub fn future_on_timer<T>(fired: bool) -> (r: TimerStep<Result<T, Elapsed>>)
    ensures
        r == on_timer_spec::<T>(fired),
{
    if fired {
        TimerStep::Yield(Err(Elapsed))
    } else {
        TimerStep::Wait
    }
}

/// Decide on the progress of a guarded stream.
pub fn stream_on_guarded<T>(g: Progress<Option<T>>) -> (r: GuardedStep<Option<Result<T, Elapsed>>>)
    ensures
        r == stream_on_guarded_spec(g),
{
    match g {
        Progress::Ready(Some(t)) => GuardedStep::Yield(Some(Ok(t))),
        Progress::Ready(None) => GuardedStep::Yield(None),
        Progress::Pending => GuardedStep::CheckTimer,
    }
}

/// Decide on the timer of a pending guarded stream.
pub fn stream_on_timer<T>(fired: bool) -> (r: TimerStep<Option<Result<T, Elapsed>>>)
    ensures
        r == stream_on_timer_spec::<T>(fired),
{
    if fired {
        TimerStep::Yield(Some(Err(Elapsed)))
    } else {
        TimerStep::Wait
    }
}

/// The outcome of polling a future timeout at time `now`, where the guarded
/// future is ready with `v` from time `done_at` on and the timer fires at
/// `deadline`.
pub open spec fn timeout_poll_at<T>(v: T, done_at: nat, deadline: nat, now: nat) -> Progress<
    Result<T, Elapsed>,
> {
    let g = if now >= done_at {
        Progress::Ready(v)
    } else {
        Progress::Pending
    };
    match future_on_guarded_spec(g) {
        GuardedStep::Yield(r) => Progress::Ready(r),
        GuardedStep::CheckTimer => match on_timer_spec::<T>(now >= deadline) {
            TimerStep::Yield(r) => Progress::Ready(r),
            TimerStep::Wait => Progress::Pending,
        },
    }
}

/// For budgets `d1 < d2` of a timeout started at `start`: an operation that
/// completes after `d1` under budget `d2` resolves with its own value (and
/// not before it completes), while an operation that takes `d2` under budget
/// `d1` resolves with a timeout when the timer fires, and with nothing before.
pub proof fn lemma_timeout_race<T>(v: T, start: nat, d1: nat, d2: nat)
    requires
        d1 < d2,
    ensures
        forall|now: nat|
            now < start + d1 ==> #[trigger] timeout_poll_at(v, start + d1, start + d2, now)
                == Progress::<Result<T, Elapsed>>::Pending,
        forall|now: nat|
            now >= start + d1 ==> #[trigger] timeout_poll_at(v, start + d1, start + d2, now)
                == Progress::<Result<T, Elapsed>>::Ready(Ok(v)),
        forall|now: nat|
            now < start + d1 ==> #[trigger] timeout_poll_at(v, start + d2, start + d1, now)
                == Progress::<Result<T, Elapsed>>::Pending,
        timeout_poll_at(v, start + d2, start + d1, start + d1) == Progress::<
            Result<T, Elapsed>,
        >::Ready(Err(Elapsed)),
{
}

/// The outcome of polling a stream timeout at time `now`, where the timer
/// was last rebuilt at `last_yield` with budget `budget`, and the guarded
/// stream has `item` ready from time `ready_at` on.
pub open spec fn stream_poll_at<T>(
    item: Option<T>,
    ready_at: nat,
    last_yield: nat,
    budget: nat,
    now: nat,
) -> Progress<Option<Result<T, Elapsed>>> {
    let g = if now >= ready_at {
        Progress::Ready(item)
    } else {
        Progress::Pending
    };
    match stream_on_guarded_spec(g) {
        GuardedStep::Yield(r) => Progress::Ready(r),
        GuardedStep::CheckTimer => match stream_on_timer_spec::<T>(now >= last_yield + budget) {
            TimerStep::Yield(r) => Progress::Ready(r),
            TimerStep::Wait => Progress::Pending,
        },
    }
}

/// Each item of a stream timeout gets a budget of its own, counted from the
/// moment the previous item (or timeout) was yielded: an item that comes
/// within the budget is yielded as a success however late it is relative to
/// earlier items, and an item that takes longer yields one timeout exactly
/// when the budget after the last yield runs out, and nothing before that.
pub proof fn lemma_stream_budget_per_item<T>(item: T, last_yield: nat, budget: nat, delay: nat)
    ensures
        delay <= budget ==> stream_poll_at(Some(item), last_yield + delay, last_yield, budget, last_yield + delay)
            == Progress::Ready(Some(Ok::<T, Elapsed>(item))),
        delay > budget ==> stream_poll_at(Some(item), last_yield + delay, last_yield, budget, last_yield + budget)
            == Progress::Ready(Some(Err::<T, Elapsed>(Elapsed))),
        forall|now: nat|
            now < last_yield + delay && now < last_yield + budget ==> #[trigger] stream_poll_at(
                Some(item),
                last_yield + delay,
                last_yield,
                budget,
                now,
            ) == Progress::<Option<Result<T, Elapsed>>>::Pending,
{
}

} // verus!
