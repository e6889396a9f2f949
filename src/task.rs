//! Resolving the handle of a spawned task.
//!
//! A spawned task sends its result over a one-shot channel; its handle
//! watches the receiving end. [`JoinState`] turns what the receiver reports
//! into what the handle resolves to, and records that the handle resolved:
//! a handle resolves once and is not polled after that.
use crate::time::Progress;
use vstd::prelude::*;

verus! {

/// The task of a handle ended without sending a result: it panicked.
#[derive(Debug, Clone, Copy, PartialEq, Eq, Structural)]
pub struct TaskPanicked;

/// What a handle resolves to when its receiver reports `received`
/// (`Some(v)` for a value, `None` for a sender dropped without sending).
pub open spec fn join_poll_spec<T>(received: Progress<Option<T>>) -> Progress<Result<T, TaskPanicked>> {
    match received {
        Progress::Ready(Some(v)) => Progress::Ready(Ok(v)),
        Progress::Ready(None) => Progress::Ready(Err(TaskPanicked)),
        Progress::Pending => Progress::Pending,
    }
}

/// Whether the handle of a spawned task has resolved.
#[derive(Debug)]
pub struct JoinState {
    resolved: bool,
}

impl View for JoinState {
    type V = bool;

    closed spec fn view(&self) -> bool {
        self.resolved
    }
}

impl JoinState {
    /// The state of a handle that has not resolved yet.
    pub fn new() -> (r: Self)
        ensures
            !r@,
    {
        JoinState { resolved: false }
    }

    /// Whether the handle has resolved.
    pub fn is_resolved(&self) -> (r: bool)
        ensures
            r == self@,
    {
        self.resolved
    }

    /// Turn what the receiver reported into the handle's poll result. The
    /// handle resolves exactly when the receiver is ready.
    pub fn on_receiver<T>(&mut self, received: Progress<Option<T>>) -> (r: Progress<
        Result<T, TaskPanicked>,
    >)
        requires
            !old(self)@,
        ensures
            r == join_poll_spec(received),
            final(self)@ == (received is Ready),
    {
        match received {
            Progress::Ready(Some(v)) => {
                self.resolved = true;
                Progress::Ready(Ok(v))
            },
            Progress::Ready(None) => {
                self.resolved = true;
                Progress::Ready(Err(TaskPanicked))
            },
            Progress::Pending => Progress::Pending,
        }
    }
}

/// The handle of a task that returns `v` resolves to `v` exactly once: when
/// its receiver reports pending `pending` times and then the value, each
/// pending report leaves the handle pending and unresolved (so it may be
/// polled again), and the value resolves it to `v`, after which it takes no
/// further poll.
pub proof fn lemma_join_resolves_to_value_once<T>(pending: nat, v: T)
    ensures
        ({
            let reports = Seq::new(pending, |i: int| Progress::<Option<T>>::Pending).push(
                Progress::Ready(Some(v)),
            );
            &&& forall|i: int|
                0 <= i < pending ==> join_poll_spec(#[trigger] reports[i]) == Progress::<
                    Result<T, TaskPanicked>,
                >::Pending && !(reports[i] is Ready)
            &&& join_poll_spec(reports[pending as int]) == Progress::<
                Result<T, TaskPanicked>,
            >::Ready(Ok(v))
            &&& reports[pending as int] is Ready
        }),
{
}

} // verus!
