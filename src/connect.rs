//! Establishing a connection by trying resolved candidate addresses in order.
//!
//! [`Connect`] holds the resolved candidates (or the resolution failure) and
//! decides, step by step, which address to try next and how the whole attempt
//! ends. Whoever drives it performs each attempt and reports the outcome with
//! [`Connect::attempt_failed`] or [`Connect::attempt_succeeded`].
use std::collections::VecDeque;
use vstd::prelude::*;

verus! {

/// Why establishing a connection (or binding) failed.
#[derive(Debug)]
pub enum ConnectError<E> {
    /// The target could not be resolved to addresses.
    Resolve(E),
    /// The target resolved to no address at all (an input error).
    NoAddresses,
    /// Every candidate was tried; this is the error of the last one.
    Refused(E),
}

impl<E> ConnectError<E> {
    /// Whether this is the error for a target that resolved to no address.
    pub fn is_input_error(&self) -> (r: bool)
        ensures
            r == (*self is NoAddresses),
    {
        match self {
            ConnectError::NoAddresses => true,
            _ => false,
        }
    }
}

/// Where a [`Connect`] stands.
#[derive(Debug, Clone, Copy, PartialEq, Eq, Structural)]
pub enum Phase {
    /// Ready to decide on the next candidate.
    Idle,
    /// An attempt on the last handed-out candidate is in flight.
    Connecting,
    /// Finished, successfully or not.
    Done,
}

/// What the driver of a [`Connect`] has to do next.
#[derive(Debug)]
pub enum ConnectStep<A, E> {
    /// Try to connect to this address, then report the outcome.
    Attempt(A),
    /// Give up with this error.
    Finished(ConnectError<E>),
}

/// The mathematical state of a [`Connect`].
pub struct ConnectView<A, E> {
    /// Candidates not tried yet, in the order they will be tried.
    pub remaining: Seq<A>,
    /// Candidates handed out so far, in the order they were handed out.
    pub attempted: Seq<A>,
    /// The resolution failure, while it has not been reported.
    pub resolve_err: Option<E>,
    /// The error of the most recent failed attempt.
    pub last_err: Option<E>,
    pub phase: Phase,
}

/// The state of a fresh connection attempt over a resolution result.
pub open spec fn initial_view<A, E>(resolved: Result<Seq<A>, E>) -> ConnectView<A, E> {
    match resolved {
        Ok(addrs) => ConnectView {
            remaining: addrs,
            attempted: Seq::empty(),
            resolve_err: None,
            last_err: None,
            phase: Phase::Idle,
        },
        Err(e) => ConnectView {
            remaining: Seq::empty(),
            attempted: Seq::empty(),
            resolve_err: Some(e),
            last_err: None,
            phase: Phase::Idle,
        },
    }
}

/// The decision taken in the `Idle` phase, with the state it leads to.
pub open spec fn step_spec<A, E>(v: ConnectView<A, E>) -> (ConnectView<A, E>, ConnectStep<A, E>) {
    match v.resolve_err {
        Some(e) => (
            ConnectView { resolve_err: None, phase: Phase::Done, ..v },
            ConnectStep::Finished(ConnectError::Resolve(e)),
        ),
        None => if v.remaining.len() == 0 {
            (
                ConnectView { last_err: None, phase: Phase::Done, ..v },
                ConnectStep::Finished(
                    match v.last_err {
                        Some(e) => ConnectError::Refused(e),
                        None => ConnectError::NoAddresses,
                    },
                ),
            )
        } else {
            (
                ConnectView {
                    remaining: v.remaining.drop_first(),
                    attempted: v.attempted.push(v.remaining[0]),
                    phase: Phase::Connecting,
                    ..v
                },
                ConnectStep::Attempt(v.remaining[0]),
            )
        },
    }
}

/// The state after the attempt in flight failed with `e`.
pub open spec fn failed_spec<A, E>(v: ConnectView<A, E>, e: E) -> ConnectView<A, E> {
    ConnectView { last_err: Some(e), phase: Phase::Idle, ..v }
}

/// The state after the attempt in flight succeeded.
pub open spec fn succeeded_spec<A, E>(v: ConnectView<A, E>) -> ConnectView<A, E> {
    ConnectView { phase: Phase::Done, ..v }
}

/// The state after one decision per error in `errs`, each attempt failing
/// with that error.
pub open spec fn fail_rounds<A, E>(v: ConnectView<A, E>, errs: Seq<E>) -> ConnectView<A, E>
    decreases errs.len(),
{
    if errs.len() == 0 {
        v
    } else {
        fail_rounds(failed_spec(step_spec(v).0, errs[0]), errs.drop_first())
    }
}

/// A run of failed attempts, started from an idle state with no pending
/// resolution error, walks the candidates front to back: the `k`-th failure
/// belongs to the `k`-th remaining candidate, and the last error is kept.
pub proof fn lemma_failed_attempts_walk_in_order<A, E>(v: ConnectView<A, E>, errs: Seq<E>)
    requires
        v.phase == Phase::Idle,
        v.resolve_err is None,
        errs.len() <= v.remaining.len(),
    ensures
        fail_rounds(v, errs).phase == Phase::Idle,
        fail_rounds(v, errs).resolve_err is None,
        fail_rounds(v, errs).remaining == v.remaining.skip(errs.len() as int),
        fail_rounds(v, errs).attempted == v.attempted + v.remaining.take(errs.len() as int),
        fail_rounds(v, errs).last_err == (if errs.len() == 0 {
            v.last_err
        } else {
            Some(errs.last())
        }),
    decreases errs.len(),
{
    if errs.len() > 0 {
        let w = failed_spec(step_spec(v).0, errs[0]);
        lemma_failed_attempts_walk_in_order(w, errs.drop_first());
        assert(w.remaining.skip(errs.drop_first().len() as int) =~= v.remaining.skip(
            errs.len() as int,
        ));
        assert(w.attempted + w.remaining.take(errs.drop_first().len() as int) =~= v.attempted
            + v.remaining.take(errs.len() as int));
    }
}

/// Connecting over a non-empty candidate list, where the first `errs.len()`
/// candidates refuse (with those errors) and the next one accepts: the
/// accepting candidate is the one right after the refusing ones, every
/// earlier candidate was tried in order, and the connection is done.
pub proof fn lemma_connect_succeeds_via_first_accepting<A, E>(addrs: Seq<A>, errs: Seq<E>)
    requires
        errs.len() < addrs.len(),
    ensures
        ({
            let before = fail_rounds(initial_view(Ok::<Seq<A>, E>(addrs)), errs);
            let (connecting, step) = step_spec(before);
            &&& step == ConnectStep::<A, E>::Attempt(addrs[errs.len() as int])
            &&& succeeded_spec(connecting).phase == Phase::Done
            &&& succeeded_spec(connecting).attempted == addrs.take(errs.len() as int + 1)
        }),
{
    let v = initial_view(Ok::<Seq<A>, E>(addrs));
    lemma_failed_attempts_walk_in_order(v, errs);
    let before = fail_rounds(v, errs);
    assert(before.attempted =~= addrs.take(errs.len() as int));
    assert(before.remaining[0] == addrs[errs.len() as int]);
    assert(addrs.take(errs.len() as int).push(addrs[errs.len() as int]) =~= addrs.take(
        errs.len() as int + 1,
    ));
}

/// Connecting over a non-empty candidate list where every candidate refuses:
/// every candidate was tried, in order, and the connection fails with exactly
/// the error of the last one.
pub proof fn lemma_connect_fails_with_last_error<A, E>(addrs: Seq<A>, errs: Seq<E>)
    requires
        addrs.len() > 0,
        errs.len() == addrs.len(),
    ensures
        ({
            let before = fail_rounds(initial_view(Ok::<Seq<A>, E>(addrs)), errs);
            let (after, step) = step_spec(before);
            &&& before.attempted == addrs
            &&& step == ConnectStep::<A, E>::Finished(ConnectError::Refused(errs.last()))
            &&& after.phase == Phase::Done
        }),
{
    let v = initial_view(Ok::<Seq<A>, E>(addrs));
    lemma_failed_attempts_walk_in_order(v, errs);
    assert(fail_rounds(v, errs).attempted =~= addrs);
    assert(fail_rounds(v, errs).remaining.len() == 0);
}

/// Connecting over an empty candidate list finishes at the first decision
/// with the input error [`ConnectError::NoAddresses`], having tried nothing.
pub proof fn lemma_connect_empty_is_input_error<A, E>()
    ensures
        ({
            let (after, step) = step_spec(initial_view(Ok::<Seq<A>, E>(Seq::empty())));
            &&& step == ConnectStep::<A, E>::Finished(ConnectError::NoAddresses)
            &&& after.phase == Phase::Done
            &&& after.attempted.len() == 0
        }),
{
}

/// Connection establishment over an ordered list of candidate addresses.
pub struct Connect<A, E> {
    candidates: VecDeque<A>,
    resolve_err: Option<E>,
    last_err: Option<E>,
    phase: Phase,
    attempted: Ghost<Seq<A>>,
}

impl<A, E> View for Connect<A, E> {
    type V = ConnectView<A, E>;

    closed spec fn view(&self) -> ConnectView<A, E> {
        ConnectView {
            remaining: self.candidates@,
            attempted: self.attempted@,
            resolve_err: self.resolve_err,
            last_err: self.last_err,
            phase: self.phase,
        }
    }
}

/// The addresses of a resolution result, as a sequence.
pub open spec fn resolved_seq<A, E>(resolved: Result<VecDeque<A>, E>) -> Result<Seq<A>, E> {
    match resolved {
        Ok(d) => Ok(d@),
        Err(e) => Err(e),
    }
}

impl<A, E> Connect<A, E> {
    /// Start connecting over the result of resolving the target.
    pub fn new(resolved: Result<VecDeque<A>, E>) -> (r: Self)
        ensures
            r@ == initial_view(resolved_seq(resolved)),
    {
        match resolved {
            Ok(candidates) => Connect {
                candidates,
                resolve_err: None,
                last_err: None,
                phase: Phase::Idle,
                attempted: Ghost(Seq::empty()),
            },
            Err(e) => Connect {
                candidates: VecDeque::new(),
                resolve_err: Some(e),
                last_err: None,
                phase: Phase::Idle,
                attempted: Ghost(Seq::empty()),
            },
        }
    }

    /// The phase this attempt is in.
    pub fn phase(&self) -> (r: Phase)
        ensures
            r == self@.phase,
    {
        self.phase
    }

    /// Decide what to do next: try the next candidate in order, or finish
    /// with the resolution error, the last attempt's error, or
    /// [`ConnectError::NoAddresses`] when no candidate was ever tried.
    pub fn next_step(&mut self) -> (r: ConnectStep<A, E>)
        requires
            old(self)@.phase == Phase::Idle,
        ensures
            (final(self)@, r) == step_spec(old(self)@),
    {
        if let Some(e) = self.resolve_err.take() {
            self.phase = Phase::Done;
            return ConnectStep::Finished(ConnectError::Resolve(e));
        }
        match self.candidates.pop_front() {
            Some(addr) => {
                proof {
                    self.attempted@ = self.attempted@.push(addr);
                }
                self.phase = Phase::Connecting;
                ConnectStep::Attempt(addr)
            },
            None => {
                self.phase = Phase::Done;
                match self.last_err.take() {
                    Some(e) => ConnectStep::Finished(ConnectError::Refused(e)),
                    None => ConnectStep::Finished(ConnectError::NoAddresses),
                }
            },
        }
    }

    /// Report that the attempt in flight failed with `e`.
    pub fn attempt_failed(&mut self, e: E)
        requires
            old(self)@.phase == Phase::Connecting,
        ensures
            final(self)@ == failed_spec(old(self)@, e),
    {
        self.last_err = Some(e);
        self.phase = Phase::Idle;
    }

    /// Report that the attempt in flight succeeded.
    pub fn attempt_succeeded(&mut self)
        requires
            old(self)@.phase == Phase::Connecting,
        ensures
            final(self)@ == succeeded_spec(old(self)@),
    {
        self.phase = Phase::Done;
    }
}

} // verus!
