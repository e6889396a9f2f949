//! Decisions of the socket facade: the endless stream of accepted
//! connections, and the target of a datagram send.
use crate::connect::ConnectError;
use crate::time::Progress;
use std::collections::VecDeque;
use vstd::prelude::*;

verus! {

/// The stream of connections accepted by a listener.
///
/// It never ends: every finished accept, successful or not, is yielded as an
/// item, so one failed accept does not stop the server from listening. Its
/// view is the number of accepts attempted so far.
pub struct Incoming {
    accepts: Ghost<nat>,
}

impl View for Incoming {
    type V = nat;

    closed spec fn view(&self) -> nat {
        self.accepts@
    }
}

/// The item an accept outcome becomes.
pub open spec fn incoming_item_spec<T, E>(accepted: Progress<Result<T, E>>) -> Progress<
    Option<Result<T, E>>,
> {
    match accepted {
        Progress::Ready(x) => Progress::Ready(Some(x)),
        Progress::Pending => Progress::Pending,
    }
}

/// The number of accepts attempted, and the items yielded, when an incoming
/// stream that has attempted `accepts` accepts sees the outcomes `outcomes`.
pub open spec fn incoming_run<T, E>(accepts: nat, outcomes: Seq<Progress<Result<T, E>>>) -> (
    nat,
    Seq<Progress<Option<Result<T, E>>>>,
) {
    (accepts + outcomes.len(), outcomes.map_values(|p| incoming_item_spec(p)))
}

impl Incoming {
    /// A stream over a listener that has not accepted anything yet.
    pub fn new() -> (r: Self)
        ensures
            r@ == 0,
    {
        Incoming { accepts: Ghost(0) }
    }

    /// Turn the outcome of one accept into the next poll's result: pending
    /// stays pending, and a finished accept is always an item, never the end.
    pub fn on_accept<T, E>(&mut self, accepted: Progress<Result<T, E>>) -> (r: Progress<
        Option<Result<T, E>>,
    >)
        ensures
            r == incoming_item_spec(accepted),
            final(self)@ == old(self)@ + 1,
    {
        proof {
            self.accepts@ = self.accepts@ + 1;
        }
        match accepted {
            Progress::Ready(x) => Progress::Ready(Some(x)),
            Progress::Pending => Progress::Pending,
        }
    }

    /// Accept exactly one connection: take the next item of the stream,
    /// which is never the end, and hand back the accept outcome it holds.
    pub fn accept_one<T, E>(&mut self, accepted: Progress<Result<T, E>>) -> (r: Progress<
        Result<T, E>,
    >)
        ensures
            r == accepted,
            final(self)@ == old(self)@ + 1,
    {
        match self.on_accept(accepted) {
            Progress::Ready(Some(x)) => Progress::Ready(x),
            // An incoming stream never yields the end.
            Progress::Ready(None) => Progress::Pending,
            Progress::Pending => Progress::Pending,
        }
    }
}

/// Whatever the accept outcomes, an incoming stream never yields the end:
/// after `n` outcomes (such as `n` failed accepts) it has attempted `n`
/// accepts, every ready item holds an outcome, and each failure is yielded
/// as an item that carries it.
pub proof fn lemma_incoming_never_ends<T, E>(accepts: nat, outcomes: Seq<Progress<Result<T, E>>>)
    ensures
        incoming_run(accepts, outcomes).0 == accepts + outcomes.len(),
        incoming_run(accepts, outcomes).1.len() == outcomes.len(),
        forall|i: int|
            0 <= i < outcomes.len() ==> match #[trigger] incoming_run(accepts, outcomes).1[i] {
                Progress::Ready(item) => item is Some,
                Progress::Pending => outcomes[i] is Pending,
            },
        forall|i: int|
            0 <= i < outcomes.len() && outcomes[i] is Ready && outcomes[i]->Ready_0 is Err
                ==> #[trigger] incoming_run(accepts, outcomes).1[i] == Progress::Ready(
                Some(outcomes[i]->Ready_0),
            ),
{
}

/// The address a datagram goes to: the first address the target resolved
/// to, the resolution failure, or nothing when it resolved to no address.
pub open spec fn send_target_spec<A, E>(resolved: Result<Seq<A>, E>) -> Option<Result<A, E>> {
    match resolved {
        Ok(addrs) => if addrs.len() == 0 {
            None
        } else {
            Some(Ok(addrs[0]))
        },
        Err(e) => Some(Err(e)),
    }
}

/// A pending send of a datagram to a resolved target.
///
/// Each poll takes the target with [`SendTo::take_target`]; when the send is
/// still pending, the address is put back with [`SendTo::restore`] for the
/// next poll.
pub struct SendTo<A, E> {
    target: Option<Result<A, E>>,
}

impl<A, E> View for SendTo<A, E> {
    type V = Option<Result<A, E>>;

    closed spec fn view(&self) -> Option<Result<A, E>> {
        self.target
    }
}

impl<A, E> SendTo<A, E> {
    /// Prepare a send to the first address of a resolution result.
    pub fn new(resolved: Result<VecDeque<A>, E>) -> (r: Self)
        ensures
            r@ == send_target_spec(crate::connect::resolved_seq(resolved)),
    {
        let target = match resolved {
            Ok(mut addrs) => match addrs.pop_front() {
                Some(a) => Some(Ok(a)),
                None => None,
            },
            Err(e) => Some(Err(e)),
        };
        SendTo { target }
    }

    /// Take the address to send to for this poll, or the error to finish
    /// with: the resolution failure, or [`ConnectError::NoAddresses`] when
    /// there is no address (none was resolved, or an error was already
    /// reported).
    pub fn take_target(&mut self) -> (r: Result<A, ConnectError<E>>)
        ensures
            final(self)@ is None,
            r == match old(self)@ {
                Some(Ok(a)) => Ok(a),
                Some(Err(e)) => Err(ConnectError::Resolve(e)),
                None => Err(ConnectError::<E>::NoAddresses),
            },
    {
        match self.target.take() {
            Some(Ok(a)) => Ok(a),
            Some(Err(e)) => Err(ConnectError::Resolve(e)),
            None => Err(ConnectError::NoAddresses),
        }
    }

    /// Put the address back after a poll of the send.
    pub fn restore(&mut self, a: A)
        ensures
            final(self)@ == Some(Ok::<A, E>(a)),
    {
        self.target = Some(Ok(a));
    }
}

} // verus!
