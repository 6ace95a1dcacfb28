//! The caucus provides a way of coordinating communication between a set
//! of actors.
//!
//! The subject of the communication may be a chat channel, a mailing
//! list, a discussion around an article, collaboration on a document,
//! etc. Joining, sending and receiving are each gated by a guard tree,
//! with the caucus itself as the target of every decision.
use vstd::prelude::*;
use vstd::std_specs::cmp::PartialEqSpec;
use crate::access_control::{verdict, AccessDenied, Guard, GuardResult, Node};

verus! {

/// Caucus operations, used for access control.
#[derive(Clone, Copy, Debug, PartialEq, Eq)]
pub enum Operation {
    /// Joining a caucus.
    Join,
    /// Sending to a caucus.
    Send,
    /// Receiving from a caucus.
    Receive,
}

/// A channel of communication between the actors in the caucus.
///
/// Type Parameters:
///
/// * `A`: The type of actor participating in the caucus.
/// * `M`: The type of messages exchanged over the caucus.
pub struct Caucus<A, M> {
    /// Control who can join the caucus.
    pub join_lock: Node,
    /// Control who can send to the caucus.
    pub send_lock: Node,
    /// Control who will receive messages from the caucus.
    pub receive_lock: Node,
    /// Actors in the caucus, in the order in which they joined.
    pub actors: Vec<A>,
    /// Marks the type of messages exchanged over the caucus.
    pub messages: std::marker::PhantomData<M>,
}

/// A message that the send guard accepted, with the actors it is for.
///
/// Handing it over to the actors is the work of whoever delivers messages;
/// the caucus only decides.
pub struct Delivery<M> {
    /// The message to deliver.
    pub message: M,
    /// Positions in `Caucus::actors`, in increasing order, of the actors
    /// that the receive guard lets receive.
    pub recipients: Vec<usize>,
}

/// `i` is the position of the first actor of `actors` equal to `actor`.
pub open spec fn is_first_match<A: PartialEq>(actors: Seq<A>, actor: &A, i: int) -> bool {
    &&& 0 <= i < actors.len()
    &&& actors[i].eq_spec(actor)
    &&& forall|j: int| 0 <= j < i ==> !#[trigger] actors[j].eq_spec(actor)
}

/// `actors` without its first actor equal to `actor`, or `actors` itself
/// when none is equal.
pub open spec fn without_first<A: PartialEq>(actors: Seq<A>, actor: &A) -> Seq<A> {
    if exists|i: int| is_first_match(actors, actor, i) {
        actors.remove(choose|i: int| is_first_match(actors, actor, i))
    } else {
        actors
    }
}

impl<A, M> Caucus<A, M> {
    /// Whether the join guard lets `actor` join this caucus.
    pub open spec fn may_join(&self, actor: &A) -> bool {
        <Node as Guard<A, Operation, Caucus<A, M>>>::permits(
            &self.join_lock,
            actor,
            Operation::Join,
            self,
        )
    }

    /// Whether the send guard lets `actor` send to this caucus.
    pub open spec fn may_send(&self, actor: &A) -> bool {
        <Node as Guard<A, Operation, Caucus<A, M>>>::permits(
            &self.send_lock,
            actor,
            Operation::Send,
            self,
        )
    }

    /// Whether the receive guard lets `actor` receive from this caucus.
    pub open spec fn may_receive(&self, actor: &A) -> bool {
        <Node as Guard<A, Operation, Caucus<A, M>>>::permits(
            &self.receive_lock,
            actor,
            Operation::Receive,
            self,
        )
    }

    /// The positions below `n`, in increasing order, of the actors that may
    /// receive.
    pub open spec fn receivers_below(&self, n: int) -> Seq<usize>
        decreases n,
    {
        if n <= 0 {
            Seq::empty()
        } else if self.may_receive(&self.actors@[n - 1]) {
            self.receivers_below(n - 1).push((n - 1) as usize)
        } else {
            self.receivers_below(n - 1)
        }
    }

    /// The positions, in increasing order, of all actors that may receive.
    pub open spec fn receivers(&self) -> Seq<usize> {
        self.receivers_below(self.actors@.len() as int)
    }

    /// A caucus with the given guards and no actors.
    pub fn new(join_lock: Node, send_lock: Node, receive_lock: Node) -> (c: Self)
        ensures
            c.join_lock == join_lock,
            c.send_lock == send_lock,
            c.receive_lock == receive_lock,
            c.actors@ == Seq::<A>::empty(),
    {
        Caucus {
            join_lock,
            send_lock,
            receive_lock,
            actors: Vec::new(),
            messages: std::marker::PhantomData,
        }
    }

    /// Add an actor to the caucus, if the join guard allows it.
    ///
    /// On denial the caucus is left as it was.
    pub fn add_actor(&mut self, actor: A) -> (r: GuardResult)
        ensures
            r == verdict(old(self).may_join(&actor)),
            final(self).join_lock == old(self).join_lock,
            final(self).send_lock == old(self).send_lock,
            final(self).receive_lock == old(self).receive_lock,
            final(self).actors@ == if r is Ok {
                old(self).actors@.push(actor)
            } else {
                old(self).actors@
            },
    {
        match self.join_lock.attempt(&actor, Operation::Join, self) {
            Ok(()) => {
                self.actors.push(actor);
                Ok(())
            },
            Err(denied) => Err(denied),
        }
    }

    /// Positions of the actors that the receive guard lets receive.
    fn eligible_receivers(&self) -> (r: Vec<usize>)
        ensures
            r@ == self.receivers(),
    {
        let mut recipients: Vec<usize> = Vec::new();
        let mut i: usize = 0;
        while i < self.actors.len()
            invariant
                i <= self.actors@.len(),
                recipients@ == self.receivers_below(i as int),
            decreases self.actors.len() - i,
        {
            if self.receive_lock.attempt(&self.actors[i], Operation::Receive, self).is_ok() {
                recipients.push(i);
            }
            i = i + 1;
        }
        recipients
    }

    /// Broadcast a message to the actors in the caucus.
    ///
    /// When the send guard lets `sender` send, the message comes back with
    /// the actors that the receive guard lets receive it; otherwise the
    /// denial comes back. The caucus itself is not changed.
    pub fn broadcast(&mut self, sender: A, message: M) -> (r: Result<Delivery<M>, AccessDenied>)
        ensures
            *final(self) == *old(self),
            match r {
                Ok(d) => old(self).may_send(&sender) && d.message == message
                    && d.recipients@ == old(self).receivers(),
                Err(_) => !old(self).may_send(&sender),
            },
    {
        match self.send_lock.attempt(&sender, Operation::Send, self) {
            Ok(()) => {
                let recipients = self.eligible_receivers();
                Ok(Delivery { message, recipients })
            },
            Err(denied) => Err(denied),
        }
    }
}

impl<A: PartialEq, M> Caucus<A, M> {
    /// Remove an actor from the caucus.
    ///
    /// The first actor equal to `actor` leaves; when none is equal nothing
    /// changes. Removal consults no guard and always succeeds.
    pub fn remove_actor(&mut self, actor: A) -> (r: Result<(), ()>)
        requires
            A::obeys_eq_spec(),
        ensures
            r is Ok,
            final(self).join_lock == old(self).join_lock,
            final(self).send_lock == old(self).send_lock,
            final(self).receive_lock == old(self).receive_lock,
            final(self).actors@ == without_first(old(self).actors@, &actor),
    {
        let mut i: usize = 0;
        while i < self.actors.len()
            invariant
                A::obeys_eq_spec(),
                *self == *old(self),
                i <= self.actors@.len(),
                forall|j: int| 0 <= j < i ==> !#[trigger] self.actors@[j].eq_spec(&actor),
            decreases self.actors.len() - i,
        {
            if self.actors[i] == actor {
                proof {
                    let s = self.actors@;
                    assert(is_first_match(s, &actor, i as int));
                    let k = choose|k: int| is_first_match(s, &actor, k);
                    assert(k == i);
                }
                self.actors.remove(i);
                return Ok(());
            }
            i = i + 1;
        }
        Ok(())
    }
}

} // verus!
