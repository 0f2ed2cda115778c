//! The connection actor's queue-and-socket discipline.
//!
//! The real actor is a background task that owns the one TCP socket: it
//! takes work items off a bounded queue, performs one full send-then-read
//! round trip per item, and delivers each result to the item's reply slot.
//! What is verified here is that discipline itself, as a state machine:
//! items wait in FIFO order, the front item is the one served next, at
//! most one item is ever in flight, and every accepted ticket is served in
//! submission order. The I/O shell drives this machine and performs the
//! round trips it asks for.

pub mod message;

use vstd::prelude::*;

use crate::actor::message::ActorMessage;
use crate::error::Error;

verus! {

/// The handshake's one decision: a session begins only when the device's
/// first response carried a salt; without one, session creation fails
/// entirely.
pub fn salt_from_handshake(salt: Option<String>) -> (r: Result<String, Error>)
    ensures
        match r {
            Ok(s) => salt == Some(s),
            Err(e) => salt is None && e is SaltNotFound,
        },
{
    match salt {
        Some(s) => Ok(s),
        None => Err(Error::SaltNotFound),
    }
}

/// How many work items may wait in the actor's queue; a submitter blocks
/// once this many are pending.
pub const QUEUE_CAPACITY: usize = 10;

/// The tickets of a run of work items, in the same order.
pub open spec fn spec_tickets(items: Seq<ActorMessage>) -> Seq<u64> {
    items.map_values(|m: ActorMessage| m.ticket)
}

/// The actor's bookkeeping: the waiting items, front first, and the ticket
/// of the item whose round trip is under way, if any. The two ghost
/// sequences record every ticket accepted and every ticket served.
pub struct ActorWorker {
    pending: Vec<ActorMessage>,
    in_flight: Option<u64>,
    submitted: Ghost<Seq<u64>>,
    served: Ghost<Seq<u64>>,
}

impl ActorWorker {
    /// The waiting items, front first.
    pub closed spec fn spec_pending(self) -> Seq<ActorMessage> {
        self.pending@
    }

    /// The ticket of the item being served, if one is mid-flight.
    pub closed spec fn spec_in_flight(self) -> Option<u64> {
        self.in_flight
    }

    /// Every ticket this worker has accepted, in submission order.
    pub closed spec fn spec_submitted(self) -> Seq<u64> {
        self.submitted@
    }

    /// Every ticket this worker has finished serving, in serving order.
    pub closed spec fn spec_served(self) -> Seq<u64> {
        self.served@
    }

    /// No round trip is under way.
    pub open spec fn is_idle(self) -> bool {
        self.spec_in_flight() is None
    }

    /// The in-flight ticket as a run of zero or one.
    pub open spec fn spec_in_flight_tickets(self) -> Seq<u64> {
        match self.spec_in_flight() {
            Some(t) => seq![t],
            None => Seq::empty(),
        }
    }

    /// FIFO accounting, which holds of every reachable worker: the tickets
    /// already served, then the one in flight, then the waiting ones are
    /// exactly the accepted tickets in submission order. In particular the
    /// served order is always a prefix of the submission order, and at most
    /// one ticket is ever between the queue and the served log. It holds
    /// of a fresh worker and every operation keeps it.
    pub open spec fn fifo_ok(self) -> bool {
        self.spec_submitted() == self.spec_served() + self.spec_in_flight_tickets()
            + spec_tickets(self.spec_pending())
    }

    /// A fresh worker: nothing pending, nothing in flight, nothing logged.
    pub fn new() -> (r: Self)
        ensures
            r.spec_pending() == Seq::<ActorMessage>::empty(),
            r.is_idle(),
            r.spec_submitted() == Seq::<u64>::empty(),
            r.spec_served() == Seq::<u64>::empty(),
            r.fifo_ok(),
    {
        let r = ActorWorker {
            pending: Vec::new(),
            in_flight: None,
            submitted: Ghost(Seq::empty()),
            served: Ghost(Seq::empty()),
        };
        proof {
            assert(r.fifo_ok()) by {
                assert(spec_tickets(Seq::<ActorMessage>::empty()) =~= Seq::<u64>::empty());
                assert(r.spec_submitted() =~= r.spec_served() + r.spec_in_flight_tickets()
                    + spec_tickets(r.spec_pending()));
            }
        }
        r
    }

    /// How many items wait in the queue.
    pub fn pending_len(&self) -> (r: usize)
        ensures
            r == self.spec_pending().len(),
    {
        self.pending.len()
    }

    /// Is a round trip under way?
    pub fn busy(&self) -> (r: bool)
        ensures
            r == !self.is_idle(),
    {
        self.in_flight.is_some()
    }

    /// Take a work item into the queue. A full queue refuses the item and
    /// is left unchanged — the shell then makes the submitter wait.
    pub fn submit(&mut self, m: ActorMessage) -> (accepted: bool)
        requires
            old(self).fifo_ok(),
        ensures
            accepted == (old(self).spec_pending().len() < QUEUE_CAPACITY),
            accepted ==> final(self).spec_pending() == old(self).spec_pending().push(m)
                && final(self).spec_submitted() == old(self).spec_submitted().push(m.ticket),
            !accepted ==> final(self).spec_pending() == old(self).spec_pending()
                && final(self).spec_submitted() == old(self).spec_submitted(),
            final(self).spec_in_flight() == old(self).spec_in_flight(),
            final(self).spec_served() == old(self).spec_served(),
            final(self).fifo_ok(),
    {
        if self.pending.len() < QUEUE_CAPACITY {
            let ghost t = m.ticket;
            self.pending.push(m);
            proof {
                self.submitted@ = self.submitted@.push(t);
                assert(spec_tickets(self.pending@) =~= spec_tickets(old(self).pending@).push(t));
                assert(self.fifo_ok()) by {
                    assert(self.spec_submitted() =~= self.spec_served()
                        + self.spec_in_flight_tickets() + spec_tickets(self.spec_pending()));
                }
            }
            true
        } else {
            false
        }
    }

    /// Begin serving the next item: exactly the front of the queue, and
    /// only while nothing else is in flight. Returns the item whose bytes
    /// the shell must now send and read back.
    pub fn begin_next(&mut self) -> (r: Option<ActorMessage>)
        requires
            old(self).fifo_ok(),
            old(self).is_idle(),
        ensures
            final(self).spec_submitted() == old(self).spec_submitted(),
            final(self).spec_served() == old(self).spec_served(),
            final(self).fifo_ok(),
            match r {
                Some(m) => {
                    &&& old(self).spec_pending().len() > 0
                    &&& m == old(self).spec_pending()[0]
                    &&& final(self).spec_pending() == old(self).spec_pending().drop_first()
                    &&& final(self).spec_in_flight() == Some(m.ticket)
                },
                None => {
                    &&& old(self).spec_pending().len() == 0
                    &&& *final(self) == *old(self)
                },
            },
    {
        if self.pending.len() == 0 {
            None
        } else {
            let m = self.pending.remove(0);
            self.in_flight = Some(m.ticket);
            proof {
                assert(spec_tickets(old(self).pending@) =~= seq![m.ticket] + spec_tickets(
                    self.pending@,
                ));
                assert(self.fifo_ok()) by {
                    assert(self.spec_submitted() =~= self.spec_served()
                        + self.spec_in_flight_tickets() + spec_tickets(self.spec_pending()));
                }
            }
            Some(m)
        }
    }

    /// Finish the round trip under way: the worker falls idle, logs the
    /// ticket as served, and reports it so the shell can deliver the result
    /// to that ticket's reply slot. The queue is untouched — a failed round
    /// trip never unseats the waiting items.
    pub fn finish(&mut self) -> (ticket: u64)
        requires
            old(self).fifo_ok(),
            !old(self).is_idle(),
        ensures
            Some(ticket) == old(self).spec_in_flight(),
            final(self).is_idle(),
            final(self).spec_pending() == old(self).spec_pending(),
            final(self).spec_submitted() == old(self).spec_submitted(),
            final(self).spec_served() == old(self).spec_served().push(ticket),
            final(self).fifo_ok(),
    {
        let ticket = match self.in_flight {
            Some(t) => t,
            None => 0,
        };
        self.in_flight = None;
        proof {
            self.served@ = self.served@.push(ticket);
            assert(self.fifo_ok()) by {
                assert(self.spec_submitted() =~= self.spec_served()
                    + self.spec_in_flight_tickets() + spec_tickets(self.spec_pending()));
            }
        }
        ticket
    }
}

/// Tickets leave the worker in the order they entered it: whenever the
/// FIFO accounting holds, the served log is a prefix of the submission
/// log.
pub proof fn lemma_served_is_submission_prefix(w: ActorWorker)
    requires
        w.fifo_ok(),
    ensures
        w.spec_served() == w.spec_submitted().take(w.spec_served().len() as int),
{
    assert(w.spec_served() =~= w.spec_submitted().take(w.spec_served().len() as int));
}

} // verus!
