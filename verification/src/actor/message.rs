//! Work items carried from submitters to the connection actor.

use vstd::prelude::*;

verus! {

/// One queued work item: the outbound message bytes and the ticket that
/// links the eventual reply back to its submitter's reply slot.
#[derive(Debug)]
pub struct ActorMessage {
    /// The serialized request, ready for framing.
    pub message: Vec<u8>,
    /// Identifies the reply slot the result must be delivered to.
    pub ticket: u64,
}

} // verus!
