//! Identity types: actors and messages.
//!
//! Both are opaque, externally assigned identifiers that the
//! orchestrator only ever compares for equality.  They are modelled as
//! plain 64-bit values; the runtime that delivers messages is
//! responsible for minting them.

use vstd::prelude::*;

verus! {

/// Identifies a user or the word-checking collaborator.
#[derive(Clone, Copy, Debug, PartialEq, Eq, Hash, Structural)]
pub struct ActorId {
    pub id: u64,
}

impl ActorId {
    /// The all-zero actor id, which no real actor may use.
    pub fn zero() -> (r: ActorId)
        ensures
            r.id == 0,
    {
        ActorId { id: 0 }
    }

    /// True exactly on the reserved all-zero id.
    pub fn is_zero(&self) -> (r: bool)
        ensures
            r == (self.id == 0),
    {
        self.id == 0
    }
}

/// Identifies one delivered message; unique per message.
#[derive(Clone, Copy, Debug, PartialEq, Eq, Hash, Structural)]
pub struct MessageId {
    pub id: u64,
}

impl MessageId {
    /// The all-zero message id, used as the placeholder in fresh sessions.
    pub fn zero() -> (r: MessageId)
        ensures
            r.id == 0,
    {
        MessageId { id: 0 }
    }
}

} // verus!
