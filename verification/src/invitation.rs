//! The invitation record of the matchmaking flow: a plain create/accept/
//! reject record, kept here only as data — the workflow around it is a
//! storage concern, not part of the engine.

use vstd::prelude::*;

use crate::AgentId;

verus! {

/// An invitation from one player to another, with its status ("pending",
/// "accepted" or "rejected") and its creation time in milliseconds.
pub struct Invitation {
    pub inviter: AgentId,
    pub invited: AgentId,
    pub status: String,
    pub timestamp: u64,
}

} // verus!
