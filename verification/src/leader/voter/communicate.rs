use vstd::prelude::*;

verus! {

/// Data necessary to create a voter.
pub struct VoterData<Id> {
    /// Local voter id.
    pub local_id: Id,
}

/// Data necessary to participate in a round.
pub struct RoundData<Id, Input, Output> {
    /// Local voter id
    pub voter_id: Id,
    /// Incoming messages.
    pub incoming: Input,
    /// Outgoing messages.
    pub outgoing: Output,
}

} // verus!
