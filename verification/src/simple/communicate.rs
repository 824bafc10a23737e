use vstd::prelude::*;

verus! {

/// Data necessary to create a voter.
pub struct VoterData<ID> {
    /// Local voter id.
    pub local_id: ID,
}

/// Data necessary to participate in a round.
pub struct RoundData<ID, Timer, Input, Output> {
    /// Local voter id
    pub voter_id: ID,
    /// Timer before prevotes can be cast. This should be Start + 2T
    /// where T is the gossip time estimate.
    pub prevote_timer: Timer,
    /// Incoming messages.
    pub incoming: Input,
    /// Outgoing messages.
    pub outgoing: Output,
}

} // verus!
