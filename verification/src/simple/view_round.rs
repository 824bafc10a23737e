use vstd::prelude::*;

verus! {

/// State of the round.
#[derive(PartialEq, Clone, Debug)]
pub struct State<H, N> {
    /// The finalized block.
    pub finalized: Option<(H, N)>,
    /// Whether the view is completable.
    pub completable: bool,
}

impl<H: Clone, N: Clone> State<H, N> {
    /// Genesis state.
    pub fn genesis(genesis: (H, N)) -> (r: Self)
        ensures
            r.finalized == Some(genesis),
            r.completable,
    {
        State { finalized: Some(genesis), completable: true }
    }
}

} // verus!
