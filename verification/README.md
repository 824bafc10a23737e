# finality-pbft

A PBFT finality gadget: a set of voters agrees, view by view, on which block of
an externally produced chain is final, tolerating up to a third of faulty voters.

- `src/` is the verified core. `leader` holds the protocol messages, the voter
  set with its quorum size, the round log (`Storage`) whose phase advances
  PREPREPARE → PREPARE → COMMIT → FINALIZE as votes arrive, the order of a
  round's stages as a step function (`Storage::round_step`), and the decisions
  a voter takes between network steps (`leader::voter`, with `voter_step`
  choosing between the next round and a view change). `simple` holds the
  single-block form of the protocol. Contracts speak of abstract views (`Seq`,
  `Map`, `Set`); the laws of the protocol (quorum intersection, phase
  monotonicity, quorum backing of each phase, round trip of compact commits)
  are proof functions beside the code they are about.
- `app/` is the asynchronous runtime: voters that own the network streams,
  timers and shared state, and call the core for every decision.
- `tests/` exercise the core on concrete rounds.
