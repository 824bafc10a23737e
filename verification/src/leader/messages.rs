use vstd::prelude::*;
use vstd::std_specs::convert::FromSpecImpl;

verus! {

/// Error for PBFT consensus.
#[derive(Debug, Clone, Copy, PartialEq, Eq, Structural)]
pub enum Error {
    /// No Primary message was received. This indicate the failure of the primary.
    /// The consensus need to elect a new leader. (view change)
    PrimaryFailure,
    /// Thers is not enough validators to perform a safe and live consensus.
    /// The consensus (may) need to elect a new leader. (view change)
    CommitNotEnough,
    /// The incoming channel is closed for some reason. Failure of this node.
    IncomingClosed,
}

impl Error {
    /// The message that describes the error.
    pub fn to_string(&self) -> (r: String)
        ensures
            r@ == error_text(*self),
    {
        match self {
            Error::PrimaryFailure => {
                let r = String::from_str("No primary message, may need to initiate view change.");
                proof {
                    reveal_strlit("No primary message, may need to initiate view change.");
                }
                r
            },
            Error::IncomingClosed => {
                let r = String::from_str("Incoming channel is closed (unexpected).");
                proof {
                    reveal_strlit("Incoming channel is closed (unexpected).");
                }
                r
            },
            Error::CommitNotEnough => {
                let r = String::from_str("Commit not enough.");
                proof {
                    reveal_strlit("Commit not enough.");
                }
                r
            },
        }
    }
}

/// The text shown for each error.
pub open spec fn error_text(e: Error) -> Seq<char> {
    match e {
        Error::PrimaryFailure => "No primary message, may need to initiate view change."@,
        Error::IncomingClosed => "Incoming channel is closed (unexpected)."@,
        Error::CommitNotEnough => "Commit not enough."@,
    }
}

/// State of the view. Generate by [`Storage`](super::Storage).
#[derive(PartialEq, Clone, Debug)]
pub struct State<N, H> {
    /// The last finalized block.
    pub finalized: Option<(N, H)>,
}

impl<H, N> State<H, N> {
    /// Genesis state.
    pub fn genesis(genesis: (H, N)) -> (r: Self)
        ensures
            r.finalized == Some(genesis),
    {
        State { finalized: Some(genesis) }
    }
}

/// A preprepare message for a block in PBFT.
#[derive(Clone, Copy, Debug, PartialEq, Eq)]
pub struct PrePrepare<N, D> {
    pub view: u64,
    pub seq: u64,
    pub target_number: N,
    pub target_hash: D,
}

impl<N, D> PrePrepare<N, D> {
    /// Create a new preprepare message.
    pub fn new(view: u64, seq: u64, target_number: N, target_hash: D) -> (r: Self)
        ensures
            r == (PrePrepare { view, seq, target_number, target_hash }),
    {
        PrePrepare { view, seq, target_number, target_hash }
    }
}

/// A signed preprepare message.
#[derive(Clone, Copy, PartialEq, Eq, Debug)]
pub struct SignedPrePrepare<N, D, S, Id> {
    /// The preprepare message which has been signed.
    pub preprepare: PrePrepare<N, D>,
    /// The signature on the message.
    pub signature: S,
    /// The Id of the signer.
    pub id: Id,
}

/// A prepare message for a block in PBFT.
#[derive(Clone, Copy, Debug, PartialEq, Eq)]
pub struct Prepare<N, D> {
    /// The view number.
    pub view: u64,
    pub seq: u64,
    /// The target block's number.
    pub target_number: N,
    /// The target block's hash.
    pub target_hash: D,
}

impl<N, D> Prepare<N, D> {
    /// Create a new prepare message.
    pub fn new(view: u64, seq: u64, target_number: N, digest: D) -> (r: Self)
        ensures
            r == (Prepare { view, seq, target_number, target_hash: digest }),
    {
        Prepare { view, seq, target_number, target_hash: digest }
    }
}

/// A signed prepare message.
#[derive(Clone, Copy, PartialEq, Eq, Debug)]
pub struct SignedPrepare<N, D, S, Id> {
    /// The prepare message which has been signed.
    pub prepare: Prepare<N, D>,
    /// The signature on the message.
    pub signature: S,
    /// The Id of the signer.
    pub id: Id,
}

/// A commit message for a block in PBFT.
#[derive(Clone, Copy, Debug, PartialEq, Eq)]
pub struct Commit<N, D> {
    /// The view number.
    pub view: u64,
    pub seq: u64,
    /// The sequence number.
    pub target_number: N,
    /// The target block's hash.
    pub target_hash: D,
}

impl<N, D> Commit<N, D> {
    /// Create a new commit message.
    pub fn new(view: u64, seq: u64, target_number: N, target_hash: D) -> (r: Self)
        ensures
            r == (Commit { view, seq, target_number, target_hash }),
    {
        Commit { view, seq, target_number, target_hash }
    }
}

/// A signed commit message.
#[derive(Clone, Copy, PartialEq, Eq, Debug)]
pub struct SignedCommit<N, D, S, Id> {
    /// The commit message which has been signed.
    pub commit: Commit<N, D>,
    /// The signature on the message.
    pub signature: S,
    /// The Id of the signer.
    pub id: Id,
}

/// A PBFT consensus message.
/// N: sequence number
/// D: Digest of the block, aka block hash or header.
#[derive(Clone, Copy, PartialEq, Eq, Debug)]
pub enum Message<N, D> {
    /// A message to be sent to the network by primary alive but not yet haprimary alive but not
    /// yet have a new block to make consensus.
    PrePrepare(PrePrepare<N, D>),
    /// multicast (except from the primary) <view, number, Digest(m)>
    Prepare(Prepare<N, D>),
    /// multicast <view, number>
    Commit(Commit<N, D>),
}

/// The view a message votes in.
pub open spec fn message_view<N, D>(m: Message<N, D>) -> u64 {
    match m {
        Message::PrePrepare(v) => v.view,
        Message::Prepare(v) => v.view,
        Message::Commit(v) => v.view,
    }
}

/// The sequence number a message votes for.
pub open spec fn message_seq<N, D>(m: Message<N, D>) -> u64 {
    match m {
        Message::PrePrepare(v) => v.seq,
        Message::Prepare(v) => v.seq,
        Message::Commit(v) => v.seq,
    }
}

/// The block a message votes for, as (hash, number).
pub open spec fn message_target<N, D>(m: Message<N, D>) -> (D, N) {
    match m {
        Message::PrePrepare(v) => (v.target_hash, v.target_number),
        Message::Prepare(v) => (v.target_hash, v.target_number),
        Message::Commit(v) => (v.target_hash, v.target_number),
    }
}

impl<D, N: Copy> Message<N, D> {
    /// Get the target block of the vote.
    pub fn target(&self) -> (r: (&D, N))
        ensures
            (*r.0, r.1) == message_target(*self),
    {
        match self {
            Message::PrePrepare(v) => (&v.target_hash, v.target_number),
            Message::Prepare(v) => (&v.target_hash, v.target_number),
            Message::Commit(v) => (&v.target_hash, v.target_number),
        }
    }

    /// Get the view of the vote.
    pub fn view(&self) -> (r: u64)
        ensures
            r == message_view(*self),
    {
        match self {
            Message::PrePrepare(v) => v.view,
            Message::Prepare(v) => v.view,
            Message::Commit(v) => v.view,
        }
    }

    /// Get the sequence number of the vote.
    pub fn seq(&self) -> (r: u64)
        ensures
            r == message_seq(*self),
    {
        match self {
            Message::PrePrepare(v) => v.seq,
            Message::Prepare(v) => v.seq,
            Message::Commit(v) => v.seq,
        }
    }
}

/// A commit message which is an aggregate of commits.
/// NOTE: Similar to `Commit` in GRANDPA.
#[derive(PartialEq, Eq, Clone, Debug)]
pub struct FinalizedCommit<N, D, S, Id> {
    /// The target block's hash.
    pub target_hash: D,
    /// The target block's number.
    pub target_number: N,
    /// Precommits for target block or any block after it that justify this commit.
    pub commits: Vec<SignedCommit<N, D, S, Id>>,
}

/// A signed message.
#[derive(Clone, Copy, PartialEq, Eq, Debug)]
pub struct SignedMessage<N, D, S, Id> {
    /// The internal message which has been signed.
    pub message: Message<N, D>,
    /// The signature on the message.
    pub signature: S,
    /// The Id of the signer
    pub id: Id,
}

impl<N: Copy, D, S, Id> SignedMessage<N, D, S, Id> {
    /// Get the target block of the vote.
    pub fn target(&self) -> (r: (&D, N))
        ensures
            (*r.0, r.1) == message_target(self.message),
    {
        self.message.target()
    }

    /// Get the view of the vote.
    pub fn view(&self) -> (r: u64)
        ensures
            r == message_view(self.message),
    {
        self.message.view()
    }

    /// Get the sequence number of the vote.
    pub fn seq(&self) -> (r: u64)
        ensures
            r == message_seq(self.message),
    {
        self.message.seq()
    }
}

/// Convert from [`SignedCommit`] to [`SignedMessage`].
impl<N: Copy, D, S, Id> From<SignedCommit<N, D, S, Id>> for SignedMessage<N, D, S, Id> {
    fn from(sc: SignedCommit<N, D, S, Id>) -> (r: Self) {
        SignedMessage { message: Message::Commit(sc.commit), signature: sc.signature, id: sc.id }
    }
}

impl<N: Copy, D, S, Id> FromSpecImpl<SignedCommit<N, D, S, Id>> for SignedMessage<N, D, S, Id> {
    open spec fn obeys_from_spec() -> bool {
        true
    }

    open spec fn from_spec(sc: SignedCommit<N, D, S, Id>) -> Self {
        SignedMessage { message: Message::Commit(sc.commit), signature: sc.signature, id: sc.id }
    }
}

/// Authentication data for a set of many messages, currently a set of commit signatures
pub type MultiAuthData<S, Id> = Vec<(S, Id)>;

/// A commit message with compact representation of authenticationg data.
/// NOTE: Similar to `CompactCommit`
#[derive(Clone, PartialEq, Eq, Debug)]
pub struct CompactCommit<D, N, S, Id> {
    /// The target block's hash.
    pub target_hash: D,
    /// The target block's number.
    pub target_number: N,
    /// Precommits for target block or any block after it that justify this commit.
    pub commits: Vec<Commit<N, D>>,
    /// Authentication data for the commit.
    pub auth_data: MultiAuthData<S, Id>,
}

/// The commit votes of `commits`, without their signers.
pub open spec fn commits_of<N, D, S, Id>(commits: Seq<SignedCommit<N, D, S, Id>>) -> Seq<Commit<N, D>> {
    commits.map_values(|c: SignedCommit<N, D, S, Id>| c.commit)
}

/// The (signature, signer) pairs of `commits`.
pub open spec fn auth_data_of<N, D, S, Id>(commits: Seq<SignedCommit<N, D, S, Id>>) -> Seq<(S, Id)> {
    commits.map_values(|c: SignedCommit<N, D, S, Id>| (c.signature, c.id))
}

/// Commit votes paired with authentication data position by position, as far as
/// the shorter of the two goes.
pub open spec fn zip_commits<N, D, S, Id>(commits: Seq<Commit<N, D>>, auth: Seq<(S, Id)>) -> Seq<
    SignedCommit<N, D, S, Id>,
> {
    let len = if commits.len() <= auth.len() {
        commits.len()
    } else {
        auth.len()
    };
    Seq::new(
        len,
        |i: int| SignedCommit { commit: commits[i], signature: auth[i].0, id: auth[i].1 },
    )
}

/// Convert from [`FinalizedCommit`] to [`CompactCommit`].
impl<D: Clone, N: Clone, S, Id> From<FinalizedCommit<N, D, S, Id>> for CompactCommit<D, N, S, Id> {
    fn from(commit: FinalizedCommit<N, D, S, Id>) -> (r: Self)
        ensures
            r.target_hash == commit.target_hash,
            r.target_number == commit.target_number,
            r.commits@ == commits_of(commit.commits@),
            r.auth_data@ == auth_data_of(commit.commits@),
    {
        let ghost all = commit.commits@;
        let mut commits: Vec<Commit<N, D>> = Vec::new();
        let mut auth_data: Vec<(S, Id)> = Vec::new();
        for c in it: commit.commits.into_iter()
            invariant
                it.seq() == all,
                commits@ == commits_of(all.take(it.index())),
                auth_data@ == auth_data_of(all.take(it.index())),
        {
            proof {
                assert(all.take(it.index() + 1) =~= all.take(it.index()).push(c));
            }
            commits.push(c.commit);
            auth_data.push((c.signature, c.id));
        }
        proof {
            assert(all.take(all.len() as int) =~= all);
        }
        CompactCommit {
            target_hash: commit.target_hash,
            target_number: commit.target_number,
            commits,
            auth_data,
        }
    }
}

impl<D: Clone, N: Clone, S, Id> FromSpecImpl<FinalizedCommit<N, D, S, Id>> for CompactCommit<D, N, S, Id> {
    open spec fn obeys_from_spec() -> bool {
        false
    }

    open spec fn from_spec(commit: FinalizedCommit<N, D, S, Id>) -> Self {
        arbitrary()
    }
}

/// Convert from [`CompactCommit`] to [`FinalizedCommit`].
impl<D, N, S, Id> From<CompactCommit<D, N, S, Id>> for FinalizedCommit<N, D, S, Id> {
    fn from(commit: CompactCommit<D, N, S, Id>) -> (r: Self)
        ensures
            r.target_hash == commit.target_hash,
            r.target_number == commit.target_number,
            r.commits@ == zip_commits(commit.commits@, commit.auth_data@),
    {
        let ghost z = zip_commits(commit.commits@, commit.auth_data@);
        let mut votes = commit.commits;
        let mut auth = commit.auth_data;
        let len = if votes.len() <= auth.len() {
            votes.len()
        } else {
            auth.len()
        };
        votes.truncate(len);
        auth.truncate(len);
        // Pair the votes from the back, then restore their order.
        let mut reversed: Vec<SignedCommit<N, D, S, Id>> = Vec::new();
        while votes.len() > 0
            invariant
                z.len() == len,
                votes@.len() == auth@.len(),
                votes@.len() + reversed@.len() == len,
                forall|i: int| 0 <= i < votes@.len() ==> #[trigger] votes@[i] == z[i].commit,
                forall|i: int| 0 <= i < auth@.len() ==> #[trigger] auth@[i] == (z[i].signature, z[i].id),
                forall|i: int|
                    0 <= i < reversed@.len() ==> #[trigger] reversed@[i] == z[len - 1 - i],
            decreases votes@.len(),
        {
            let c = votes.pop().unwrap();
            let (s, id) = auth.pop().unwrap();
            reversed.push(SignedCommit { commit: c, signature: s, id });
        }
        let mut commits: Vec<SignedCommit<N, D, S, Id>> = Vec::new();
        while reversed.len() > 0
            invariant
                z.len() == len,
                reversed@.len() + commits@.len() == len,
                forall|i: int|
                    0 <= i < reversed@.len() ==> #[trigger] reversed@[i] == z[len - 1 - i],
                forall|i: int| 0 <= i < commits@.len() ==> #[trigger] commits@[i] == z[i],
            decreases reversed@.len(),
        {
            let c = reversed.pop().unwrap();
            commits.push(c);
        }
        assert(commits@ =~= z);
        FinalizedCommit { target_hash: commit.target_hash, target_number: commit.target_number, commits }
    }
}

impl<D, N, S, Id> FromSpecImpl<CompactCommit<D, N, S, Id>> for FinalizedCommit<N, D, S, Id> {
    open spec fn obeys_from_spec() -> bool {
        false
    }

    open spec fn from_spec(commit: CompactCommit<D, N, S, Id>) -> Self {
        arbitrary()
    }
}

/// Compacting a finalized commit and expanding it again gives back the same votes,
/// signatures and signers, in the same order.
pub proof fn lemma_compact_round_trip<N, D, S, Id>(commits: Seq<SignedCommit<N, D, S, Id>>)
    ensures
        zip_commits(commits_of(commits), auth_data_of(commits)) == commits,
{
    assert(zip_commits(commits_of(commits), auth_data_of(commits)) =~= commits);
}

/// A catch-up message, which is an aggregate of commits that necessary
/// to complete a round.
///
/// the field "prepares","base_hash", "base_number" are not used currently.
#[derive(Clone, PartialEq, Eq, Debug)]
pub struct CatchUp<N, D, S, Id> {
    /// View number.
    pub view_number: u64,
    /// Prevotes for target block or any block after it that justify this catch-up.
    pub prepares: Vec<SignedPrepare<N, D, S, Id>>,
    /// Precommits for target block or any block after it that justify this catch-up.
    pub commits: Vec<SignedCommit<N, D, S, Id>>,
    /// The base hash. See struct docs.
    pub base_hash: D,
    /// The base number. See struct docs.
    pub base_number: N,
}

/// A view-change message.
#[derive(Clone, Copy, PartialEq, Eq, Debug)]
pub struct ViewChange<Id> {
    /// New view number we try to switch to.
    pub new_view: u64,
    /// Node id.
    pub id: Id,
}

impl<Id> ViewChange<Id> {
    pub fn new(new_view: u64, id: Id) -> (r: Self)
        ensures
            r == (ViewChange { new_view, id }),
    {
        Self { new_view, id }
    }
}

/// Phase of the PBFT round a voter is in.
#[derive(Debug, PartialEq, Eq, Clone, Copy, Structural)]
pub enum CurrentState {
    /// Initial state. Indicate that a voter is in PREPREPARE stage.
    PrePrepare,
    /// Indicate that a voter is in PREPARE stage.
    Prepare,
    /// Indicate that a voter is in COMMIT stage.
    Commit,
    /// FinalizedCommit
    Finalize,
    /// View Change
    ViewChange,
}

} // verus!
