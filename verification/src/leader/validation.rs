use vstd::prelude::*;

verus! {

/// Struct returned from `validate_commit` function with information
/// about the validation result.
pub struct CommitValidationResult<H, N> {
    target: Option<(H, N)>,
    num_commits: usize,
    num_duplicated_commits: usize,
    num_invalid_voters: usize,
}

impl<H, N> CommitValidationResult<H, N> {
    /// The block the commit finalizes, if it is valid.
    pub closed spec fn spec_target(self) -> Option<(H, N)> {
        self.target
    }

    /// The number of commits in the commit.
    pub closed spec fn spec_num_commits(self) -> usize {
        self.num_commits
    }

    /// The number of duplicate commits in the commit.
    pub closed spec fn spec_num_duplicated_commits(self) -> usize {
        self.num_duplicated_commits
    }

    /// The number of invalid voters in the commit.
    pub closed spec fn spec_num_invalid_voters(self) -> usize {
        self.num_invalid_voters
    }

    pub fn target(&self) -> (r: Option<&(H, N)>)
        ensures
            match self.spec_target() {
                Some(t) => r matches Some(p) && *p == t,
                None => r is None,
            },
    {
        self.target.as_ref()
    }

    /// Returns the number of commits in the commit.
    pub fn num_commits(&self) -> (r: usize)
        ensures
            r == self.spec_num_commits(),
    {
        self.num_commits
    }

    /// Returns the number of duplicate commits in the commit.
    pub fn num_duplicated_commits(&self) -> (r: usize)
        ensures
            r == self.spec_num_duplicated_commits(),
    {
        self.num_duplicated_commits
    }

    /// Returns the number of invalid voters in the commit.
    pub fn num_invalid_voters(&self) -> (r: usize)
        ensures
            r == self.spec_num_invalid_voters(),
    {
        self.num_invalid_voters
    }
}

impl<H, N> Default for CommitValidationResult<H, N> {
    fn default() -> (r: Self)
        ensures
            r.spec_target() is None,
            r.spec_num_commits() == 0,
            r.spec_num_duplicated_commits() == 0,
            r.spec_num_invalid_voters() == 0,
    {
        CommitValidationResult {
            target: None,
            num_commits: 0,
            num_duplicated_commits: 0,
            num_invalid_voters: 0,
        }
    }
}

} // verus!
