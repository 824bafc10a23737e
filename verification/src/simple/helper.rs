use vstd::prelude::*;

verus! {

/// Whether `valid_number` votes out of `n` voters are a supermajority: the voters
/// that did not vote are fewer than a third of all.
pub fn supermajority(n: usize, valid_number: usize) -> (r: bool)
    requires
        valid_number <= n,
        3 * (n - valid_number) <= usize::MAX,
    ensures
        r == (n > 3 * (n - valid_number)),
{
    n > 3 * (n - valid_number)
}

/// A supermajority is more than two thirds of the voters.
pub proof fn lemma_supermajority_is_two_thirds(n: nat, valid_number: nat)
    requires
        valid_number <= n,
    ensures
        (n > 3 * (n - valid_number)) <==> (3 * valid_number > 2 * n),
{
}

} // verus!
