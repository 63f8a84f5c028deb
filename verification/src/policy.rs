//! The authorization policy: which provider answers count, and membership of
//! the target guild.

use vstd::prelude::*;

verus! {

/// Whether `target` is among the guilds of the signed-in user.
pub fn is_member(guilds: &Vec<u64>, target: u64) -> (r: bool)
    ensures
        r == guilds@.contains(target),
{
    let mut i: usize = 0;
    while i < guilds.len()
        invariant
            i <= guilds.len(),
            forall|j: int| 0 <= j < i ==> guilds@[j] != target,
        decreases guilds.len() - i,
    {
        if guilds[i] == target {
            return true;
        }
        i += 1;
    }
    false
}

/// Whether the provider's answer to a fetch counts as a success: only a
/// status within `200..=299` does, whatever the body holds.
pub fn is_success(status: u16) -> (r: bool)
    ensures
        r == (200 <= status <= 299),
{
    200 <= status && status <= 299
}

/// Membership does not depend on the order of the list nor on repetitions:
/// lists with the same set of guilds give the same answer.
pub proof fn membership_ignores_order(a: Seq<u64>, b: Seq<u64>, target: u64)
    requires
        a.to_set() == b.to_set(),
    ensures
        a.contains(target) == b.contains(target),
{
    assert(a.contains(target) == a.to_set().contains(target));
    assert(b.contains(target) == b.to_set().contains(target));
}

} // verus!
