//! Random choice of a channel's next owner.

use vstd::prelude::*;
use rand::seq::IndexedRandom;
use rand::seq::IteratorRandom;

verus! {

/// Picks one of `members` at random, by `IndexedRandom::choose` on the slice
/// with the thread-local generator `rand::rng()`: nothing for an empty slice,
/// otherwise a reference to one of its elements (which one is left to chance).
#[verifier::external_body]
fn choose_from_slice(members: &[u64]) -> (r: Option<&u64>)
    ensures
        r is None <==> members@.len() == 0,
        r matches Some(x) ==> members@.contains(*x),
{
    members.choose(&mut rand::rng())
}

/// Picks one of the items that remain in a sequence, by
/// `IteratorRandom::choose` on its iterator with `rand::rng()`: nothing when
/// none remain, otherwise one of them (which one is left to chance).
#[verifier::external_body]
pub(crate) fn choose_from_remaining(items: &Vec<u64>) -> (r: Option<u64>)
    ensures
        r is None <==> items@.len() == 0,
        r matches Some(x) ==> items@.contains(x),
{
    items.iter().choose(&mut rand::rng()).copied()
}

/// Selects the next owner of a channel among the members still in it.
pub fn select_random_owner_id(members: &Vec<u64>) -> (r: &u64)
    requires
        members.len() > 0,
    ensures
        members@.contains(*r),
{
    match choose_from_slice(members.as_slice()) {
        Some(x) => x,
        None => {
            proof {
                assert(false);
            }
            &members[0]
        },
    }
}

} // verus!
