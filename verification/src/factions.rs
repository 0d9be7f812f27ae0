//! Faction membership: which faction an unaligned settler joins, and which
//! faction a shelter belongs to.
use vstd::prelude::*;

verus! {

/// The faction an unaligned settler joins: the first faction of the roster
/// for settlers west of the centre line, the second (or the only one) for
/// the others. None while the roster is empty.
pub fn faction_for_side(roster: &Vec<u64>, west: bool) -> (r: Option<u64>)
    ensures
        roster@.len() == 0 ==> r is None,
        roster@.len() > 0 && west ==> r == Some(roster@[0]),
        roster@.len() > 0 && !west ==> r == Some(roster@[if roster@.len() >= 2 { 1int } else { 0int }]),
{
    if roster.len() == 0 {
        return None;
    }
    let last = if roster.len() < 2 { roster.len() } else { 2 };
    if west {
        Some(roster[0])
    } else {
        Some(roster[last - 1])
    }
}

/// The faction recorded last for `shelter` among (shelter, faction) home
/// claims, scanning the first `n` claims.
pub open spec fn last_claim(claims: Seq<(u64, u64)>, shelter: u64, n: int) -> Option<u64>
    decreases n,
{
    if n <= 0 {
        None
    } else if claims[n - 1].0 == shelter {
        Some(claims[n - 1].1)
    } else {
        last_claim(claims, shelter, n - 1)
    }
}

/// The faction an unowned shelter passes to: that of the last settler who
/// calls it home, if any. Claims are (shelter, faction) pairs in the order
/// the settlers are visited.
pub fn shelter_owner(claims: &Vec<(u64, u64)>, shelter: u64) -> (r: Option<u64>)
    ensures
        r == last_claim(claims@, shelter, claims@.len() as int),
{
    let mut owner: Option<u64> = None;
    let mut i: usize = 0;
    while i < claims.len()
        invariant
            i <= claims@.len(),
            owner == last_claim(claims@, shelter, i as int),
        decreases claims@.len() - i,
    {
        if claims[i].0 == shelter {
            owner = Some(claims[i].1);
        }
        i = i + 1;
    }
    owner
}

} // verus!
