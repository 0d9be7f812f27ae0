//! Where the world seeds trees and settlers, who the first settlers are,
//! and how many animals and predators are brought in later.
use vstd::prelude::*;
use crate::labels::{NpcSex, NpcGender};
use crate::text::{push_decimal, decimal};

verus! {

/// A tile seeds a tree when its column plus row is a multiple of three.
pub fn hosts_tree(x: i32, y: i32) -> (r: bool)
    requires
        0 <= x,
        0 <= y,
        x + y <= i32::MAX,
    ensures
        r == ((x + y) % 3 == 0),
{
    (x + y) % 3 == 0
}

/// A tile seeds a settler when it lies on the middle row and its column is
/// a multiple of four.
pub fn hosts_settler(x: i32, y: i32, map_height: i32) -> (r: bool)
    requires
        0 <= x,
        0 <= map_height,
    ensures
        r == (y == map_height / 2 && x % 4 == 0),
{
    y == map_height / 2 && x % 4 == 0
}

/// The sex and gender of the `index`-th founding settler: women and men in
/// turn, and every fifth settler nonbinary.
pub open spec fn founder_identity(index: nat) -> (NpcSex, NpcGender) {
    let sex = if index % 2 == 0 { NpcSex::Female } else { NpcSex::Male };
    let gender = if index % 5 == 0 {
        NpcGender::Nonbinary
    } else if sex == NpcSex::Female {
        NpcGender::Woman
    } else {
        NpcGender::Man
    };
    (sex, gender)
}

/// The sex and gender of the `index`-th founding settler.
pub fn settler_identity(index: usize) -> (r: (NpcSex, NpcGender))
    ensures
        r == founder_identity(index as nat),
{
    let sex = if index % 2 == 0 { NpcSex::Female } else { NpcSex::Male };
    let gender = if index % 5 == 0 {
        NpcGender::Nonbinary
    } else if sex == NpcSex::Female {
        NpcGender::Woman
    } else {
        NpcGender::Man
    };
    (sex, gender)
}

/// The name of the `index`-th founding settler: "Settler" and its number,
/// counted from one.
pub fn settler_name(index: usize) -> (r: String)
    requires
        index < usize::MAX,
    ensures
        r@ == "Settler "@ + decimal((index + 1) as nat),
{
    let mut name = String::from_str("Settler ");
    push_decimal(&mut name, (index + 1) as u64);
    name
}

/// When animals are replenished, and up to how many.
#[derive(Clone, Copy, Debug)]
pub struct AnimalSpawnPolicy {
    pub replenish_below: usize,
    pub replenish_to: usize,
}

impl AnimalSpawnPolicy {
    /// Replenish when four or fewer animals are left, up to six.
    pub fn standard() -> (r: Self)
        ensures
            r.replenish_below == 4,
            r.replenish_to == 6,
    {
        AnimalSpawnPolicy { replenish_below: 4, replenish_to: 6 }
    }
}

/// The candidate tiles (by position in the ranked list of `candidates`
/// tiles) where new animals are placed: none while more than
/// `replenish_below` animals live; otherwise one per missing animal up to
/// `replenish_to`, spread by a stride over the ranked list and rotated with
/// the tick.
pub open spec fn replenish_slots(policy: AnimalSpawnPolicy, animals: nat, candidates: nat, tick: nat) -> Seq<nat> {
    let missing: nat = if policy.replenish_to > animals { (policy.replenish_to - animals) as nat } else { 0 };
    if animals > policy.replenish_below || missing == 0 || candidates == 0 {
        Seq::empty()
    } else {
        let stride: nat = if candidates / missing >= 1 { candidates / missing } else { 1 };
        Seq::new(missing, |i: int| ((tick / 7 + (i as nat) * stride) % candidates) as nat)
    }
}

/// Where new animals are placed among the ranked candidate tiles.
pub fn animal_replenish_slots(policy: &AnimalSpawnPolicy, animals: usize, candidates: usize, tick: usize) -> (r: Vec<usize>)
    requires
        policy.replenish_to as nat * (candidates as nat + 1) + tick as nat <= usize::MAX,
    ensures
        r@.map_values(|v: usize| v as nat) == replenish_slots(*policy, animals as nat, candidates as nat, tick as nat),
        forall|i: int| 0 <= i < r@.len() ==> #[trigger] r@[i] < candidates,
{
    let mut out: Vec<usize> = Vec::new();
    if animals > policy.replenish_below {
        assert(out@.map_values(|v: usize| v as nat) =~= Seq::<nat>::empty());
        return out;
    }
    let missing = if policy.replenish_to > animals { policy.replenish_to - animals } else { 0 };
    if missing == 0 || candidates == 0 {
        assert(out@.map_values(|v: usize| v as nat) =~= Seq::<nat>::empty());
        return out;
    }
    let per = candidates / missing;
    let stride = if per >= 1 { per } else { 1 };
    assert(stride <= candidates);
    let base = tick / 7;
    let ghost target = replenish_slots(*policy, animals as nat, candidates as nat, tick as nat);
    let mut i: usize = 0;
    while i < missing
        invariant
            missing == policy.replenish_to - animals,
            0 < missing <= policy.replenish_to,
            policy.replenish_to as nat * (candidates as nat + 1) + tick as nat <= usize::MAX,
            1 <= stride <= candidates,
            stride as nat == (if candidates as nat / missing as nat >= 1 { candidates as nat / missing as nat } else { 1 }),
            base == tick / 7,
            target == replenish_slots(*policy, animals as nat, candidates as nat, tick as nat),
            target.len() == missing,
            i <= missing,
            out@.len() == i,
            forall|k: int| 0 <= k < i ==> out@[k] as nat == target[k] && #[trigger] out@[k] < candidates,
        decreases missing - i,
    {
        assert(i * stride <= missing * candidates) by (nonlinear_arith)
            requires i < missing, stride <= candidates;
        assert(missing * candidates <= policy.replenish_to * candidates) by (nonlinear_arith)
            requires missing <= policy.replenish_to;
        assert(policy.replenish_to * candidates <= policy.replenish_to * (candidates + 1)) by (nonlinear_arith);
        let ghost bound: int = policy.replenish_to as int * (candidates as int + 1);
        assert((i * stride) as int <= bound);
        assert(base <= tick);
        assert(base as int + (i * stride) as int <= usize::MAX);
        let slot = (base + i * stride) % candidates;
        out.push(slot);
        i = i + 1;
    }
    assert(out@.map_values(|v: usize| v as nat) =~= target);
    out
}

/// How many predators the world keeps around: a floor of one while the
/// settlers struggle (three or fewer of them, or low flourishing), three
/// otherwise, plus one per three shelters, per four civic structures and
/// per ten settlers, never more than ten.
pub open spec fn predator_quota_of(npcs: nat, shelters: nat, civic: nat, struggling: bool) -> nat {
    let floor: nat = if npcs <= 3 || struggling { 1 } else { 3 };
    let wanted = floor + shelters / 3 + civic / 4 + npcs / 10;
    if wanted > 10 { 10 } else { wanted }
}

/// How many predators the world keeps around.
pub fn predator_quota(npcs: usize, shelters: usize, civic_structures: usize, struggling: bool) -> (r: usize)
    ensures
        r == predator_quota_of(npcs as nat, shelters as nat, civic_structures as nat, struggling),
        r <= 10,
{
    let floor: usize = if npcs <= 3 || struggling { 1 } else { 3 };
    let a = shelters / 3;
    let b = civic_structures / 4;
    let c = npcs / 10;
    if a >= 10 || b >= 10 || c >= 10 || a + b + c >= 10 {
        10
    } else {
        let wanted = floor + a + b + c;
        if wanted > 10 { 10 } else { wanted }
    }
}

/// How many predators enter at once when fewer than the quota roam: the
/// shortfall, but one or two; none when the quota is met.
pub fn predator_spawn_count(desired: usize, current: usize) -> (r: usize)
    ensures
        current >= desired ==> r == 0,
        current < desired ==> r == (if desired - current > 2 { 2 } else { desired - current }),
        r <= 2,
{
    if current >= desired {
        0
    } else {
        let short = desired - current;
        if short > 2 { 2 } else { short }
    }
}

/// How many predators the world starts with: one per eighty tiles, between
/// three and seven.
pub fn predator_seed_count(width: i32, height: i32) -> (r: usize)
    requires
        0 <= width,
        0 <= height,
        width * height <= i32::MAX,
    ensures
        r == ({
            let n = (width * height) / 80;
            if n < 3 { 3 } else if n > 7 { 7 } else { n }
        }),
        3 <= r <= 7,
{
    assert(0 <= width * height) by (nonlinear_arith)
        requires 0 <= width, 0 <= height;
    let tiles = (width * height) as usize;
    let n = tiles / 80;
    if n < 3 { 3 } else if n > 7 { 7 } else { n }
}

/// Which of the `candidates` ranked den tiles the `index`-th starting
/// predator takes: the candidates are sampled by a stride, the last one
/// standing in when the stride runs past the end.
pub fn predator_seed_slot(index: usize, desired: usize, candidates: usize) -> (r: usize)
    requires
        candidates > 0,
        desired > 0,
        index as nat * candidates as nat <= usize::MAX,
    ensures
        r == ({
            let stride = if candidates / desired >= 1 { candidates / desired } else { 1 };
            let at = index * stride;
            if at < candidates - 1 { at } else { candidates - 1 }
        }),
        r < candidates,
{
    let per = candidates / desired;
    let stride = if per >= 1 { per } else { 1 };
    assert(stride <= candidates);
    assert(index * stride <= index * candidates) by (nonlinear_arith)
        requires stride <= candidates;
    let at = index * stride;
    if at < candidates - 1 { at } else { candidates - 1 }
}

} // verus!
