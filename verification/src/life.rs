//! Births and deaths: who a newborn is, what it is called, what it is
//! lucky enough to inherit, and what a death is put down to.
use vstd::prelude::*;
use crate::labels::{NpcSex, NpcGender};
use crate::text::{push_decimal, decimal};

verus! {

/// The seed of a birth: the tick plus the mother's identifier.
pub fn birth_seed(tick: u64, mother: u64) -> (r: u64)
    requires
        tick + mother <= u64::MAX,
    ensures
        r == tick + mother,
{
    tick + mother
}

/// The sex and gender of a newborn: by the parity of the birth seed, and
/// nonbinary when the seed is a multiple of seven.
pub open spec fn newborn_identity_of(seed: u64) -> (NpcSex, NpcGender) {
    let sex = if seed % 2 == 0 { NpcSex::Female } else { NpcSex::Male };
    let gender = if seed % 7 == 0 {
        NpcGender::Nonbinary
    } else if sex == NpcSex::Female {
        NpcGender::Woman
    } else {
        NpcGender::Man
    };
    (sex, gender)
}

/// The sex and gender of a newborn.
pub fn newborn_identity(seed: u64) -> (r: (NpcSex, NpcGender))
    ensures
        r == newborn_identity_of(seed),
{
    let sex = if seed % 2 == 0 { NpcSex::Female } else { NpcSex::Male };
    let gender = if seed % 7 == 0 {
        NpcGender::Nonbinary
    } else if sex == NpcSex::Female {
        NpcGender::Woman
    } else {
        NpcGender::Man
    };
    (sex, gender)
}

/// The newborn's draw, in sixteenths: the birth seed modulo seventeen.
/// The newborn's traits scale with this draw over sixteen.
pub fn birth_draw(seed: u64) -> (r: u64)
    ensures
        r == seed % 17,
        r <= 16,
{
    seed % 17
}

/// Whether a newborn is lucky enough to inherit more than core knowledge:
/// its draw over sixteen exceeds 0.28, that is the draw is at least five.
pub fn fortunate_birth(seed: u64) -> (r: bool)
    ensures
        r == (seed % 17 >= 5),
{
    seed % 17 >= 5
}

/// A newborn's name: the mother's name, " Kin " and the tick modulo ten
/// thousand.
pub fn child_name(mother: &str, tick: u64) -> (r: String)
    ensures
        r@ == mother@ + " Kin "@ + decimal((tick % 10000) as nat),
{
    let mut name = String::from_str(mother);
    name.append(" Kin ");
    push_decimal(&mut name, tick % 10000);
    name
}

/// The log line of a birth.
pub fn birth_message(mother: &str) -> (r: String)
    ensures
        r@ == "A child was born to "@ + mother@,
{
    let mut line = String::from_str("A child was born to ");
    line.append(mother);
    line
}

/// What an animal's death is put down to: old age first, then a collapse of
/// health, then starvation (no energy and hunger at 0.95 or more).
pub open spec fn animal_death_cause_of(old_age: bool, health_gone: bool, starved: bool) -> Option<Seq<char>> {
    if old_age {
        Some("old age"@)
    } else if health_gone {
        Some("health collapse"@)
    } else if starved {
        Some("starvation"@)
    } else {
        None
    }
}

/// What an animal's death is put down to, or None while it lives.
pub fn animal_death_cause(old_age: bool, health_gone: bool, starved: bool) -> (r: Option<&'static str>)
    ensures
        r is Some <==> animal_death_cause_of(old_age, health_gone, starved) is Some,
        r matches Some(c) ==> animal_death_cause_of(old_age, health_gone, starved) == Some(c@),
{
    if old_age {
        Some("old age")
    } else if health_gone {
        Some("health collapse")
    } else if starved {
        Some("starvation")
    } else {
        None
    }
}

/// What an NPC's death is put down to: old age first; a spent body while
/// exposure is above one is the cold; any other spent body is injury,
/// starvation or exposure.
pub open spec fn npc_death_cause_of(old_age: bool, health_gone: bool, overexposed: bool) -> Option<Seq<char>> {
    if old_age {
        Some("old age"@)
    } else if overexposed && health_gone {
        Some("cold exposure"@)
    } else if health_gone {
        Some("injury, starvation, or exposure"@)
    } else {
        None
    }
}

/// What an NPC's death is put down to, or None while it lives.
pub fn npc_death_cause(old_age: bool, health_gone: bool, overexposed: bool) -> (r: Option<&'static str>)
    ensures
        r is Some <==> npc_death_cause_of(old_age, health_gone, overexposed) is Some,
        r matches Some(c) ==> npc_death_cause_of(old_age, health_gone, overexposed) == Some(c@),
{
    if old_age {
        Some("old age")
    } else if overexposed && health_gone {
        Some("cold exposure")
    } else if health_gone {
        Some("injury, starvation, or exposure")
    } else {
        None
    }
}

/// The log line of a death: who died, then the cause.
pub fn death_message(who: &str, cause: &str) -> (r: String)
    ensures
        r@ == who@ + " died from "@ + cause@,
{
    let mut line = String::from_str(who);
    line.append(" died from ");
    line.append(cause);
    line
}

} // verus!
