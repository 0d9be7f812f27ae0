//! An NPC's inner state in words: its mood and what it believes.
use vstd::prelude::*;

verus! {

/// What an NPC's mood is read from, each flag a comparison the simulation
/// makes of its needs and relations.
#[derive(Clone, Copy, Debug)]
pub struct MoodSignals {
    /// A child is on the way and safety is above 0.55.
    pub protective: bool,
    /// Personal pressure is above 0.76.
    pub desperate: bool,
    /// Safety is below 0.28 or fear above 0.70.
    pub afraid: bool,
    /// Curiosity is above 0.75 while fatigue is below 0.55.
    pub curious: bool,
    /// Social need is below 0.28.
    pub lonely: bool,
    /// Fatigue is above 0.72.
    pub weary: bool,
}

/// The mood word: the first signal that holds, in the order above, or
/// "steady".
pub open spec fn mood_of(m: MoodSignals) -> Seq<char> {
    if m.protective {
        "protective"@
    } else if m.desperate {
        "desperate"@
    } else if m.afraid {
        "afraid"@
    } else if m.curious {
        "curious"@
    } else if m.lonely {
        "lonely"@
    } else if m.weary {
        "weary"@
    } else {
        "steady"@
    }
}

/// The mood word.
pub fn mood_label(m: &MoodSignals) -> (r: &'static str)
    ensures
        r@ == mood_of(*m),
{
    if m.protective {
        "protective"
    } else if m.desperate {
        "desperate"
    } else if m.afraid {
        "afraid"
    } else if m.curious {
        "curious"
    } else if m.lonely {
        "lonely"
    } else if m.weary {
        "weary"
    } else {
        "steady"
    }
}

/// What an NPC's beliefs are drawn from.
#[derive(Clone, Copy, Debug)]
pub struct BeliefFacts {
    /// Carried food is above 0.5.
    pub has_food: bool,
    pub remembers_forage: bool,
    /// Safety is above 0.65.
    pub feels_safe: bool,
    pub remembers_safe_place: bool,
    pub expecting_child: bool,
    /// A reproduction cooldown is running.
    pub family_waiting: bool,
    /// Affinity is above 0.65.
    pub close_to_others: bool,
}

/// What the NPC believes about food.
pub open spec fn food_belief(f: BeliefFacts) -> Seq<char> {
    if f.has_food { "I have food"@ } else if f.remembers_forage { "I remember forage"@ } else { "food is uncertain"@ }
}

/// What the NPC believes about safety.
pub open spec fn safety_belief(f: BeliefFacts) -> Seq<char> {
    if f.feels_safe {
        "this place feels safe"@
    } else if f.remembers_safe_place {
        "I remember a safer place"@
    } else {
        "safety is unresolved"@
    }
}

/// What the NPC believes about kin.
pub open spec fn kin_belief(f: BeliefFacts) -> Seq<char> {
    if f.expecting_child {
        "a child is coming"@
    } else if f.family_waiting {
        "family must wait"@
    } else if f.close_to_others {
        "others are close"@
    } else {
        "kinship is distant"@
    }
}

/// The belief line: food, safety and kin beliefs, then how the world feels.
pub open spec fn belief_text(f: BeliefFacts, world_bias: Seq<char>) -> Seq<char> {
    food_belief(f) + "; "@ + safety_belief(f) + "; "@ + kin_belief(f) + "; world feels "@ + world_bias
}

/// The belief line of an NPC, ending with the world director's stance.
pub fn belief_summary(f: &BeliefFacts, world_bias: &str) -> (r: String)
    ensures
        r@ == belief_text(*f, world_bias@),
{
    let food = if f.has_food { "I have food" } else if f.remembers_forage { "I remember forage" } else { "food is uncertain" };
    let safety = if f.feels_safe {
        "this place feels safe"
    } else if f.remembers_safe_place {
        "I remember a safer place"
    } else {
        "safety is unresolved"
    };
    let kin = if f.expecting_child {
        "a child is coming"
    } else if f.family_waiting {
        "family must wait"
    } else if f.close_to_others {
        "others are close"
    } else {
        "kinship is distant"
    };
    let mut out = String::from_str(food);
    out.append("; ");
    out.append(safety);
    out.append("; ");
    out.append(kin);
    out.append("; world feels ");
    out.append(world_bias);
    out
}

} // verus!
