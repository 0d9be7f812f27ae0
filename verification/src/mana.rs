//! Reading a mana practice: which ability dominates, how many have been
//! discovered, and how they are listed; and how stored mana is patterned.
//!
//! Ability levels are given as integers in the order of the levels they
//! stand for, with zero standing for a level of zero.
use vstd::prelude::*;
use crate::text::{joined, views, join_strs, str_eq};
use crate::labels::ManaDiscipline;

verus! {

/// The abilities of a mana practice, in the order they are listed; the
/// last seven are spells.
pub open spec fn ability_names() -> Seq<Seq<char>> {
    seq!["Telekinesis"@, "Hearthspark"@, "Warding"@, "Hunter Focus"@, "Verdant Touch"@,
        "Gravity Well"@, "Fireball"@, "Windstep"@, "Healing Pulse"@, "Stone Skin"@,
        "Root Snare"@, "Mana Bolt"@]
}

/// Where the spells begin in the list of abilities.
pub open spec fn first_spell() -> int {
    5
}

/// The name of the ability at position `i`.
pub fn ability_name(i: usize) -> (r: &'static str)
    requires
        i < 12,
    ensures
        r@ == ability_names()[i as int],
{
    match i {
        0 => "Telekinesis",
        1 => "Hearthspark",
        2 => "Warding",
        3 => "Hunter Focus",
        4 => "Verdant Touch",
        5 => "Gravity Well",
        6 => "Fireball",
        7 => "Windstep",
        8 => "Healing Pulse",
        9 => "Stone Skin",
        10 => "Root Snare",
        _ => "Mana Bolt",
    }
}

/// Among the first `n` abilities, the first one with the highest level above
/// zero, as (position, level); (-1, 0) when none is above zero.
pub open spec fn strongest(levels: Seq<i64>, n: int) -> (int, i64)
    decreases n,
{
    if n <= 0 {
        (-1, 0)
    } else {
        let b = strongest(levels, n - 1);
        if levels[n - 1] > b.1 { (n - 1, levels[n - 1]) } else { b }
    }
}

/// The name of the strongest ability, or "None".
pub open spec fn dominant_text(levels: Seq<i64>) -> Seq<char> {
    let b = strongest(levels, 12);
    if b.0 < 0 { "None"@ } else { ability_names()[b.0] }
}

/// The name of the ability with the highest level above zero (the first of
/// several equal ones), or "None" when no ability is above zero.
pub fn dominant_ability_label(levels: &Vec<i64>) -> (r: &'static str)
    requires
        levels@.len() == 12,
    ensures
        r@ == dominant_text(levels@),
{
    let mut best_index: usize = 12;
    let mut best_level: i64 = 0;
    let mut i: usize = 0;
    while i < 12
        invariant
            levels@.len() == 12,
            i <= 12,
            strongest(levels@, i as int) == (if best_index == 12 { -1int } else { best_index as int }, best_level),
            best_index == 12 || best_index < i,
        decreases 12 - i,
    {
        if levels[i] > best_level {
            best_index = i;
            best_level = levels[i];
        }
        i = i + 1;
    }
    if best_index == 12 {
        "None"
    } else {
        ability_name(best_index)
    }
}

/// How many of the flags are set, among positions [from, to).
pub open spec fn count_set(flags: Seq<bool>, from: int, to: int) -> nat
    decreases to - from,
{
    if to <= from {
        0
    } else {
        count_set(flags, from, to - 1) + if flags[to - 1] { 1nat } else { 0nat }
    }
}

/// How many abilities have been discovered (reached 0.35).
pub fn discovered_count(discovered: &Vec<bool>) -> (r: usize)
    requires
        discovered@.len() == 12,
    ensures
        r == count_set(discovered@, 0, 12),
{
    let mut count: usize = 0;
    let mut i: usize = 0;
    while i < 12
        invariant
            discovered@.len() == 12,
            i <= 12,
            count == count_set(discovered@, 0, i as int),
            count <= i,
        decreases 12 - i,
    {
        if discovered[i] {
            count = count + 1;
        }
        i = i + 1;
    }
    count
}

/// The names of the discovered abilities among positions [from, to), in order.
pub open spec fn picked_names(flags: Seq<bool>, from: int, to: int) -> Seq<Seq<char>>
    decreases to - from,
{
    if to <= from {
        Seq::empty()
    } else if flags[to - 1] {
        picked_names(flags, from, to - 1).push(ability_names()[to - 1])
    } else {
        picked_names(flags, from, to - 1)
    }
}

/// The listing of the discovered abilities among positions [from, to):
/// their names separated by ", ", or "none".
pub open spec fn listing(flags: Seq<bool>, from: int, to: int) -> Seq<char> {
    let names = picked_names(flags, from, to);
    if names.len() == 0 { "none"@ } else { joined(names, ", "@) }
}

fn list_discovered(discovered: &Vec<bool>, from: usize) -> (r: String)
    requires
        discovered@.len() == 12,
        from <= 12,
    ensures
        r@ == listing(discovered@, from as int, 12),
{
    let mut names: Vec<&'static str> = Vec::new();
    let mut i: usize = from;
    while i < 12
        invariant
            discovered@.len() == 12,
            from <= i <= 12,
            views(names@) == picked_names(discovered@, from as int, i as int),
        decreases 12 - i,
    {
        if discovered[i] {
            let ghost before = names@;
            names.push(ability_name(i));
            assert(views(names@) =~= views(before).push(ability_names()[i as int]));
        }
        i = i + 1;
    }
    if names.len() == 0 {
        String::from_str("none")
    } else {
        join_strs(&names, ", ")
    }
}

/// The discovered abilities, listed by name, or "none".
pub fn abilities_summary(discovered: &Vec<bool>) -> (r: String)
    requires
        discovered@.len() == 12,
    ensures
        r@ == listing(discovered@, 0, 12),
{
    list_discovered(discovered, 0)
}

/// The discovered spells, listed by name, or "none".
pub fn spell_summary(discovered: &Vec<bool>) -> (r: String)
    requires
        discovered@.len() == 12,
    ensures
        r@ == listing(discovered@, first_spell(), 12),
{
    list_discovered(discovered, 5)
}

/// How stored mana is patterned: concentrated when concentration leads (ties
/// included), else circulating when circulation is at least distribution,
/// else distributed.
pub open spec fn pattern_of(concentration: i64, circulation: i64, distribution: i64) -> Seq<char> {
    if concentration >= circulation && concentration >= distribution {
        "concentrated"@
    } else if circulation >= distribution {
        "circulating"@
    } else {
        "distributed"@
    }
}

/// How stored mana is patterned.
pub fn dominant_pattern(concentration: i64, circulation: i64, distribution: i64) -> (r: &'static str)
    ensures
        r@ == pattern_of(concentration, circulation, distribution),
{
    if concentration >= circulation && concentration >= distribution {
        "concentrated"
    } else if circulation >= distribution {
        "circulating"
    } else {
        "distributed"
    }
}

/// The dominant ability is one whose level is the highest of all, and no
/// ability is dominant when none is above zero.
pub proof fn lemma_dominant_is_highest(levels: Seq<i64>, n: int)
    requires
        0 <= n <= levels.len(),
    ensures
        strongest(levels, n).0 < n,
        strongest(levels, n).0 >= 0 ==> levels[strongest(levels, n).0] == strongest(levels, n).1
            && strongest(levels, n).1 > 0,
        forall|i: int| 0 <= i < n ==> #[trigger] levels[i] <= strongest(levels, n).1,
        strongest(levels, n).0 < 0 ==> strongest(levels, n).1 == 0,
    decreases n,
{
    if n > 0 {
        lemma_dominant_is_highest(levels, n - 1);
    }
}

/// The number of discovered abilities is the number of names listed.
pub proof fn lemma_count_matches_listing(flags: Seq<bool>, from: int, to: int)
    requires
        from <= to,
    ensures
        picked_names(flags, from, to).len() == count_set(flags, from, to),
    decreases to - from,
{
    if from < to {
        lemma_count_matches_listing(flags, from, to - 1);
    }
}

/// What a mana practice does with its reservoir this moment.
#[derive(Clone, Copy, Debug, PartialEq, Eq, Structural)]
pub enum ManaAction {
    Absorb,
    Hold,
    Circulate,
    Concentrate,
    Distribute,
    Release,
}

/// What the choice of a mana action is read from, each flag a comparison
/// the simulation makes.
#[derive(Clone, Copy, Debug)]
pub struct ManaActionSignals {
    /// The reservoir is less than a quarter full.
    pub depleted: bool,
    /// Stability is below 0.5 or safety below 0.35.
    pub unsettled: bool,
    /// Curiosity weighs above 0.45, concentration is at least distribution,
    /// and the reservoir is more than 0.35 full.
    pub focused: bool,
    /// Circulation exceeds distribution and the reservoir is more than 0.3 full.
    pub flowing: bool,
    /// The reservoir is more than 0.7 full and the urge to experiment is above 0.45.
    pub brimming: bool,
}

/// The mana action: the first signal that holds, in the order above, or hold.
pub open spec fn mana_action_of(s: ManaActionSignals) -> ManaAction {
    if s.depleted {
        ManaAction::Absorb
    } else if s.unsettled {
        ManaAction::Distribute
    } else if s.focused {
        ManaAction::Concentrate
    } else if s.flowing {
        ManaAction::Circulate
    } else if s.brimming {
        ManaAction::Release
    } else {
        ManaAction::Hold
    }
}

/// The mana action a practice takes.
pub fn choose_mana_action(s: &ManaActionSignals) -> (r: ManaAction)
    ensures
        r == mana_action_of(*s),
{
    if s.depleted {
        ManaAction::Absorb
    } else if s.unsettled {
        ManaAction::Distribute
    } else if s.focused {
        ManaAction::Concentrate
    } else if s.flowing {
        ManaAction::Circulate
    } else if s.brimming {
        ManaAction::Release
    } else {
        ManaAction::Hold
    }
}

/// The spells an NPC can cast, in the order they are tried.
#[derive(Clone, Copy, Debug, PartialEq, Eq, Structural)]
pub enum SpellCast {
    Fireball,
    GravityWell,
    RootSnare,
    ManaBolt,
    HealingPulse,
    Kindle,
    StoneSkin,
    Windstep,
}

/// Whether each spell is known well enough (0.35) and the reservoir holds
/// enough for it; stone skin also needs safety below 0.50.
#[derive(Clone, Copy, Debug)]
pub struct SpellReadiness {
    pub fireball: bool,
    pub gravity_well: bool,
    pub root_snare: bool,
    pub mana_bolt: bool,
    pub healing_pulse: bool,
    /// Fireball known and mana above 0.06, for kindling a fire.
    pub kindle: bool,
    pub stone_skin: bool,
    pub windstep: bool,
}

/// Whether each spell has something to act on.
#[derive(Clone, Copy, Debug)]
pub struct SpellTargets {
    /// A predator within 110.
    pub predator_near_fireball: bool,
    /// A predator within 90.
    pub predator_near_gravity: bool,
    /// A predator within 88.
    pub predator_near_snare: bool,
    /// A predator within 105.
    pub predator_near_bolt: bool,
    /// An NPC of another faction within 95.
    pub rival_near_bolt: bool,
    /// A hurt or frightened ally within 46.
    pub ally_in_need: bool,
    /// A campfire within 28.
    pub fire_near: bool,
}

/// Intents in which an NPC fights.
pub open spec fn combat_intent(label: Seq<char>) -> bool {
    label == "Hunt Predator"@ || label == "Raid"@
}

/// Intents in which an NPC tends and rests.
pub open spec fn support_intent(label: Seq<char>) -> bool {
    label == "Build Fire"@ || label == "Tend Fire"@ || label == "Rest"@
}

/// Intents in which an NPC moves quickly.
pub open spec fn moving_intent(label: Seq<char>) -> bool {
    label == "Flee"@ || label == "Retreat"@ || label == "Explore"@ || label == "Raid"@
}

/// The spell an NPC casts this moment: the first, in the order of
/// `SpellCast`, that is ready, suits the intent and has something to act
/// on. A mana bolt during a raid is aimed only at rivals, otherwise only at
/// predators.
pub open spec fn spell_of(label: Seq<char>, r: SpellReadiness, t: SpellTargets) -> Option<SpellCast> {
    let combat = combat_intent(label);
    let support = support_intent(label);
    let bolt_target = if label == "Raid"@ { t.rival_near_bolt } else { t.predator_near_bolt };
    if r.fireball && combat && t.predator_near_fireball {
        Some(SpellCast::Fireball)
    } else if r.gravity_well && combat && t.predator_near_gravity {
        Some(SpellCast::GravityWell)
    } else if r.root_snare && combat && t.predator_near_snare {
        Some(SpellCast::RootSnare)
    } else if r.mana_bolt && combat && bolt_target {
        Some(SpellCast::ManaBolt)
    } else if r.healing_pulse && support && t.ally_in_need {
        Some(SpellCast::HealingPulse)
    } else if r.kindle && support && t.fire_near {
        Some(SpellCast::Kindle)
    } else if r.stone_skin {
        Some(SpellCast::StoneSkin)
    } else if r.windstep && moving_intent(label) {
        Some(SpellCast::Windstep)
    } else {
        None
    }
}

/// The spell an NPC casts this moment, if any, given its intent's label.
pub fn choose_spell(label: &str, r: &SpellReadiness, t: &SpellTargets) -> (c: Option<SpellCast>)
    ensures
        c == spell_of(label@, *r, *t),
{
    let raid = str_eq(label, "Raid");
    let combat = str_eq(label, "Hunt Predator") || raid;
    let support = str_eq(label, "Build Fire") || str_eq(label, "Tend Fire") || str_eq(label, "Rest");
    let moving = str_eq(label, "Flee") || str_eq(label, "Retreat") || str_eq(label, "Explore") || raid;
    let bolt_target = if raid { t.rival_near_bolt } else { t.predator_near_bolt };
    if r.fireball && combat && t.predator_near_fireball {
        Some(SpellCast::Fireball)
    } else if r.gravity_well && combat && t.predator_near_gravity {
        Some(SpellCast::GravityWell)
    } else if r.root_snare && combat && t.predator_near_snare {
        Some(SpellCast::RootSnare)
    } else if r.mana_bolt && combat && bolt_target {
        Some(SpellCast::ManaBolt)
    } else if r.healing_pulse && support && t.ally_in_need {
        Some(SpellCast::HealingPulse)
    } else if r.kindle && support && t.fire_near {
        Some(SpellCast::Kindle)
    } else if r.stone_skin {
        Some(SpellCast::StoneSkin)
    } else if r.windstep && moving {
        Some(SpellCast::Windstep)
    } else {
        None
    }
}

/// Offensive spells are cast only while fighting, and a spell that needs
/// something to act on is never cast without it.
pub proof fn lemma_spells_need_cause(label: Seq<char>, r: SpellReadiness, t: SpellTargets)
    ensures
        spell_of(label, r, t) matches Some(c) ==>
            ((c == SpellCast::Fireball || c == SpellCast::GravityWell || c == SpellCast::RootSnare
                || c == SpellCast::ManaBolt) ==> combat_intent(label)),
        spell_of(label, r, t) == Some(SpellCast::HealingPulse) ==> t.ally_in_need && support_intent(label),
        spell_of(label, r, t) == Some(SpellCast::Kindle) ==> t.fire_near,
        spell_of(label, r, t) == Some(SpellCast::Windstep) ==> moving_intent(label),
{
}

/// How the spell an NPC casts follows from what it is doing. Fleeing,
/// retreating and exploring NPCs step away on the wind when they can and
/// are not hardening their skin; raiders do so when no attack is at hand;
/// hunters throw a fireball at a predator within reach when they can;
/// resting NPCs heal an ally in need when they can and never windstep; an
/// NPC busy with anything else casts nothing but stone skin.
pub proof fn lemma_spell_follows_intent(r: SpellReadiness, t: SpellTargets, other: Seq<char>)
    ensures
        r.windstep && !r.stone_skin ==> spell_of("Flee"@, r, t) == Some(SpellCast::Windstep),
        r.windstep && !r.stone_skin ==> spell_of("Retreat"@, r, t) == Some(SpellCast::Windstep),
        r.windstep && !r.stone_skin ==> spell_of("Explore"@, r, t) == Some(SpellCast::Windstep),
        r.windstep && !r.stone_skin && !(r.fireball && t.predator_near_fireball)
            && !(r.gravity_well && t.predator_near_gravity) && !(r.root_snare && t.predator_near_snare)
            && !(r.mana_bolt && t.rival_near_bolt) ==> spell_of("Raid"@, r, t) == Some(SpellCast::Windstep),
        r.fireball && t.predator_near_fireball ==> spell_of("Hunt Predator"@, r, t) == Some(SpellCast::Fireball),
        r.fireball && t.predator_near_fireball ==> spell_of("Raid"@, r, t) == Some(SpellCast::Fireball),
        !(r.fireball && t.predator_near_fireball) && !(r.gravity_well && t.predator_near_gravity)
            && !(r.root_snare && t.predator_near_snare) && r.mana_bolt && t.predator_near_bolt
            ==> spell_of("Hunt Predator"@, r, t) == Some(SpellCast::ManaBolt),
        r.healing_pulse && t.ally_in_need ==> spell_of("Rest"@, r, t) == Some(SpellCast::HealingPulse),
        spell_of("Rest"@, r, t) != Some(SpellCast::Windstep),
        other != "Flee"@ && other != "Retreat"@ && other != "Explore"@ && other != "Raid"@
            && other != "Hunt Predator"@ && other != "Build Fire"@ && other != "Tend Fire"@
            && other != "Rest"@ ==> spell_of(other, r, t) == (if r.stone_skin { Some(SpellCast::StoneSkin) } else { None }),
{
    lemma_intent_labels_differ();
}

/// The intent labels that spells look at are pairwise different.
proof fn lemma_intent_labels_differ()
    ensures
        "Flee"@ != "Retreat"@,
        "Flee"@ != "Explore"@,
        "Flee"@ != "Raid"@,
        "Flee"@ != "Hunt Predator"@,
        "Flee"@ != "Build Fire"@,
        "Flee"@ != "Tend Fire"@,
        "Flee"@ != "Rest"@,
        "Retreat"@ != "Explore"@,
        "Retreat"@ != "Raid"@,
        "Retreat"@ != "Hunt Predator"@,
        "Retreat"@ != "Build Fire"@,
        "Retreat"@ != "Tend Fire"@,
        "Retreat"@ != "Rest"@,
        "Explore"@ != "Raid"@,
        "Explore"@ != "Hunt Predator"@,
        "Explore"@ != "Build Fire"@,
        "Explore"@ != "Tend Fire"@,
        "Explore"@ != "Rest"@,
        "Raid"@ != "Hunt Predator"@,
        "Raid"@ != "Build Fire"@,
        "Raid"@ != "Tend Fire"@,
        "Raid"@ != "Rest"@,
        "Hunt Predator"@ != "Build Fire"@,
        "Hunt Predator"@ != "Tend Fire"@,
        "Hunt Predator"@ != "Rest"@,
        "Build Fire"@ != "Tend Fire"@,
        "Build Fire"@ != "Rest"@,
        "Tend Fire"@ != "Rest"@,
{
    reveal_strlit("Flee");
    reveal_strlit("Retreat");
    reveal_strlit("Explore");
    reveal_strlit("Raid");
    reveal_strlit("Hunt Predator");
    reveal_strlit("Build Fire");
    reveal_strlit("Tend Fire");
    reveal_strlit("Rest");
    assert("Flee"@.len() != "Retreat"@.len());
    assert("Flee"@.len() != "Explore"@.len());
    assert("Flee"@[0] != "Raid"@[0]);
    assert("Flee"@.len() != "Hunt Predator"@.len());
    assert("Flee"@.len() != "Build Fire"@.len());
    assert("Flee"@.len() != "Tend Fire"@.len());
    assert("Flee"@[0] != "Rest"@[0]);
    assert("Retreat"@[0] != "Explore"@[0]);
    assert("Retreat"@.len() != "Raid"@.len());
    assert("Retreat"@.len() != "Hunt Predator"@.len());
    assert("Retreat"@.len() != "Build Fire"@.len());
    assert("Retreat"@.len() != "Tend Fire"@.len());
    assert("Retreat"@.len() != "Rest"@.len());
    assert("Explore"@.len() != "Raid"@.len());
    assert("Explore"@.len() != "Hunt Predator"@.len());
    assert("Explore"@.len() != "Build Fire"@.len());
    assert("Explore"@.len() != "Tend Fire"@.len());
    assert("Explore"@.len() != "Rest"@.len());
    assert("Raid"@.len() != "Hunt Predator"@.len());
    assert("Raid"@.len() != "Build Fire"@.len());
    assert("Raid"@.len() != "Tend Fire"@.len());
    assert("Raid"@[1] != "Rest"@[1]);
    assert("Hunt Predator"@.len() != "Build Fire"@.len());
    assert("Hunt Predator"@.len() != "Tend Fire"@.len());
    assert("Hunt Predator"@.len() != "Rest"@.len());
    assert("Build Fire"@.len() != "Tend Fire"@.len());
    assert("Build Fire"@.len() != "Rest"@.len());
    assert("Tend Fire"@.len() != "Rest"@.len());
}

/// How a practice's stored mana and the ground under it compare, for the
/// direction its research takes.
#[derive(Clone, Copy, Debug)]
pub struct ResearchSignals {
    /// Circulation is at least concentration and at least distribution.
    pub circulation_leads: bool,
    /// Distribution is at least concentration.
    pub distribution_over_concentration: bool,
    /// Distribution is at least circulation.
    pub distribution_over_circulation: bool,
    /// Circulation is above 0.42.
    pub strong_circulation: bool,
    /// The ambient mana of the tile is above 0.56, 0.60 and 0.62.
    pub ambient_above_0_56: bool,
    pub ambient_above_0_60: bool,
    pub ambient_above_0_62: bool,
    /// The ambient mana of the tile is below 0.40 and 0.48.
    pub ambient_below_0_40: bool,
    pub ambient_below_0_48: bool,
}

/// The discipline a practice deepens: kinesis when circulation leads;
/// verdant when distribution outweighs concentration on rich ground;
/// warding when distributing with distribution over circulation; hearth
/// when absorbing on thin ground; the hunt otherwise.
pub open spec fn discipline_of(s: ResearchSignals, action: ManaAction) -> ManaDiscipline {
    if s.circulation_leads {
        ManaDiscipline::Kinesis
    } else if s.distribution_over_concentration && s.ambient_above_0_62 {
        ManaDiscipline::Verdant
    } else if s.distribution_over_circulation && action == ManaAction::Distribute {
        ManaDiscipline::Warding
    } else if s.ambient_below_0_40 && action == ManaAction::Absorb {
        ManaDiscipline::Hearth
    } else {
        ManaDiscipline::Hunt
    }
}

/// The discipline a practice deepens, given its signals and current action.
pub fn choose_discipline(s: &ResearchSignals, action: ManaAction) -> (r: ManaDiscipline)
    ensures
        r == discipline_of(*s, action),
{
    if s.circulation_leads {
        ManaDiscipline::Kinesis
    } else if s.distribution_over_concentration && s.ambient_above_0_62 {
        ManaDiscipline::Verdant
    } else if s.distribution_over_circulation && action == ManaAction::Distribute {
        ManaDiscipline::Warding
    } else if s.ambient_below_0_40 && action == ManaAction::Absorb {
        ManaDiscipline::Hearth
    } else {
        ManaDiscipline::Hunt
    }
}

/// The position among the abilities of the ability a discipline grows.
pub open spec fn discipline_ability(d: ManaDiscipline) -> int {
    match d {
        ManaDiscipline::Kinesis => 0,
        ManaDiscipline::Hearth => 1,
        ManaDiscipline::Warding => 2,
        ManaDiscipline::Hunt => 3,
        ManaDiscipline::Verdant => 4,
    }
}

/// The position among the abilities of the ability a discipline grows.
pub fn discipline_slot(d: ManaDiscipline) -> (r: usize)
    ensures
        r == discipline_ability(d),
        r < 5,
{
    match d {
        ManaDiscipline::Kinesis => 0,
        ManaDiscipline::Hearth => 1,
        ManaDiscipline::Warding => 2,
        ManaDiscipline::Hunt => 3,
        ManaDiscipline::Verdant => 4,
    }
}

/// The spell (by its position among the abilities) that a practice works
/// on, given which abilities it knows: windstep, then gravity well, for a
/// telekinetic with strong circulation on rich ground; fireball for a
/// hearth practice on thin ground or while releasing; healing pulse, then
/// stone skin, for a warder who distributes; root snare for the verdant on
/// rich ground; mana bolt for a hunter; none otherwise.
pub open spec fn research_of(known: Seq<bool>, s: ResearchSignals, action: ManaAction) -> Option<int> {
    if known[0] && s.strong_circulation && s.ambient_above_0_56 {
        if !known[7] { Some(7) } else { Some(5) }
    } else if known[1] && (s.ambient_below_0_48 || action == ManaAction::Release) {
        Some(6)
    } else if known[2] && action == ManaAction::Distribute {
        if !known[8] { Some(8) } else { Some(9) }
    } else if known[4] && s.ambient_above_0_60 {
        Some(10)
    } else if known[3] {
        Some(11)
    } else {
        None
    }
}

/// The spell a practice works on, by its position among the abilities.
pub fn spell_to_research(known: &Vec<bool>, s: &ResearchSignals, action: ManaAction) -> (r: Option<usize>)
    requires
        known@.len() == 12,
    ensures
        r == (match research_of(known@, *s, action) {
            Some(i) => Some(i as usize),
            None => None,
        }),
        r matches Some(i) ==> first_spell() <= i < 12,
{
    if known[0] && s.strong_circulation && s.ambient_above_0_56 {
        if !known[7] { Some(7) } else { Some(5) }
    } else if known[1] && (s.ambient_below_0_48 || action == ManaAction::Release) {
        Some(6)
    } else if known[2] && action == ManaAction::Distribute {
        if !known[8] { Some(8) } else { Some(9) }
    } else if known[4] && s.ambient_above_0_60 {
        Some(10)
    } else if known[3] {
        Some(11)
    } else {
        None
    }
}

/// Spells grow out of disciplines: a practice works on a spell only when it
/// knows one of the five disciplines' abilities, and never on one of those
/// abilities themselves.
pub proof fn lemma_research_needs_discipline(known: Seq<bool>, s: ResearchSignals, action: ManaAction)
    requires
        known.len() == 12,
    ensures
        research_of(known, s, action) matches Some(i) ==>
            (known[0] || known[1] || known[2] || known[3] || known[4]) && first_spell() <= i < 12,
{
}

} // verus!
