//! What an NPC sets out to do next: the priority ladder over its weighed
//! motives, and the goal and plan that each intent stands for.
//!
//! Motives are compared by magnitude only. Each score is an integer that
//! preserves the order of the quantity it stands for, so `a >= b` on scores
//! holds exactly when it holds on the quantities.
use vstd::prelude::*;
use crate::text::str_eq;

verus! {

/// The intents an NPC can hold.
#[derive(Clone, Copy, Debug, PartialEq, Eq, Structural)]
pub enum IntentKind {
    Idle,
    Rest,
    RepairShelter,
    Stockpile,
    GatherWood,
    TendFire,
    BuildFire,
    MakeTools,
    HuntPredator,
    Forage,
    BuildShelter,
    Retreat,
    Socialize,
    Explore,
    Flee,
}

/// The weight of each motive, by an order-preserving integer.
#[derive(Clone, Copy, Debug)]
pub struct IntentScores {
    pub hunger: i64,
    pub social: i64,
    pub safety: i64,
    pub curiosity: i64,
    pub build: i64,
    pub build_fire: i64,
    pub tend_fire: i64,
    pub rest: i64,
    pub repair: i64,
    pub gather_wood: i64,
    pub toolmaking: i64,
    pub stockpile: i64,
    pub violence: i64,
}

/// Conditions besides the scores that some intents need.
#[derive(Clone, Copy, Debug)]
pub struct IntentGates {
    /// Tired enough (fatigue above 0.55) or exposed enough (above 0.35) to rest.
    pub rest_needed: bool,
    /// The NPC has a home shelter.
    pub has_home: bool,
    /// The home shelter's integrity is below 0.85.
    pub home_worn: bool,
}

/// The text by which an intent is shown and recognised.
pub open spec fn intent_label(kind: IntentKind) -> Seq<char> {
    match kind {
        IntentKind::Idle => "Idle"@,
        IntentKind::Rest => "Rest"@,
        IntentKind::RepairShelter => "Repair Shelter"@,
        IntentKind::Stockpile => "Stockpile"@,
        IntentKind::GatherWood => "Gather Wood"@,
        IntentKind::TendFire => "Tend Fire"@,
        IntentKind::BuildFire => "Build Fire"@,
        IntentKind::MakeTools => "Make Tools"@,
        IntentKind::HuntPredator => "Hunt Predator"@,
        IntentKind::Forage => "Forage"@,
        IntentKind::BuildShelter => "Build Shelter"@,
        IntentKind::Retreat => "Retreat"@,
        IntentKind::Socialize => "Socialize"@,
        IntentKind::Explore => "Explore"@,
        IntentKind::Flee => "Flee"@,
    }
}

impl IntentKind {
    /// The text by which the intent is shown and recognised.
    pub fn label(self) -> (r: &'static str)
        ensures
            r@ == intent_label(self),
    {
        match self {
            IntentKind::Idle => "Idle",
            IntentKind::Rest => "Rest",
            IntentKind::RepairShelter => "Repair Shelter",
            IntentKind::Stockpile => "Stockpile",
            IntentKind::GatherWood => "Gather Wood",
            IntentKind::TendFire => "Tend Fire",
            IntentKind::BuildFire => "Build Fire",
            IntentKind::MakeTools => "Make Tools",
            IntentKind::HuntPredator => "Hunt Predator",
            IntentKind::Forage => "Forage",
            IntentKind::BuildShelter => "Build Shelter",
            IntentKind::Retreat => "Retreat",
            IntentKind::Socialize => "Socialize",
            IntentKind::Explore => "Explore",
            IntentKind::Flee => "Flee",
        }
    }
}

/// The score of the motive behind an intent that the ladder can choose.
pub open spec fn score_of(kind: IntentKind, s: IntentScores) -> i64 {
    match kind {
        IntentKind::Rest => s.rest,
        IntentKind::RepairShelter => s.repair,
        IntentKind::Stockpile => s.stockpile,
        IntentKind::GatherWood => s.gather_wood,
        IntentKind::TendFire => s.tend_fire,
        IntentKind::BuildFire => s.build_fire,
        IntentKind::MakeTools => s.toolmaking,
        IntentKind::HuntPredator => s.violence,
        IntentKind::Forage => s.hunger,
        IntentKind::BuildShelter => s.build,
        IntentKind::Retreat => s.safety,
        IntentKind::Socialize => s.social,
        _ => s.curiosity,
    }
}

/// The scores that an intent's own score must match or beat.
pub open spec fn rivals_of(kind: IntentKind, s: IntentScores) -> Seq<i64> {
    match kind {
        IntentKind::Rest => seq![s.hunger, s.safety, s.social, s.curiosity, s.build, s.build_fire,
            s.tend_fire, s.repair, s.gather_wood, s.toolmaking, s.violence, s.stockpile],
        IntentKind::RepairShelter => seq![s.hunger, s.safety, s.social, s.curiosity, s.build,
            s.build_fire, s.tend_fire, s.rest, s.gather_wood, s.toolmaking, s.violence, s.stockpile],
        IntentKind::Stockpile => seq![s.hunger, s.safety, s.social, s.curiosity, s.build,
            s.build_fire, s.tend_fire, s.rest, s.repair, s.gather_wood, s.toolmaking, s.violence],
        IntentKind::GatherWood => seq![s.hunger, s.safety, s.social, s.curiosity, s.build,
            s.build_fire, s.tend_fire, s.rest, s.repair, s.toolmaking, s.violence, s.stockpile],
        IntentKind::TendFire => seq![s.hunger, s.safety, s.social, s.curiosity, s.build,
            s.build_fire, s.rest, s.repair, s.gather_wood, s.toolmaking, s.violence, s.stockpile],
        IntentKind::BuildFire => seq![s.hunger, s.safety, s.social, s.curiosity, s.build, s.rest,
            s.repair, s.gather_wood, s.toolmaking, s.violence, s.stockpile],
        IntentKind::MakeTools => seq![s.hunger, s.safety, s.social, s.curiosity, s.build, s.rest,
            s.repair, s.gather_wood, s.violence, s.stockpile],
        IntentKind::HuntPredator => seq![s.hunger, s.safety, s.social, s.curiosity, s.build,
            s.rest, s.repair, s.gather_wood, s.toolmaking, s.stockpile],
        IntentKind::Forage => seq![s.social, s.safety, s.build, s.curiosity, s.rest, s.repair,
            s.gather_wood, s.toolmaking, s.violence, s.stockpile],
        IntentKind::BuildShelter => seq![s.safety, s.social, s.curiosity, s.rest, s.repair,
            s.gather_wood, s.toolmaking, s.violence, s.stockpile],
        IntentKind::Retreat => seq![s.social, s.curiosity, s.violence],
        IntentKind::Socialize => seq![s.curiosity, s.violence],
        _ => seq![],
    }
}

/// The conditions besides the scores that an intent needs.
pub open spec fn gate_of(kind: IntentKind, g: IntentGates) -> bool {
    match kind {
        IntentKind::Rest => g.rest_needed,
        IntentKind::RepairShelter => g.has_home && g.home_worn,
        IntentKind::Stockpile => g.has_home,
        _ => true,
    }
}

/// `x` matches or beats every score in `rivals`.
pub open spec fn beats_all(x: i64, rivals: Seq<i64>) -> bool {
    forall|i: int| 0 <= i < rivals.len() ==> x >= #[trigger] rivals[i]
}

/// An intent may be chosen: its score beats its rivals and its conditions hold.
pub open spec fn eligible(kind: IntentKind, s: IntentScores, g: IntentGates) -> bool {
    beats_all(score_of(kind, s), rivals_of(kind, s)) && gate_of(kind, g)
}

/// The order in which the ladder tries the intents; `Explore` is the fallback.
pub open spec fn intent_priority() -> Seq<IntentKind> {
    seq![IntentKind::Rest, IntentKind::RepairShelter, IntentKind::Stockpile,
        IntentKind::GatherWood, IntentKind::TendFire, IntentKind::BuildFire,
        IntentKind::MakeTools, IntentKind::HuntPredator, IntentKind::Forage,
        IntentKind::BuildShelter, IntentKind::Retreat, IntentKind::Socialize]
}

/// The first eligible intent at or after position `i` of the priority order,
/// or `Explore` when none is.
pub open spec fn first_eligible_from(s: IntentScores, g: IntentGates, i: int) -> IntentKind
    decreases intent_priority().len() - i,
{
    if i < 0 || i >= intent_priority().len() {
        IntentKind::Explore
    } else if eligible(intent_priority()[i], s, g) {
        intent_priority()[i]
    } else {
        first_eligible_from(s, g, i + 1)
    }
}

/// The intent the ladder chooses.
pub open spec fn chosen_intent(s: IntentScores, g: IntentGates) -> IntentKind {
    first_eligible_from(s, g, 0)
}

fn priority_at(i: usize) -> (r: IntentKind)
    requires
        i < intent_priority().len(),
    ensures
        r == intent_priority()[i as int],
{
    match i {
        0 => IntentKind::Rest,
        1 => IntentKind::RepairShelter,
        2 => IntentKind::Stockpile,
        3 => IntentKind::GatherWood,
        4 => IntentKind::TendFire,
        5 => IntentKind::BuildFire,
        6 => IntentKind::MakeTools,
        7 => IntentKind::HuntPredator,
        8 => IntentKind::Forage,
        9 => IntentKind::BuildShelter,
        10 => IntentKind::Retreat,
        _ => IntentKind::Socialize,
    }
}

fn score(kind: IntentKind, s: &IntentScores) -> (r: i64)
    ensures
        r == score_of(kind, *s),
{
    match kind {
        IntentKind::Rest => s.rest,
        IntentKind::RepairShelter => s.repair,
        IntentKind::Stockpile => s.stockpile,
        IntentKind::GatherWood => s.gather_wood,
        IntentKind::TendFire => s.tend_fire,
        IntentKind::BuildFire => s.build_fire,
        IntentKind::MakeTools => s.toolmaking,
        IntentKind::HuntPredator => s.violence,
        IntentKind::Forage => s.hunger,
        IntentKind::BuildShelter => s.build,
        IntentKind::Retreat => s.safety,
        IntentKind::Socialize => s.social,
        _ => s.curiosity,
    }
}

fn rivals(kind: IntentKind, s: &IntentScores) -> (r: Vec<i64>)
    ensures
        r@ == rivals_of(kind, *s),
{
    let r = match kind {
        IntentKind::Rest => vec![s.hunger, s.safety, s.social, s.curiosity, s.build, s.build_fire,
            s.tend_fire, s.repair, s.gather_wood, s.toolmaking, s.violence, s.stockpile],
        IntentKind::RepairShelter => vec![s.hunger, s.safety, s.social, s.curiosity, s.build,
            s.build_fire, s.tend_fire, s.rest, s.gather_wood, s.toolmaking, s.violence, s.stockpile],
        IntentKind::Stockpile => vec![s.hunger, s.safety, s.social, s.curiosity, s.build,
            s.build_fire, s.tend_fire, s.rest, s.repair, s.gather_wood, s.toolmaking, s.violence],
        IntentKind::GatherWood => vec![s.hunger, s.safety, s.social, s.curiosity, s.build,
            s.build_fire, s.tend_fire, s.rest, s.repair, s.toolmaking, s.violence, s.stockpile],
        IntentKind::TendFire => vec![s.hunger, s.safety, s.social, s.curiosity, s.build,
            s.build_fire, s.rest, s.repair, s.gather_wood, s.toolmaking, s.violence, s.stockpile],
        IntentKind::BuildFire => vec![s.hunger, s.safety, s.social, s.curiosity, s.build, s.rest,
            s.repair, s.gather_wood, s.toolmaking, s.violence, s.stockpile],
        IntentKind::MakeTools => vec![s.hunger, s.safety, s.social, s.curiosity, s.build, s.rest,
            s.repair, s.gather_wood, s.violence, s.stockpile],
        IntentKind::HuntPredator => vec![s.hunger, s.safety, s.social, s.curiosity, s.build,
            s.rest, s.repair, s.gather_wood, s.toolmaking, s.stockpile],
        IntentKind::Forage => vec![s.social, s.safety, s.build, s.curiosity, s.rest, s.repair,
            s.gather_wood, s.toolmaking, s.violence, s.stockpile],
        IntentKind::BuildShelter => vec![s.safety, s.social, s.curiosity, s.rest, s.repair,
            s.gather_wood, s.toolmaking, s.violence, s.stockpile],
        IntentKind::Retreat => vec![s.social, s.curiosity, s.violence],
        IntentKind::Socialize => vec![s.curiosity, s.violence],
        _ => Vec::new(),
    };
    proof {
        assert(r@ =~= rivals_of(kind, *s));
    }
    r
}

fn beats_every(x: i64, rivals: &Vec<i64>) -> (r: bool)
    ensures
        r == beats_all(x, rivals@),
{
    let mut i: usize = 0;
    while i < rivals.len()
        invariant
            i <= rivals@.len(),
            forall|k: int| 0 <= k < i ==> x >= rivals@[k],
        decreases rivals@.len() - i,
    {
        if x < rivals[i] {
            return false;
        }
        i = i + 1;
    }
    true
}

fn gate(kind: IntentKind, g: &IntentGates) -> (r: bool)
    ensures
        r == gate_of(kind, *g),
{
    match kind {
        IntentKind::Rest => g.rest_needed,
        IntentKind::RepairShelter => g.has_home && g.home_worn,
        IntentKind::Stockpile => g.has_home,
        _ => true,
    }
}

/// Whether an intent may be chosen under these scores and conditions.
pub fn is_eligible(kind: IntentKind, scores: &IntentScores, gates: &IntentGates) -> (r: bool)
    ensures
        r == eligible(kind, *scores, *gates),
{
    let rs = rivals(kind, scores);
    beats_every(score(kind, scores), &rs) && gate(kind, gates)
}

/// The intent an NPC takes up: the first intent in priority order whose
/// score matches or beats all its rivals and whose conditions hold, or
/// `Explore` when none does.
pub fn choose_intent(scores: &IntentScores, gates: &IntentGates) -> (r: IntentKind)
    ensures
        r == chosen_intent(*scores, *gates),
{
    let n: usize = 12;
    let mut i: usize = 0;
    while i < n
        invariant
            n == intent_priority().len(),
            i <= n,
            first_eligible_from(*scores, *gates, 0) == first_eligible_from(*scores, *gates, i as int),
        decreases n - i,
    {
        let kind = priority_at(i);
        if is_eligible(kind, scores, gates) {
            return kind;
        }
        i = i + 1;
    }
    IntentKind::Explore
}

/// The plan that goes with an intent, by the intent's label.
pub open spec fn plan_text(label: Seq<char>) -> Seq<char> {
    if label == "Flee"@ {
        "Move away from the nearest predator until safety rises"@
    } else if label == "Retreat"@ {
        "Travel toward the safest remembered location"@
    } else if label == "Forage"@ {
        "Reach forage and fill carried food"@
    } else if label == "Gather Wood"@ {
        "Reach trees and convert biomass into carried wood"@
    } else if label == "Build Shelter"@ {
        "Spend carried wood where no shelter is nearby"@
    } else if label == "Repair Shelter"@ {
        "Return home and spend wood on integrity"@
    } else if label == "Build Fire"@ {
        "Spend a small bundle of wood at the current location"@
    } else if label == "Tend Fire"@ {
        "Find the nearest fire and add carried wood"@
    } else if label == "Make Tools"@ {
        "Practice until knowledge or tools improve"@
    } else if label == "Stockpile"@ {
        "Carry supplies home and deposit them"@
    } else if label == "Rest"@ {
        "Stay near shelter and reduce fatigue"@
    } else if label == "Socialize"@ {
        "Close distance to another NPC"@
    } else if label == "Hunt Predator"@ {
        "Close with a predator and attack if near enough"@
    } else if label == "Explore"@ {
        "Move toward the most interesting known tile"@
    } else {
        "Hold position and wait for a clearer signal"@
    }
}

/// The plan that goes with an intent, by the intent's label.
pub fn plan_from_intent(label: &str) -> (r: &'static str)
    ensures
        r@ == plan_text(label@),
{
    if str_eq(label, "Flee") {
        "Move away from the nearest predator until safety rises"
    } else if str_eq(label, "Retreat") {
        "Travel toward the safest remembered location"
    } else if str_eq(label, "Forage") {
        "Reach forage and fill carried food"
    } else if str_eq(label, "Gather Wood") {
        "Reach trees and convert biomass into carried wood"
    } else if str_eq(label, "Build Shelter") {
        "Spend carried wood where no shelter is nearby"
    } else if str_eq(label, "Repair Shelter") {
        "Return home and spend wood on integrity"
    } else if str_eq(label, "Build Fire") {
        "Spend a small bundle of wood at the current location"
    } else if str_eq(label, "Tend Fire") {
        "Find the nearest fire and add carried wood"
    } else if str_eq(label, "Make Tools") {
        "Practice until knowledge or tools improve"
    } else if str_eq(label, "Stockpile") {
        "Carry supplies home and deposit them"
    } else if str_eq(label, "Rest") {
        "Stay near shelter and reduce fatigue"
    } else if str_eq(label, "Socialize") {
        "Close distance to another NPC"
    } else if str_eq(label, "Hunt Predator") {
        "Close with a predator and attack if near enough"
    } else if str_eq(label, "Explore") {
        "Move toward the most interesting known tile"
    } else {
        "Hold position and wait for a clearer signal"
    }
}

/// What an exploring NPC is after: the facts that decide it, checked in
/// this order.
#[derive(Clone, Copy, Debug)]
pub struct ExploreContext {
    /// A child is on the way.
    pub expecting_child: bool,
    /// Curiosity is above 0.65.
    pub curious: bool,
    /// Carried food is below 0.2 while hunger is above 0.55.
    pub short_of_food: bool,
    /// The drive to discover outweighs the drive to reproduce.
    pub drawn_by_discovery: bool,
}

/// The goal that goes with an intent, by the intent's label.
pub open spec fn goal_text(label: Seq<char>, ctx: ExploreContext) -> Seq<char> {
    if label == "Forage"@ {
        "Secure food"@
    } else if label == "Gather Wood"@ {
        "Secure building material"@
    } else if label == "Build Shelter"@ {
        "Create a safe home"@
    } else if label == "Repair Shelter"@ {
        "Restore home safety"@
    } else if label == "Build Fire"@ || label == "Tend Fire"@ {
        "Stay warm"@
    } else if label == "Rest"@ {
        "Recover strength"@
    } else if label == "Socialize"@ {
        "Find companionship"@
    } else if label == "Retreat"@ || label == "Flee"@ {
        "Survive danger"@
    } else if label == "Hunt Predator"@ {
        "Remove a threat"@
    } else if label == "Make Tools"@ {
        "Improve future work"@
    } else if label == "Stockpile"@ {
        "Prepare for scarcity"@
    } else if label == "Explore"@ && ctx.expecting_child {
        "Scout for a safer future"@
    } else if label == "Explore"@ && ctx.curious {
        "Understand the world"@
    } else if label == "Explore"@ && ctx.short_of_food {
        "Search for resources"@
    } else if label == "Explore"@ && ctx.drawn_by_discovery {
        "Follow curiosity"@
    } else {
        "Adapt to conditions"@
    }
}

/// The goal that goes with an intent, by the intent's label.
pub fn goal_from_intent(label: &str, ctx: &ExploreContext) -> (r: &'static str)
    ensures
        r@ == goal_text(label@, *ctx),
{
    let explore = str_eq(label, "Explore");
    if str_eq(label, "Forage") {
        "Secure food"
    } else if str_eq(label, "Gather Wood") {
        "Secure building material"
    } else if str_eq(label, "Build Shelter") {
        "Create a safe home"
    } else if str_eq(label, "Repair Shelter") {
        "Restore home safety"
    } else if str_eq(label, "Build Fire") || str_eq(label, "Tend Fire") {
        "Stay warm"
    } else if str_eq(label, "Rest") {
        "Recover strength"
    } else if str_eq(label, "Socialize") {
        "Find companionship"
    } else if str_eq(label, "Retreat") || str_eq(label, "Flee") {
        "Survive danger"
    } else if str_eq(label, "Hunt Predator") {
        "Remove a threat"
    } else if str_eq(label, "Make Tools") {
        "Improve future work"
    } else if str_eq(label, "Stockpile") {
        "Prepare for scarcity"
    } else if explore && ctx.expecting_child {
        "Scout for a safer future"
    } else if explore && ctx.curious {
        "Understand the world"
    } else if explore && ctx.short_of_food {
        "Search for resources"
    } else if explore && ctx.drawn_by_discovery {
        "Follow curiosity"
    } else {
        "Adapt to conditions"
    }
}

proof fn lemma_first_eligible_from(s: IntentScores, g: IntentGates, i: int)
    requires
        0 <= i <= intent_priority().len(),
    ensures
        first_eligible_from(s, g, i) != IntentKind::Explore ==> eligible(first_eligible_from(s, g, i), s, g),
        first_eligible_from(s, g, i) == IntentKind::Explore ==>
            forall|j: int| i <= j < intent_priority().len() ==> !eligible(#[trigger] intent_priority()[j], s, g),
    decreases intent_priority().len() - i,
{
    if i < intent_priority().len() {
        lemma_first_eligible_from(s, g, i + 1);
        if !eligible(intent_priority()[i], s, g) {
            assert forall|j: int| i <= j < intent_priority().len() && first_eligible_from(s, g, i) == IntentKind::Explore
                implies !eligible(#[trigger] intent_priority()[j], s, g) by {
                if j > i {
                }
            }
        }
    }
}

/// Whatever the ladder picks other than the `Explore` fallback is eligible:
/// its motive weighs at least as much as each of its rivals and its
/// conditions hold. When it falls back to `Explore`, no intent in the
/// priority order was eligible.
pub proof fn lemma_choice_is_eligible(s: IntentScores, g: IntentGates)
    ensures
        chosen_intent(s, g) != IntentKind::Explore ==> eligible(chosen_intent(s, g), s, g),
        chosen_intent(s, g) == IntentKind::Explore ==>
            forall|j: int| 0 <= j < intent_priority().len() ==> !eligible(#[trigger] intent_priority()[j], s, g),
{
    lemma_first_eligible_from(s, g, 0);
}

/// An eligible intent is never passed over for one that comes later in the
/// priority order; in particular a needed rest always wins.
pub proof fn lemma_priority_respected(s: IntentScores, g: IntentGates, i: int, j: int)
    requires
        0 <= i < j < intent_priority().len(),
        eligible(intent_priority()[i], s, g),
    ensures
        chosen_intent(s, g) != intent_priority()[j],
{
    lemma_earlier_wins(s, g, 0, i, j);
}

proof fn lemma_earlier_wins(s: IntentScores, g: IntentGates, k: int, i: int, j: int)
    requires
        0 <= k <= i < j < intent_priority().len(),
        eligible(intent_priority()[i], s, g),
    ensures
        first_eligible_from(s, g, k) != intent_priority()[j],
    decreases i - k,
{
    let p = intent_priority();
    assert(p[0] != p[1] && p[0] != p[2] && p[0] != p[3] && p[0] != p[4] && p[0] != p[5]);
    if k < i && !eligible(p[k], s, g) {
        lemma_earlier_wins(s, g, k + 1, i, j);
    } else if k < i {
        assert(first_eligible_from(s, g, k) == p[k]);
    } else {
        assert(first_eligible_from(s, g, k) == p[i]);
    }
}

/// All thirteen motive scores.
pub open spec fn all_scores(s: IntentScores) -> Seq<i64> {
    seq![s.hunger, s.social, s.safety, s.curiosity, s.build, s.build_fire, s.tend_fire,
        s.rest, s.repair, s.gather_wood, s.toolmaking, s.stockpile, s.violence]
}

/// Resting, repairing, stockpiling, gathering wood and tending a fire are
/// chosen only when their motive weighs at least as much as every motive.
pub proof fn lemma_top_intents_carry_heaviest_motive(s: IntentScores, g: IntentGates)
    ensures
        ({
            let c = chosen_intent(s, g);
            (c == IntentKind::Rest || c == IntentKind::RepairShelter || c == IntentKind::Stockpile
                || c == IntentKind::GatherWood || c == IntentKind::TendFire)
                ==> beats_all(score_of(c, s), all_scores(s))
        }),
{
    lemma_choice_is_eligible(s, g);
    let c = chosen_intent(s, g);
    let r = rivals_of(c, s);
    if c == IntentKind::Rest || c == IntentKind::RepairShelter || c == IntentKind::Stockpile
        || c == IntentKind::GatherWood || c == IntentKind::TendFire {
        assert(forall|k: int| 0 <= k < r.len() ==> score_of(c, s) >= #[trigger] r[k]);
        assert forall|k: int| 0 <= k < all_scores(s).len() implies score_of(c, s) >= #[trigger] all_scores(s)[k] by {
            let a = all_scores(s);
            if c == IntentKind::Rest {
                assert(r[0] == a[0] && r[2] == a[1] && r[1] == a[2] && r[3] == a[3] && r[4] == a[4]);
                assert(r[5] == a[5] && r[6] == a[6] && r[7] == a[8] && r[8] == a[9] && r[9] == a[10]);
                assert(r[11] == a[11] && r[10] == a[12]);
            } else if c == IntentKind::RepairShelter {
                assert(r[0] == a[0] && r[2] == a[1] && r[1] == a[2] && r[3] == a[3] && r[4] == a[4]);
                assert(r[5] == a[5] && r[6] == a[6] && r[7] == a[7] && r[8] == a[9] && r[9] == a[10]);
                assert(r[11] == a[11] && r[10] == a[12]);
            } else if c == IntentKind::Stockpile {
                assert(r[0] == a[0] && r[2] == a[1] && r[1] == a[2] && r[3] == a[3] && r[4] == a[4]);
                assert(r[5] == a[5] && r[6] == a[6] && r[7] == a[7] && r[8] == a[8] && r[9] == a[9]);
                assert(r[10] == a[10] && r[11] == a[12]);
            } else if c == IntentKind::GatherWood {
                assert(r[0] == a[0] && r[2] == a[1] && r[1] == a[2] && r[3] == a[3] && r[4] == a[4]);
                assert(r[5] == a[5] && r[6] == a[6] && r[7] == a[7] && r[8] == a[8] && r[9] == a[10]);
                assert(r[11] == a[11] && r[10] == a[12]);
            } else {
                assert(r[0] == a[0] && r[2] == a[1] && r[1] == a[2] && r[3] == a[3] && r[4] == a[4]);
                assert(r[5] == a[5] && r[6] == a[7] && r[7] == a[8] && r[8] == a[9] && r[9] == a[10]);
                assert(r[11] == a[11] && r[10] == a[12]);
            }
        }
    }
}

/// What each choice of the ladder says about the motives: an intent is
/// chosen only when its own motive weighs at least as much as each motive
/// it is weighed against, and only when its conditions hold. Rest needs the
/// need to rest, repairing needs a worn home, stockpiling needs a home.
pub proof fn lemma_chosen_intent_outweighs(s: IntentScores, g: IntentGates)
    ensures
        chosen_intent(s, g) == IntentKind::Rest ==> g.rest_needed
            && s.rest >= s.hunger && s.rest >= s.safety && s.rest >= s.social
            && s.rest >= s.curiosity && s.rest >= s.build && s.rest >= s.build_fire
            && s.rest >= s.tend_fire && s.rest >= s.repair && s.rest >= s.gather_wood
            && s.rest >= s.toolmaking && s.rest >= s.violence && s.rest >= s.stockpile,
        chosen_intent(s, g) == IntentKind::RepairShelter ==> g.has_home && g.home_worn
            && s.repair >= s.hunger && s.repair >= s.safety && s.repair >= s.social
            && s.repair >= s.curiosity && s.repair >= s.build && s.repair >= s.build_fire
            && s.repair >= s.tend_fire && s.repair >= s.rest && s.repair >= s.gather_wood
            && s.repair >= s.toolmaking && s.repair >= s.violence && s.repair >= s.stockpile,
        chosen_intent(s, g) == IntentKind::Stockpile ==> g.has_home
            && s.stockpile >= s.hunger && s.stockpile >= s.safety && s.stockpile >= s.social
            && s.stockpile >= s.curiosity && s.stockpile >= s.build && s.stockpile >= s.build_fire
            && s.stockpile >= s.tend_fire && s.stockpile >= s.rest && s.stockpile >= s.repair
            && s.stockpile >= s.gather_wood && s.stockpile >= s.toolmaking && s.stockpile >= s.violence,
        chosen_intent(s, g) == IntentKind::GatherWood ==>
            s.gather_wood >= s.hunger && s.gather_wood >= s.safety && s.gather_wood >= s.social
            && s.gather_wood >= s.curiosity && s.gather_wood >= s.build && s.gather_wood >= s.build_fire
            && s.gather_wood >= s.tend_fire && s.gather_wood >= s.rest && s.gather_wood >= s.repair
            && s.gather_wood >= s.toolmaking && s.gather_wood >= s.violence && s.gather_wood >= s.stockpile,
        chosen_intent(s, g) == IntentKind::TendFire ==>
            s.tend_fire >= s.hunger && s.tend_fire >= s.safety && s.tend_fire >= s.social
            && s.tend_fire >= s.curiosity && s.tend_fire >= s.build && s.tend_fire >= s.build_fire
            && s.tend_fire >= s.rest && s.tend_fire >= s.repair && s.tend_fire >= s.gather_wood
            && s.tend_fire >= s.toolmaking && s.tend_fire >= s.violence && s.tend_fire >= s.stockpile,
        chosen_intent(s, g) == IntentKind::BuildFire ==>
            s.build_fire >= s.hunger && s.build_fire >= s.safety && s.build_fire >= s.social
            && s.build_fire >= s.curiosity && s.build_fire >= s.build && s.build_fire >= s.rest
            && s.build_fire >= s.repair && s.build_fire >= s.gather_wood
            && s.build_fire >= s.toolmaking && s.build_fire >= s.violence && s.build_fire >= s.stockpile,
        chosen_intent(s, g) == IntentKind::MakeTools ==>
            s.toolmaking >= s.hunger && s.toolmaking >= s.safety && s.toolmaking >= s.social
            && s.toolmaking >= s.curiosity && s.toolmaking >= s.build && s.toolmaking >= s.rest
            && s.toolmaking >= s.repair && s.toolmaking >= s.gather_wood
            && s.toolmaking >= s.violence && s.toolmaking >= s.stockpile,
        chosen_intent(s, g) == IntentKind::HuntPredator ==>
            s.violence >= s.hunger && s.violence >= s.safety && s.violence >= s.social
            && s.violence >= s.curiosity && s.violence >= s.build && s.violence >= s.rest
            && s.violence >= s.repair && s.violence >= s.gather_wood
            && s.violence >= s.toolmaking && s.violence >= s.stockpile,
        chosen_intent(s, g) == IntentKind::Forage ==>
            s.hunger >= s.social && s.hunger >= s.safety && s.hunger >= s.build
            && s.hunger >= s.curiosity && s.hunger >= s.rest && s.hunger >= s.repair
            && s.hunger >= s.gather_wood && s.hunger >= s.toolmaking
            && s.hunger >= s.violence && s.hunger >= s.stockpile,
        chosen_intent(s, g) == IntentKind::BuildShelter ==>
            s.build >= s.safety && s.build >= s.social && s.build >= s.curiosity
            && s.build >= s.rest && s.build >= s.repair && s.build >= s.gather_wood
            && s.build >= s.toolmaking && s.build >= s.violence && s.build >= s.stockpile,
        chosen_intent(s, g) == IntentKind::Retreat ==>
            s.safety >= s.social && s.safety >= s.curiosity && s.safety >= s.violence,
        chosen_intent(s, g) == IntentKind::Socialize ==>
            s.social >= s.curiosity && s.social >= s.violence,
        chosen_intent(s, g) != IntentKind::Idle && chosen_intent(s, g) != IntentKind::Flee,
{
    lemma_choice_is_eligible(s, g);
    let c = chosen_intent(s, g);
    let r = rivals_of(c, s);
    lemma_chosen_in_priority(s, g, 0);
    if c != IntentKind::Explore {
        assert(beats_all(score_of(c, s), r));
        if r.len() > 0 { assert(score_of(c, s) >= r[0]); }
        if r.len() > 1 { assert(score_of(c, s) >= r[1]); }
        if r.len() > 2 { assert(score_of(c, s) >= r[2]); }
        if r.len() > 3 { assert(score_of(c, s) >= r[3]); }
        if r.len() > 4 { assert(score_of(c, s) >= r[4]); }
        if r.len() > 5 { assert(score_of(c, s) >= r[5]); }
        if r.len() > 6 { assert(score_of(c, s) >= r[6]); }
        if r.len() > 7 { assert(score_of(c, s) >= r[7]); }
        if r.len() > 8 { assert(score_of(c, s) >= r[8]); }
        if r.len() > 9 { assert(score_of(c, s) >= r[9]); }
        if r.len() > 10 { assert(score_of(c, s) >= r[10]); }
        if r.len() > 11 { assert(score_of(c, s) >= r[11]); }
    }
}

proof fn lemma_chosen_in_priority(s: IntentScores, g: IntentGates, i: int)
    requires
        0 <= i <= intent_priority().len(),
    ensures
        first_eligible_from(s, g, i) == IntentKind::Explore
            || exists|j: int| i <= j < intent_priority().len() && first_eligible_from(s, g, i) == #[trigger] intent_priority()[j],
    decreases intent_priority().len() - i,
{
    if i < intent_priority().len() {
        lemma_chosen_in_priority(s, g, i + 1);
    }
}

/// A needed rest whose motive weighs at least as much as every other motive
/// is always taken.
pub proof fn lemma_needed_rest_wins(s: IntentScores, g: IntentGates)
    requires
        g.rest_needed,
        s.rest >= s.hunger && s.rest >= s.safety && s.rest >= s.social
            && s.rest >= s.curiosity && s.rest >= s.build && s.rest >= s.build_fire
            && s.rest >= s.tend_fire && s.rest >= s.repair && s.rest >= s.gather_wood
            && s.rest >= s.toolmaking && s.rest >= s.violence && s.rest >= s.stockpile,
    ensures
        chosen_intent(s, g) == IntentKind::Rest,
{
    let r = rivals_of(IntentKind::Rest, s);
    assert forall|i: int| 0 <= i < r.len() implies s.rest >= #[trigger] r[i] by {
        assert(r[0] == s.hunger && r[1] == s.safety && r[2] == s.social && r[3] == s.curiosity);
        assert(r[4] == s.build && r[5] == s.build_fire && r[6] == s.tend_fire && r[7] == s.repair);
        assert(r[8] == s.gather_wood && r[9] == s.toolmaking && r[10] == s.violence && r[11] == s.stockpile);
    }
    assert(eligible(intent_priority()[0], s, g));
}

} // verus!
