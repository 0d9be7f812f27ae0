//! Public works: the kinds of civic structure, which one a settlement takes
//! on next, and how far a settlement has come.
use vstd::prelude::*;
use crate::programs::ProgramId;

verus! {

/// The kinds of civic structure a settlement can build.
#[derive(Clone, Copy, Debug, PartialEq, Eq, Structural, Hash)]
pub enum CivicStructureKind {
    Road,
    Plaza,
    Fence,
    Farm,
    Pasture,
    Workshop,
    Nursery,
    WatchPost,
    Granary,
    Forge,
    TownHall,
}

/// The name under which a structure kind is shown.
pub open spec fn civic_label(kind: CivicStructureKind) -> Seq<char> {
    match kind {
        CivicStructureKind::Road => "Road"@,
        CivicStructureKind::Plaza => "Plaza"@,
        CivicStructureKind::Fence => "Fence"@,
        CivicStructureKind::Farm => "Farm"@,
        CivicStructureKind::Pasture => "Pasture"@,
        CivicStructureKind::Workshop => "Workshop"@,
        CivicStructureKind::Nursery => "Nursery"@,
        CivicStructureKind::WatchPost => "Watch Post"@,
        CivicStructureKind::Granary => "Granary"@,
        CivicStructureKind::Forge => "Forge"@,
        CivicStructureKind::TownHall => "Town Hall"@,
    }
}

impl CivicStructureKind {
    /// The name under which the structure kind is shown.
    pub fn label(self) -> (r: &'static str)
        ensures
            r@ == civic_label(self),
    {
        match self {
            CivicStructureKind::Road => "Road",
            CivicStructureKind::Plaza => "Plaza",
            CivicStructureKind::Fence => "Fence",
            CivicStructureKind::Farm => "Farm",
            CivicStructureKind::Pasture => "Pasture",
            CivicStructureKind::Workshop => "Workshop",
            CivicStructureKind::Nursery => "Nursery",
            CivicStructureKind::WatchPost => "Watch Post",
            CivicStructureKind::Granary => "Granary",
            CivicStructureKind::Forge => "Forge",
            CivicStructureKind::TownHall => "Town Hall",
        }
    }
}

/// What a settlement knows about itself when it chooses its next project.
/// The counts are exact; the flags stand for comparisons of stores and
/// social measures that the simulation makes.
#[derive(Clone, Copy, Debug)]
pub struct ProjectFacts {
    /// Some faction has settlement drive above 0.40 and cohesion above 0.36.
    pub society_ready: bool,
    /// Predators press on the settlement (see `urgent_defense`).
    pub urgent_defense: bool,
    pub npcs: usize,
    pub shelters: usize,
    pub animals: usize,
    /// Some faction has cohesion above 0.40.
    pub cohesive_faction: bool,
    /// Some faction has settlement drive above 0.45.
    pub settling_faction: bool,
    /// Some faction has cohesion above 0.52, settlement drive above 0.54
    /// and a government beyond a kin circle.
    pub governed_faction: bool,
    /// Carried and stockpiled wood exceeds 2.6, 2.8 and 3.2.
    pub wood_exceeds_2_6: bool,
    pub wood_exceeds_2_8: bool,
    pub wood_exceeds_3_2: bool,
    /// Carried and stockpiled food exceeds 1.8, 2.0, 2.4 and 4.2.
    pub food_exceeds_1_8: bool,
    pub food_exceeds_2_0: bool,
    pub food_exceeds_2_4: bool,
    pub food_exceeds_4_2: bool,
    /// The settlers' summed verdant touch exceeds 0.7.
    pub verdant_affinity: bool,
    /// The settlers' summed telekinesis or hearthspark exceeds 0.65.
    pub craft_affinity: bool,
    /// Metal exceeds 1.2 and ore exceeds 1.6.
    pub smithing_stock: bool,
}

/// Predators press on a settlement: two or more recent predator deaths, or
/// at least as many predators as half the NPCs (and at least two).
pub open spec fn defense_is_urgent(recent_predator_deaths: nat, predators: nat, npcs: nat) -> bool {
    let floor = if npcs / 2 > 2 { npcs / 2 } else { 2 };
    recent_predator_deaths >= 2 || predators >= floor
}

/// Whether predators press on a settlement.
pub fn urgent_defense(recent_predator_deaths: usize, predators: usize, npcs: usize) -> (r: bool)
    ensures
        r == defense_is_urgent(recent_predator_deaths as nat, predators as nat, npcs as nat),
{
    let half = npcs / 2;
    let floor = if half > 2 { half } else { 2 };
    recent_predator_deaths >= 2 || predators >= floor
}

/// More people than two per shelter: the settlement wants another home.
pub fn needs_more_housing(npcs: usize, shelters: usize) -> (r: bool)
    ensures
        r == (npcs as nat > 2 * (shelters as nat)),
{
    if shelters > usize::MAX / 2 {
        false
    } else {
        npcs > shelters * 2
    }
}

/// The next civic project, in priority order: defense first when it is
/// urgent, then gathering places, then food, craft, care, storage, smithing
/// and government. None when the society is not ready or nothing fits.
pub open spec fn next_project_of(f: ProjectFacts, known: Seq<ProgramId>, existing: Seq<CivicStructureKind>) -> Option<CivicStructureKind> {
    if !f.society_ready {
        None
    } else if f.urgent_defense && f.shelters >= 2 && known.contains(ProgramId::Woodworking)
        && f.wood_exceeds_2_8 && !existing.contains(CivicStructureKind::Fence) {
        Some(CivicStructureKind::Fence)
    } else if f.urgent_defense && f.npcs >= 4 && known.contains(ProgramId::Watchkeeping)
        && f.wood_exceeds_2_6 && !existing.contains(CivicStructureKind::WatchPost) {
        Some(CivicStructureKind::WatchPost)
    } else if f.shelters >= 3 && !existing.contains(CivicStructureKind::Plaza) && f.cohesive_faction {
        Some(CivicStructureKind::Plaza)
    } else if f.shelters >= 3 && !existing.contains(CivicStructureKind::Road) && f.settling_faction {
        Some(CivicStructureKind::Road)
    } else if f.shelters >= 2 && known.contains(ProgramId::Woodworking) && f.wood_exceeds_2_8
        && !existing.contains(CivicStructureKind::Fence) {
        Some(CivicStructureKind::Fence)
    } else if f.shelters >= 2 && known.contains(ProgramId::Agriculture) && f.verdant_affinity
        && f.food_exceeds_1_8 && !existing.contains(CivicStructureKind::Farm) {
        Some(CivicStructureKind::Farm)
    } else if f.shelters >= 2 && known.contains(ProgramId::Agriculture) && f.food_exceeds_2_0
        && !existing.contains(CivicStructureKind::Farm) {
        Some(CivicStructureKind::Farm)
    } else if f.shelters >= 2 && known.contains(ProgramId::AnimalHusbandry) && f.animals >= 2
        && !existing.contains(CivicStructureKind::Pasture) {
        Some(CivicStructureKind::Pasture)
    } else if f.shelters >= 2 && known.contains(ProgramId::Toolmaking) && f.craft_affinity
        && f.wood_exceeds_2_8 && !existing.contains(CivicStructureKind::Workshop) {
        Some(CivicStructureKind::Workshop)
    } else if f.shelters >= 2 && known.contains(ProgramId::Toolmaking) && f.wood_exceeds_3_2
        && !existing.contains(CivicStructureKind::Workshop) {
        Some(CivicStructureKind::Workshop)
    } else if f.npcs >= 4 && known.contains(ProgramId::Childcare) && f.food_exceeds_2_4
        && !existing.contains(CivicStructureKind::Nursery) {
        Some(CivicStructureKind::Nursery)
    } else if f.npcs >= 4 && known.contains(ProgramId::Watchkeeping) && f.wood_exceeds_2_6
        && !existing.contains(CivicStructureKind::WatchPost) {
        Some(CivicStructureKind::WatchPost)
    } else if f.shelters >= 3 && known.contains(ProgramId::FoodStorage) && f.food_exceeds_4_2
        && !existing.contains(CivicStructureKind::Granary) {
        Some(CivicStructureKind::Granary)
    } else if f.shelters >= 3 && known.contains(ProgramId::Blacksmithing) && f.smithing_stock
        && !existing.contains(CivicStructureKind::Forge) {
        Some(CivicStructureKind::Forge)
    } else if f.shelters >= 5 && known.contains(ProgramId::Governance) && f.governed_faction
        && !existing.contains(CivicStructureKind::TownHall) {
        Some(CivicStructureKind::TownHall)
    } else {
        None
    }
}

fn contains_program(v: &Vec<ProgramId>, id: ProgramId) -> (r: bool)
    ensures
        r == v@.contains(id),
{
    let mut i: usize = 0;
    while i < v.len()
        invariant
            i <= v@.len(),
            forall|k: int| 0 <= k < i ==> v@[k] != id,
        decreases v@.len() - i,
    {
        if v[i] == id {
            assert(v@[i as int] == id);
            return true;
        }
        i = i + 1;
    }
    false
}

fn contains_kind(v: &Vec<CivicStructureKind>, kind: CivicStructureKind) -> (r: bool)
    ensures
        r == v@.contains(kind),
{
    let mut i: usize = 0;
    while i < v.len()
        invariant
            i <= v@.len(),
            forall|k: int| 0 <= k < i ==> v@[k] != kind,
        decreases v@.len() - i,
    {
        if v[i] == kind {
            assert(v@[i as int] == kind);
            return true;
        }
        i = i + 1;
    }
    false
}

/// The next civic project a settlement starts, given its facts, the
/// programs known by anyone in it and the structures that already stand.
pub fn next_project(f: &ProjectFacts, known: &Vec<ProgramId>, existing: &Vec<CivicStructureKind>) -> (r: Option<CivicStructureKind>)
    ensures
        r == next_project_of(*f, known@, existing@),
{
    let knows_woodworking = contains_program(known, ProgramId::Woodworking);
    let knows_watchkeeping = contains_program(known, ProgramId::Watchkeeping);
    let knows_agriculture = contains_program(known, ProgramId::Agriculture);
    let knows_husbandry = contains_program(known, ProgramId::AnimalHusbandry);
    let knows_toolmaking = contains_program(known, ProgramId::Toolmaking);
    let knows_childcare = contains_program(known, ProgramId::Childcare);
    let knows_storage = contains_program(known, ProgramId::FoodStorage);
    let knows_smithing = contains_program(known, ProgramId::Blacksmithing);
    let knows_governance = contains_program(known, ProgramId::Governance);
    let has_fence = contains_kind(existing, CivicStructureKind::Fence);
    let has_watch = contains_kind(existing, CivicStructureKind::WatchPost);
    let has_plaza = contains_kind(existing, CivicStructureKind::Plaza);
    let has_road = contains_kind(existing, CivicStructureKind::Road);
    let has_farm = contains_kind(existing, CivicStructureKind::Farm);
    let has_pasture = contains_kind(existing, CivicStructureKind::Pasture);
    let has_workshop = contains_kind(existing, CivicStructureKind::Workshop);
    let has_nursery = contains_kind(existing, CivicStructureKind::Nursery);
    let has_granary = contains_kind(existing, CivicStructureKind::Granary);
    let has_forge = contains_kind(existing, CivicStructureKind::Forge);
    let has_hall = contains_kind(existing, CivicStructureKind::TownHall);
    if !f.society_ready {
        None
    } else if f.urgent_defense && f.shelters >= 2 && knows_woodworking && f.wood_exceeds_2_8 && !has_fence {
        Some(CivicStructureKind::Fence)
    } else if f.urgent_defense && f.npcs >= 4 && knows_watchkeeping && f.wood_exceeds_2_6 && !has_watch {
        Some(CivicStructureKind::WatchPost)
    } else if f.shelters >= 3 && !has_plaza && f.cohesive_faction {
        Some(CivicStructureKind::Plaza)
    } else if f.shelters >= 3 && !has_road && f.settling_faction {
        Some(CivicStructureKind::Road)
    } else if f.shelters >= 2 && knows_woodworking && f.wood_exceeds_2_8 && !has_fence {
        Some(CivicStructureKind::Fence)
    } else if f.shelters >= 2 && knows_agriculture && f.verdant_affinity && f.food_exceeds_1_8 && !has_farm {
        Some(CivicStructureKind::Farm)
    } else if f.shelters >= 2 && knows_agriculture && f.food_exceeds_2_0 && !has_farm {
        Some(CivicStructureKind::Farm)
    } else if f.shelters >= 2 && knows_husbandry && f.animals >= 2 && !has_pasture {
        Some(CivicStructureKind::Pasture)
    } else if f.shelters >= 2 && knows_toolmaking && f.craft_affinity && f.wood_exceeds_2_8 && !has_workshop {
        Some(CivicStructureKind::Workshop)
    } else if f.shelters >= 2 && knows_toolmaking && f.wood_exceeds_3_2 && !has_workshop {
        Some(CivicStructureKind::Workshop)
    } else if f.npcs >= 4 && knows_childcare && f.food_exceeds_2_4 && !has_nursery {
        Some(CivicStructureKind::Nursery)
    } else if f.npcs >= 4 && knows_watchkeeping && f.wood_exceeds_2_6 && !has_watch {
        Some(CivicStructureKind::WatchPost)
    } else if f.shelters >= 3 && knows_storage && f.food_exceeds_4_2 && !has_granary {
        Some(CivicStructureKind::Granary)
    } else if f.shelters >= 3 && knows_smithing && f.smithing_stock && !has_forge {
        Some(CivicStructureKind::Forge)
    } else if f.shelters >= 5 && knows_governance && f.governed_faction && !has_hall {
        Some(CivicStructureKind::TownHall)
    } else {
        None
    }
}

/// A settlement never starts a second structure of a kind that already
/// stands, and starts nothing while its society is not ready.
pub proof fn lemma_project_is_new(f: ProjectFacts, known: Seq<ProgramId>, existing: Seq<CivicStructureKind>)
    ensures
        next_project_of(f, known, existing) matches Some(k) ==> !existing.contains(k),
        !f.society_ready ==> next_project_of(f, known, existing) is None,
{
}

/// Each structure is started only when the settlement is ready for it and
/// knows the craft it needs: a fence needs woodworking and wood, a watch
/// post watchkeeping and wood, a farm agriculture and food, a pasture
/// animal husbandry and animals, a workshop toolmaking and wood, a nursery
/// childcare and food, a granary food storage and food, a forge
/// blacksmithing and smithing stock, a town hall governance and a governed
/// faction; a plaza needs a cohesive faction and a road a settling one.
pub proof fn lemma_project_needs_its_craft(f: ProjectFacts, known: Seq<ProgramId>, existing: Seq<CivicStructureKind>)
    ensures
        next_project_of(f, known, existing) is Some ==> f.society_ready,
        next_project_of(f, known, existing) == Some(CivicStructureKind::Fence) ==>
            known.contains(ProgramId::Woodworking) && f.wood_exceeds_2_8 && f.shelters >= 2,
        next_project_of(f, known, existing) == Some(CivicStructureKind::WatchPost) ==>
            known.contains(ProgramId::Watchkeeping) && f.wood_exceeds_2_6 && f.npcs >= 4,
        next_project_of(f, known, existing) == Some(CivicStructureKind::Plaza) ==>
            f.cohesive_faction && f.shelters >= 3,
        next_project_of(f, known, existing) == Some(CivicStructureKind::Road) ==>
            f.settling_faction && f.shelters >= 3,
        next_project_of(f, known, existing) == Some(CivicStructureKind::Farm) ==>
            known.contains(ProgramId::Agriculture) && f.shelters >= 2
            && ((f.verdant_affinity && f.food_exceeds_1_8) || f.food_exceeds_2_0),
        next_project_of(f, known, existing) == Some(CivicStructureKind::Pasture) ==>
            known.contains(ProgramId::AnimalHusbandry) && f.animals >= 2 && f.shelters >= 2,
        next_project_of(f, known, existing) == Some(CivicStructureKind::Workshop) ==>
            known.contains(ProgramId::Toolmaking) && f.shelters >= 2
            && ((f.craft_affinity && f.wood_exceeds_2_8) || f.wood_exceeds_3_2),
        next_project_of(f, known, existing) == Some(CivicStructureKind::Nursery) ==>
            known.contains(ProgramId::Childcare) && f.food_exceeds_2_4 && f.npcs >= 4,
        next_project_of(f, known, existing) == Some(CivicStructureKind::Granary) ==>
            known.contains(ProgramId::FoodStorage) && f.food_exceeds_4_2 && f.shelters >= 3,
        next_project_of(f, known, existing) == Some(CivicStructureKind::Forge) ==>
            known.contains(ProgramId::Blacksmithing) && f.smithing_stock && f.shelters >= 3,
        next_project_of(f, known, existing) == Some(CivicStructureKind::TownHall) ==>
            known.contains(ProgramId::Governance) && f.governed_faction && f.shelters >= 5,
{
}

/// A ready settlement that can build something does: when the conditions of
/// any structure that does not yet stand hold, a project is started.
pub proof fn lemma_ready_settlement_builds(f: ProjectFacts, known: Seq<ProgramId>, existing: Seq<CivicStructureKind>)
    requires
        f.society_ready,
        (f.shelters >= 3 && f.cohesive_faction && !existing.contains(CivicStructureKind::Plaza))
        || (f.shelters >= 3 && f.settling_faction && !existing.contains(CivicStructureKind::Road))
        || (f.shelters >= 2 && known.contains(ProgramId::Woodworking) && f.wood_exceeds_2_8
            && !existing.contains(CivicStructureKind::Fence))
        || (f.shelters >= 2 && known.contains(ProgramId::Agriculture) && f.food_exceeds_2_0
            && !existing.contains(CivicStructureKind::Farm))
        || (f.shelters >= 2 && known.contains(ProgramId::AnimalHusbandry) && f.animals >= 2
            && !existing.contains(CivicStructureKind::Pasture))
        || (f.shelters >= 2 && known.contains(ProgramId::Toolmaking) && f.wood_exceeds_3_2
            && !existing.contains(CivicStructureKind::Workshop))
        || (f.npcs >= 4 && known.contains(ProgramId::Childcare) && f.food_exceeds_2_4
            && !existing.contains(CivicStructureKind::Nursery))
        || (f.npcs >= 4 && known.contains(ProgramId::Watchkeeping) && f.wood_exceeds_2_6
            && !existing.contains(CivicStructureKind::WatchPost))
        || (f.shelters >= 3 && known.contains(ProgramId::FoodStorage) && f.food_exceeds_4_2
            && !existing.contains(CivicStructureKind::Granary))
        || (f.shelters >= 3 && known.contains(ProgramId::Blacksmithing) && f.smithing_stock
            && !existing.contains(CivicStructureKind::Forge))
        || (f.shelters >= 5 && known.contains(ProgramId::Governance) && f.governed_faction
            && !existing.contains(CivicStructureKind::TownHall)),
    ensures
        next_project_of(f, known, existing) is Some,
{
}

/// The civic level of a settlement. `content` says its happiness is above
/// 0.50 and `thriving` that it is above 0.58.
pub open spec fn civic_level_of(population: nat, shelters: nat, civic_structures: nat, content: bool, thriving: bool) -> u8 {
    if population >= 18 && shelters >= 9 && civic_structures >= 7 && thriving {
        4
    } else if population >= 12 && shelters >= 6 && civic_structures >= 4 && content {
        3
    } else if population >= 7 && shelters >= 3 && civic_structures >= 2 {
        2
    } else if population >= 4 && shelters >= 2 {
        1
    } else {
        0
    }
}

/// The civic level of a settlement.
pub fn civic_level(population: usize, shelters: usize, civic_structures: usize, content: bool, thriving: bool) -> (r: u8)
    ensures
        r == civic_level_of(population as nat, shelters as nat, civic_structures as nat, content, thriving),
{
    if population >= 18 && shelters >= 9 && civic_structures >= 7 && thriving {
        4
    } else if population >= 12 && shelters >= 6 && civic_structures >= 4 && content {
        3
    } else if population >= 7 && shelters >= 3 && civic_structures >= 2 {
        2
    } else if population >= 4 && shelters >= 2 {
        1
    } else {
        0
    }
}

/// Growth never lowers a settlement's civic level: with at least as many
/// people, shelters and civic structures, and a mood at least as good, the
/// level is at least as high.
pub proof fn lemma_civic_level_monotone(
    p1: nat, s1: nat, c1: nat, content1: bool, thriving1: bool,
    p2: nat, s2: nat, c2: nat, content2: bool, thriving2: bool,
)
    requires
        p1 <= p2,
        s1 <= s2,
        c1 <= c2,
        content1 ==> content2,
        thriving1 ==> thriving2,
    ensures
        civic_level_of(p1, s1, c1, content1, thriving1) <= civic_level_of(p2, s2, c2, content2, thriving2),
{
}

} // verus!
