//! The world director: its stance toward the settlers, the gaps it tries to
//! close, and the proposals it files for the world's developers.
use vstd::prelude::*;
use crate::text::str_eq;

verus! {

/// What the director's stance is read from.
#[derive(Clone, Copy, Debug)]
pub struct StanceSignals {
    /// Smoothed pressure above 0.72.
    pub testing: bool,
    /// Scarcity above 0.62.
    pub hungry: bool,
    /// Shelter gap above 0.60.
    pub sheltering: bool,
    /// Smoothed entropy above 0.66.
    pub strange: bool,
    /// Smoothed nurture above 0.68.
    pub nurturing: bool,
}

/// The director's stance and intent: the first signal that holds, in the
/// order above, or watching.
pub open spec fn stance_of(s: StanceSignals) -> (Seq<char>, Seq<char>) {
    if s.testing {
        ("Testing"@, "Push scarcity until agents adapt"@)
    } else if s.hungry {
        ("Hungry"@, "Regrow food pockets and expose weak foraging plans"@)
    } else if s.sheltering {
        ("Sheltering"@, "Pressure settlers toward homes and fire"@)
    } else if s.strange {
        ("Strange"@, "Let mana and weather disturb stable paths"@)
    } else if s.nurturing {
        ("Nurturing"@, "Give ecosystems room to recover"@)
    } else {
        ("Watching"@, "Let local minds negotiate the next story"@)
    }
}

/// The director's stance and intent.
pub fn world_stance(s: &StanceSignals) -> (r: (&'static str, &'static str))
    ensures
        (r.0@, r.1@) == stance_of(*s),
{
    if s.testing {
        ("Testing", "Push scarcity until agents adapt")
    } else if s.hungry {
        ("Hungry", "Regrow food pockets and expose weak foraging plans")
    } else if s.sheltering {
        ("Sheltering", "Pressure settlers toward homes and fire")
    } else if s.strange {
        ("Strange", "Let mana and weather disturb stable paths")
    } else if s.nurturing {
        ("Nurturing", "Give ecosystems room to recover")
    } else {
        ("Watching", "Let local minds negotiate the next story")
    }
}

/// The housing gap (people beyond two per shelter) and the danger gap
/// (predators beyond a third of the people, and at least one).
pub fn nurture_gaps(npcs: usize, shelters: usize, predators: usize) -> (r: (usize, usize))
    requires
        shelters * 2 <= usize::MAX,
    ensures
        r.0 == (if npcs > shelters * 2 { npcs - shelters * 2 } else { 0 }),
        r.1 == ({
            let allowed = if npcs / 3 > 1 { npcs / 3 } else { 1 };
            if predators > allowed { predators - allowed } else { 0 }
        }),
{
    let homes = shelters * 2;
    let housing_gap = if npcs > homes { npcs - homes } else { 0 };
    let third = npcs / 3;
    let allowed = if third > 1 { third } else { 1 };
    let danger_gap = if predators > allowed { predators - allowed } else { 0 };
    (housing_gap, danger_gap)
}

/// The proposals the director can file.
#[derive(Clone, Copy, Debug, PartialEq, Eq, Structural)]
pub enum ProposalKind {
    ConstructionCrews,
    RoadPlanning,
    GuardPatrols,
    VisibleEquipment,
}

/// What the director weighs when it files a proposal.
#[derive(Clone, Copy, Debug)]
pub struct ProposalFacts {
    pub shelters: usize,
    pub npcs: usize,
    pub civic_structures: usize,
    pub predators: usize,
    /// Programs the world has unlocked.
    pub unlocked_programs: usize,
    pub cold_stressed_npcs: usize,
    /// More than four years have passed.
    pub past_four_years: bool,
    /// More than five years have passed.
    pub past_five_years: bool,
    /// Clothing in the world totals less than one.
    pub short_of_clothing: bool,
}

/// The proposal the director files, if any, given its facts and the
/// settlement stage.
pub open spec fn proposal_for(f: ProposalFacts, stage: Seq<char>) -> Option<ProposalKind> {
    if f.shelters == 0 && f.past_four_years {
        Some(ProposalKind::ConstructionCrews)
    } else if f.npcs >= 12 && f.civic_structures <= 1 && stage == "Band"@ {
        Some(ProposalKind::RoadPlanning)
    } else if f.predators > 0 && f.unlocked_programs > 12 && f.npcs <= 5 {
        Some(ProposalKind::GuardPatrols)
    } else if f.short_of_clothing && f.cold_stressed_npcs > 4 && f.past_five_years {
        Some(ProposalKind::VisibleEquipment)
    } else {
        None
    }
}

/// The proposal the director files, if any.
pub fn choose_proposal(f: &ProposalFacts, stage: &str) -> (r: Option<ProposalKind>)
    ensures
        r == proposal_for(*f, stage@),
{
    if f.shelters == 0 && f.past_four_years {
        Some(ProposalKind::ConstructionCrews)
    } else if f.npcs >= 12 && f.civic_structures <= 1 && str_eq(stage, "Band") {
        Some(ProposalKind::RoadPlanning)
    } else if f.predators > 0 && f.unlocked_programs > 12 && f.npcs <= 5 {
        Some(ProposalKind::GuardPatrols)
    } else if f.short_of_clothing && f.cold_stressed_npcs > 4 && f.past_five_years {
        Some(ProposalKind::VisibleEquipment)
    } else {
        None
    }
}

/// The texts of a proposal: title, problem, proposed solution and request.
pub open spec fn proposal_texts(k: ProposalKind) -> (Seq<char>, Seq<char>, Seq<char>, Seq<char>) {
    match k {
        ProposalKind::ConstructionCrews => (
            "Add coordinated construction crews"@,
            "NPCs know shelter programs but no shelters exist after several days."@,
            "Let groups reserve a build site, haul wood together, and complete a shared home."@,
            "Add construction job reservations, work parties, and partially built shelter ghosts."@,
        ),
        ProposalKind::RoadPlanning => (
            "Add road and zoning planning"@,
            "Population has grown but town layout is still loose and structure placement is ad hoc."@,
            "Create a planner that establishes roads, districts, plazas, and expansion rings."@,
            "Add a village planner system with roads, zoning, district claims, and expansion rings."@,
        ),
        ProposalKind::GuardPatrols => (
            "Add guard patrols and weapons"@,
            "The society has knowledge but remains vulnerable to predators."@,
            "Promote watch posts into patrol routes and craft spears/bows from tool programs."@,
            "Add weapon items, guard roles, patrol behavior, and combat readiness UI."@,
        ),
        ProposalKind::VisibleEquipment => (
            "Add visible equipment and clothing"@,
            "Clothing and weapon resources exist, but NPC visuals and role readability do not reflect them."@,
            "Show coats, tools, and weapons on NPCs so society specialization is legible."@,
            "Add visual equipment layers, clothing states, and held-tool sprites."@,
        ),
    }
}

impl ProposalKind {
    /// The texts of the proposal: title, problem, proposed solution and request.
    pub fn texts(self) -> (r: (&'static str, &'static str, &'static str, &'static str))
        ensures
            (r.0@, r.1@, r.2@, r.3@) == proposal_texts(self),
    {
        match self {
            ProposalKind::ConstructionCrews => (
                "Add coordinated construction crews",
                "NPCs know shelter programs but no shelters exist after several days.",
                "Let groups reserve a build site, haul wood together, and complete a shared home.",
                "Add construction job reservations, work parties, and partially built shelter ghosts.",
            ),
            ProposalKind::RoadPlanning => (
                "Add road and zoning planning",
                "Population has grown but town layout is still loose and structure placement is ad hoc.",
                "Create a planner that establishes roads, districts, plazas, and expansion rings.",
                "Add a village planner system with roads, zoning, district claims, and expansion rings.",
            ),
            ProposalKind::GuardPatrols => (
                "Add guard patrols and weapons",
                "The society has knowledge but remains vulnerable to predators.",
                "Promote watch posts into patrol routes and craft spears/bows from tool programs.",
                "Add weapon items, guard roles, patrol behavior, and combat readiness UI.",
            ),
            ProposalKind::VisibleEquipment => (
                "Add visible equipment and clothing",
                "Clothing and weapon resources exist, but NPC visuals and role readability do not reflect them.",
                "Show coats, tools, and weapons on NPCs so society specialization is legible.",
                "Add visual equipment layers, clothing states, and held-tool sprites.",
            ),
        }
    }
}

/// A proposal is filed only when no queued proposal has the same title.
pub fn proposal_is_new(queued_titles: &Vec<String>, title: &str) -> (r: bool)
    ensures
        r == !queued_titles@.map_values(|t: String| t@).contains(title@),
{
    let ghost titles = queued_titles@.map_values(|t: String| t@);
    let mut i: usize = 0;
    while i < queued_titles.len()
        invariant
            titles == queued_titles@.map_values(|t: String| t@),
            i <= queued_titles@.len(),
            forall|k: int| 0 <= k < i ==> titles[k] != title@,
        decreases queued_titles@.len() - i,
    {
        if str_eq(queued_titles[i].as_str(), title) {
            assert(titles[i as int] == title@);
            return false;
        }
        i = i + 1;
    }
    true
}

/// A queue whose titles are all different stays so when a new title is
/// added and the oldest are dropped to keep it within its capacity.
pub proof fn lemma_queue_titles_stay_distinct(titles: Seq<Seq<char>>, title: Seq<char>, max: nat)
    requires
        titles.no_duplicates(),
        !titles.contains(title),
    ensures
        crate::logbook::kept_tail(titles.push(title), max).no_duplicates(),
{
    let all = titles.push(title);
    assert(all.no_duplicates()) by {
        assert forall|i: int, j: int| 0 <= i < j < all.len() implies all[i] != all[j] by {
            if j == all.len() - 1 {
                assert(all[i] == titles[i]);
                assert(all[j] == title);
                assert(titles[i] != title);
            } else {
                assert(all[i] == titles[i] && all[j] == titles[j]);
            }
        }
    }
    let kept = crate::logbook::kept_tail(all, max);
    assert forall|i: int, j: int| 0 <= i < j < kept.len() implies kept[i] != kept[j] by {
        let off = all.len() - kept.len();
        assert(kept[i] == all[off + i]);
        assert(kept[j] == all[off + j]);
    }
}

} // verus!
