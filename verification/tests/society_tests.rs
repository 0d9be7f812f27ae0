use worldsim::civic::{civic_level, needs_more_housing, next_project, urgent_defense, CivicStructureKind, ProjectFacts};
use worldsim::factions::{faction_for_side, shelter_owner};
use worldsim::programs::ProgramId;
use worldsim::society::{
    choose_leader, faction_at_war, next_governance, relation_key, war_status, GovernanceFacts,
    GovernanceKind, WarFacts,
};

fn quiet_facts() -> ProjectFacts {
    ProjectFacts {
        society_ready: true,
        urgent_defense: false,
        npcs: 6,
        shelters: 3,
        animals: 0,
        cohesive_faction: false,
        settling_faction: false,
        governed_faction: false,
        wood_exceeds_2_6: false,
        wood_exceeds_2_8: false,
        wood_exceeds_3_2: false,
        food_exceeds_1_8: false,
        food_exceeds_2_0: false,
        food_exceeds_2_4: false,
        food_exceeds_4_2: false,
        verdant_affinity: false,
        craft_affinity: false,
        smithing_stock: false,
    }
}

#[test]
fn no_project_until_society_is_ready() {
    let mut f = quiet_facts();
    f.cohesive_faction = true;
    f.society_ready = false;
    assert_eq!(next_project(&f, &vec![], &vec![]), None);
    f.society_ready = true;
    assert_eq!(next_project(&f, &vec![], &vec![]), Some(CivicStructureKind::Plaza));
}

#[test]
fn urgent_defense_builds_a_fence_first() {
    let mut f = quiet_facts();
    f.urgent_defense = true;
    f.wood_exceeds_2_8 = true;
    f.wood_exceeds_2_6 = true;
    f.cohesive_faction = true;
    let known = vec![ProgramId::Woodworking, ProgramId::Watchkeeping];
    assert_eq!(next_project(&f, &known, &vec![]), Some(CivicStructureKind::Fence));
    assert_eq!(
        next_project(&f, &known, &vec![CivicStructureKind::Fence]),
        Some(CivicStructureKind::WatchPost)
    );
    assert_eq!(
        next_project(&f, &known, &vec![CivicStructureKind::Fence, CivicStructureKind::WatchPost]),
        Some(CivicStructureKind::Plaza)
    );
}

#[test]
fn farms_pastures_and_town_halls_need_their_programs() {
    let mut f = quiet_facts();
    f.food_exceeds_2_0 = true;
    assert_eq!(next_project(&f, &vec![], &vec![]), None);
    assert_eq!(next_project(&f, &vec![ProgramId::Agriculture], &vec![]), Some(CivicStructureKind::Farm));
    f.animals = 2;
    assert_eq!(
        next_project(&f, &vec![ProgramId::Agriculture, ProgramId::AnimalHusbandry], &vec![CivicStructureKind::Farm]),
        Some(CivicStructureKind::Pasture)
    );
    let mut g = quiet_facts();
    g.shelters = 5;
    g.governed_faction = true;
    assert_eq!(next_project(&g, &vec![ProgramId::Governance], &vec![]), Some(CivicStructureKind::TownHall));
    g.shelters = 4;
    assert_eq!(next_project(&g, &vec![ProgramId::Governance], &vec![]), None);
}

#[test]
fn defense_urgency_and_housing() {
    assert!(urgent_defense(2, 0, 10));
    assert!(!urgent_defense(1, 1, 3));
    assert!(urgent_defense(0, 2, 3));
    assert!(!urgent_defense(0, 4, 10));
    assert!(urgent_defense(0, 5, 10));
    assert!(needs_more_housing(5, 2));
    assert!(!needs_more_housing(4, 2));
    assert!(!needs_more_housing(3, usize::MAX));
}

#[test]
fn civic_levels_by_size_and_mood() {
    assert_eq!(civic_level(3, 2, 0, true, true), 0);
    assert_eq!(civic_level(4, 2, 0, false, false), 1);
    assert_eq!(civic_level(7, 3, 2, false, false), 2);
    assert_eq!(civic_level(12, 6, 4, true, false), 3);
    assert_eq!(civic_level(12, 6, 4, false, false), 2);
    assert_eq!(civic_level(18, 9, 7, true, true), 4);
    assert_eq!(CivicStructureKind::TownHall.label(), "Town Hall");
    assert_eq!(CivicStructureKind::WatchPost.label(), "Watch Post");
}

fn facts(adults: usize) -> GovernanceFacts {
    GovernanceFacts { adults, fragile: false, democratic: false, deliberative: false, sovereign: false }
}

#[test]
fn governance_follows_the_ladder() {
    let mut f = facts(2);
    f.democratic = true;
    assert_eq!(next_governance(&f), GovernanceKind::KinCircle);
    f.adults = 3;
    assert_eq!(next_governance(&f), GovernanceKind::Democracy);
    f.fragile = true;
    assert_eq!(next_governance(&f), GovernanceKind::KinCircle);
    let mut g = facts(5);
    g.deliberative = true;
    g.sovereign = true;
    assert_eq!(next_governance(&g), GovernanceKind::Council);
    g.deliberative = false;
    assert_eq!(next_governance(&g), GovernanceKind::Leader);
    assert_eq!(next_governance(&facts(9)), GovernanceKind::KinCircle);
    assert_eq!(GovernanceKind::Council.label(), "Council");
    assert_eq!(GovernanceKind::Democracy.policy(), "Vote for peace, food, and public works");
    assert_eq!(GovernanceKind::KinCircle.policy(), "Keep kin alive");
}

#[test]
fn leaders_are_chosen_only_under_a_leader() {
    let members = vec![(10, 3), (11, 7), (12, 7), (13, 1)];
    assert_eq!(choose_leader(GovernanceKind::Leader, &members), Some(12));
    assert_eq!(choose_leader(GovernanceKind::Council, &members), None);
    assert_eq!(choose_leader(GovernanceKind::Leader, &vec![]), None);
}

#[test]
fn wars_break_out_and_end() {
    let hostile = WarFacts { hostile: true, long_feud: true, left_adults: 4, right_adults: 5, calm: false, peaceable: true };
    assert_eq!(war_status(false, &hostile), (true, false));
    let small = WarFacts { left_adults: 3, ..hostile };
    assert_eq!(war_status(false, &small), (false, false));
    let calm = WarFacts { hostile: false, calm: true, ..hostile };
    assert_eq!(war_status(true, &calm), (false, true));
    let calm_but_bitter = WarFacts { peaceable: false, ..calm };
    assert_eq!(war_status(true, &calm_but_bitter), (true, false));
    assert_eq!(war_status(false, &calm), (false, false));
}

#[test]
fn relation_keys_are_symmetric() {
    assert_eq!(relation_key(9, 4), (4, 9));
    assert_eq!(relation_key(4, 9), (4, 9));
    assert_eq!(relation_key(7, 7), (7, 7));
    let relations = vec![((1, 2), false), ((2, 5), true)];
    assert!(faction_at_war(5, &relations));
    assert!(faction_at_war(2, &relations));
    assert!(!faction_at_war(1, &relations));
    assert!(!faction_at_war(3, &relations));
}

#[test]
fn settlers_join_factions_by_side() {
    assert_eq!(faction_for_side(&vec![], true), None);
    assert_eq!(faction_for_side(&vec![8], false), Some(8));
    assert_eq!(faction_for_side(&vec![8, 9, 10], true), Some(8));
    assert_eq!(faction_for_side(&vec![8, 9, 10], false), Some(9));
    let claims = vec![(1, 100), (2, 200), (1, 300)];
    assert_eq!(shelter_owner(&claims, 1), Some(300));
    assert_eq!(shelter_owner(&claims, 2), Some(200));
    assert_eq!(shelter_owner(&claims, 3), None);
}
