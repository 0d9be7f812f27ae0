use worldsim::programs::{
    inherit_programs, inherited_program, npc_self_discover, pressure_for_death,
    pressure_for_program, program_def, programs_for_death_reason, settlement_stage,
    unlock_programs, DiscoveryPressure, KnownPrograms, ProgramDomain, ProgramId,
};

#[test]
fn fresh_minds_know_the_starter_programs() {
    let k = KnownPrograms::default();
    assert_eq!(
        k.known,
        vec![
            ProgramId::Foraging,
            ProgramId::WaterFinding,
            ProgramId::Firemaking,
            ProgramId::ShelterBuilding,
            ProgramId::ShelterRepair,
            ProgramId::Toolmaking,
            ProgramId::Storykeeping
        ]
    );
    assert!(k.granted_by_world.is_empty());
    assert_eq!(k.last_grant_reason, "Inherited starter knowledge");
    assert!(k.knows(ProgramId::Toolmaking));
    assert!(!k.knows(ProgramId::Governance));
}

#[test]
fn learning_is_idempotent() {
    let mut k = KnownPrograms::default();
    assert!(k.learn(ProgramId::Teaching));
    assert!(k.knows(ProgramId::Teaching));
    let len = k.known.len();
    assert!(!k.learn(ProgramId::Teaching));
    assert_eq!(k.known.len(), len);
    assert_eq!(*k.known.last().unwrap(), ProgramId::Teaching);
}

#[test]
fn grants_record_their_reason_once() {
    let mut k = KnownPrograms::default();
    assert!(k.grant(ProgramId::Childcare, "population survival threshold"));
    assert_eq!(k.granted_by_world, vec![ProgramId::Childcare]);
    assert_eq!(k.last_grant_reason, "population survival threshold");
    assert!(!k.grant(ProgramId::Childcare, "again"));
    assert!(!k.grant(ProgramId::Foraging, "already known"));
    assert_eq!(k.granted_by_world, vec![ProgramId::Childcare]);
    assert_eq!(k.last_grant_reason, "population survival threshold");
}

#[test]
fn names_list_tier_and_domain() {
    let k = KnownPrograms::default();
    assert_eq!(k.names(2), "Foraging T1 Survival, Water Finding T1 Survival");
    assert_eq!(k.names(0), "");
    let all = k.names(100);
    assert!(all.ends_with("Toolmaking T1 Craft, Storykeeping T1 Culture"));
    let mut k2 = KnownPrograms::default();
    k2.learn(ProgramId::ManaSmithing);
    assert!(k2.names(8).ends_with("Mana Smithing T4 Mana"));
}

#[test]
fn featured_summary_is_of_the_latest_program() {
    let mut k = KnownPrograms::default();
    assert_eq!(k.featured_summary(), "Remember dangers, places, and identity.");
    k.learn(ProgramId::Irrigation);
    assert_eq!(k.featured_summary(), "Move water to farms and settlements.");
    k.known.clear();
    assert_eq!(k.featured_summary(), "No program details available");
}

#[test]
fn catalogue_entries_are_complete() {
    let def = program_def(ProgramId::Blacksmithing).unwrap();
    assert_eq!(def.name, "Blacksmithing");
    assert_eq!(def.domain, ProgramDomain::Craft);
    assert_eq!(def.tier, 3);
    assert_eq!(def.summary, "Forge metal tools, fasteners, and weapons.");
    assert_eq!(program_def(ProgramId::Artistry).unwrap().domain, ProgramDomain::Culture);
    assert_eq!(ProgramDomain::Infrastructure.name(), "Infrastructure");
}

#[test]
fn deaths_teach_by_their_cause() {
    assert_eq!(
        programs_for_death_reason("died of cold exposure"),
        vec![
            ProgramId::Firemaking,
            ProgramId::HearthKeeping,
            ProgramId::WarmClothing,
            ProgramId::ShelterBuilding,
            ProgramId::WeatherReading,
            ProgramId::ManaWarding
        ]
    );
    assert_eq!(programs_for_death_reason("starvation")[0], ProgramId::Foraging);
    assert_eq!(programs_for_death_reason("starving")[0], ProgramId::Storykeeping);
    assert_eq!(programs_for_death_reason("fatal injury")[0], ProgramId::FirstAid);
    assert_eq!(
        programs_for_death_reason("old age"),
        vec![ProgramId::Storykeeping, ProgramId::Teaching, ProgramId::ResearchMethod]
    );
}

#[test]
fn death_pressures_follow_the_cause() {
    assert_eq!(pressure_for_death("exposure"), DiscoveryPressure::Cold);
    assert_eq!(pressure_for_death("starving"), DiscoveryPressure::Hunger);
    assert_eq!(pressure_for_death("mauled by a predator"), DiscoveryPressure::Defense);
    assert_eq!(pressure_for_death("infected wound"), DiscoveryPressure::Defense);
    assert_eq!(pressure_for_death("old age"), DiscoveryPressure::Culture);
    assert_eq!(pressure_for_program(ProgramId::ManaWarding), DiscoveryPressure::Cold);
    assert_eq!(pressure_for_program(ProgramId::ManaAgriculture), DiscoveryPressure::Hunger);
    assert_eq!(pressure_for_program(ProgramId::Governance), DiscoveryPressure::Care);
    assert_eq!(pressure_for_program(ProgramId::FirstAid), DiscoveryPressure::Defense);
    assert_eq!(pressure_for_program(ProgramId::Trade), DiscoveryPressure::Culture);
}

#[test]
fn unlocking_skips_what_is_already_unlocked() {
    let mut unlocked = vec![ProgramId::Cooking];
    unlock_programs(
        &mut unlocked,
        &vec![ProgramId::Foraging, ProgramId::Cooking, ProgramId::Foraging, ProgramId::SeedSaving],
    );
    assert_eq!(unlocked, vec![ProgramId::Cooking, ProgramId::Foraging, ProgramId::SeedSaving]);
}

#[test]
fn self_discovery_learns_the_first_new_passing_candidate() {
    let mut k = KnownPrograms::default();
    let candidates = vec![
        (ProgramId::Firemaking, true),
        (ProgramId::WarmClothing, false),
        (ProgramId::FoodStorage, true),
        (ProgramId::Childcare, true),
    ];
    assert_eq!(npc_self_discover(&mut k, &candidates), Some(ProgramId::FoodStorage));
    assert!(k.knows(ProgramId::FoodStorage));
    assert!(!k.knows(ProgramId::Childcare));
    assert_eq!(npc_self_discover(&mut k, &vec![(ProgramId::Foraging, true)]), None);
}

#[test]
fn children_inherit_core_knowledge_and_luck_brings_the_rest() {
    assert!(inherited_program(ProgramId::Teaching, false));
    assert!(!inherited_program(ProgramId::Mining, false));
    assert!(inherited_program(ProgramId::Mining, true));
    let mut parent = KnownPrograms::default();
    parent.learn(ProgramId::Mining);
    parent.learn(ProgramId::Childcare);
    let unlucky = inherit_programs(Some(&parent), "Settler 3", false);
    assert_eq!(
        unlucky.known,
        vec![
            ProgramId::Foraging,
            ProgramId::WaterFinding,
            ProgramId::Firemaking,
            ProgramId::ShelterBuilding,
            ProgramId::Toolmaking,
            ProgramId::Storykeeping,
            ProgramId::Childcare
        ]
    );
    assert_eq!(unlucky.last_grant_reason, "Inherited from Settler 3");
    let lucky = inherit_programs(Some(&parent), "Settler 3", true);
    assert_eq!(lucky.known, parent.known);
    let orphan = inherit_programs(None, "nobody", true);
    assert_eq!(orphan.known, KnownPrograms::default().known);
    assert_eq!(orphan.last_grant_reason, "Inherited starter knowledge");
    let mut odd_parent = KnownPrograms::default();
    odd_parent.known = vec![ProgramId::Mining];
    let child = inherit_programs(Some(&odd_parent), "X", false);
    assert_eq!(child.known, vec![ProgramId::Foraging, ProgramId::WaterFinding, ProgramId::Storykeeping]);
}

#[test]
fn settlement_stages_by_size() {
    assert_eq!(settlement_stage(3, 1, 0), "Band");
    assert_eq!(settlement_stage(4, 2, 0), "Hamlet");
    assert_eq!(settlement_stage(7, 4, 3), "Village");
    assert_eq!(settlement_stage(12, 7, 5), "Town");
    assert_eq!(settlement_stage(18, 10, 6), "City");
    assert_eq!(settlement_stage(18, 10, 5), "Town");
    assert_eq!(settlement_stage(100, 1, 100), "Band");
}
