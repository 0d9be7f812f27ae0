use worldsim::director::{choose_proposal, nurture_gaps, proposal_is_new, world_stance, ProposalFacts, ProposalKind, StanceSignals};
use worldsim::inspect::{animal_blocked_reason, cycle_index, npc_reproduction_state, AnimalBlockers, DiagnosticsPanelState, NpcBlockers, ToggleTarget};
use worldsim::labels::{event_label, season_label, short_label, LogEventKind, NpcGender, NpcSex, PersonalityType, PredatorAbility};
use worldsim::mana::{abilities_summary, discovered_count, dominant_ability_label, dominant_pattern, spell_summary};
use worldsim::mind::{belief_summary, mood_label, BeliefFacts, MoodSignals};
use worldsim::records::{birth_death_counts, count_deaths_mentioning};
use worldsim::spawning::{
    animal_replenish_slots, hosts_settler, hosts_tree, predator_quota, predator_seed_count,
    predator_seed_slot, predator_spawn_count, settler_identity, settler_name, AnimalSpawnPolicy,
};
use worldsim::text::{join_strs, push_decimal, str_contains, str_eq};

#[test]
fn panels_toggle_and_caption() {
    let mut state = DiagnosticsPanelState::new();
    assert_eq!(state.button_label(ToggleTarget::Logs), "Logs: On");
    state.toggle(ToggleTarget::Logs);
    assert!(!state.logs_visible);
    assert!(state.settings_visible && state.npc_deaths_visible);
    assert_eq!(state.button_label(ToggleTarget::Logs), "Logs: Off");
    assert_eq!(state.button_label(ToggleTarget::NpcDeaths), "NPC Death Log: On");
    state.toggle(ToggleTarget::Logs);
    assert_eq!(state, DiagnosticsPanelState::new());
}

#[test]
fn inspector_cycles_through_entities() {
    assert_eq!(cycle_index(0, 0), None);
    assert_eq!(cycle_index(0, 3), Some(1));
    assert_eq!(cycle_index(2, 3), Some(0));
    assert_eq!(cycle_index(9, 3), Some(1));
}

#[test]
fn blockers_are_listed_in_order() {
    let none = AnimalBlockers {
        not_adult: false,
        below_maturity_age: false,
        cooldown_active: false,
        health_low: false,
        energy_low: false,
        already_pregnant: false,
        no_energy: false,
    };
    assert_eq!(animal_blocked_reason(&none), "None");
    let some = AnimalBlockers { not_adult: true, no_energy: true, ..none };
    assert_eq!(
        animal_blocked_reason(&some),
        "Reproduction blocked: not adult | Movement blocked: no energy"
    );
    let free = NpcBlockers {
        immature: false,
        cooldown: false,
        weak: false,
        too_hungry: false,
        too_fatigued: false,
        unsafe_now: false,
        no_shelter_bonus: false,
    };
    assert_eq!(npc_reproduction_state(&free), "eligible pending partner/resources/cycle");
    let homeless = NpcBlockers { no_shelter_bonus: true, ..free };
    assert_eq!(npc_reproduction_state(&homeless), "eligible pending partner/resources/cycle | no shelter bonus");
    let blocked = NpcBlockers { cooldown: true, weak: true, unsafe_now: true, no_shelter_bonus: true, ..free };
    assert_eq!(npc_reproduction_state(&blocked), "blocked: cooldown, health < 32, unsafe");
}

#[test]
fn labels_of_the_simulation_kinds() {
    assert_eq!(PredatorAbility::DreadHowl.label(), "Dread Howl");
    assert_eq!(PredatorAbility::Plain.label(), "None");
    assert_eq!(PersonalityType::Sovereign.label(), "Sovereign");
    assert_eq!(NpcSex::Female.label(), "Female");
    assert_eq!(NpcGender::Nonbinary.label(), "Nonbinary");
    assert_eq!(event_label(LogEventKind::Construction), "Build");
    assert_eq!(short_label(LogEventKind::Territory), "@");
    assert_eq!(short_label(LogEventKind::Proposal), "?");
    assert_eq!(season_label(0), "Spring");
    assert_eq!(season_label(2), "Autumn");
    assert_eq!(season_label(3), "Winter");
    assert_eq!(season_label(-1), "Winter");
}

#[test]
fn mana_abilities_are_read_from_levels() {
    let mut levels = vec![0i64; 12];
    assert_eq!(dominant_ability_label(&levels), "None");
    levels[3] = 5;
    levels[7] = 5;
    assert_eq!(dominant_ability_label(&levels), "Hunter Focus");
    levels[11] = 6;
    assert_eq!(dominant_ability_label(&levels), "Mana Bolt");
    let mut found = vec![false; 12];
    assert_eq!(discovered_count(&found), 0);
    assert_eq!(abilities_summary(&found), "none");
    found[0] = true;
    found[6] = true;
    found[9] = true;
    assert_eq!(discovered_count(&found), 3);
    assert_eq!(abilities_summary(&found), "Telekinesis, Fireball, Stone Skin");
    assert_eq!(spell_summary(&found), "Fireball, Stone Skin");
    found[6] = false;
    found[9] = false;
    assert_eq!(spell_summary(&found), "none");
    assert_eq!(dominant_pattern(3, 3, 3), "concentrated");
    assert_eq!(dominant_pattern(2, 3, 3), "circulating");
    assert_eq!(dominant_pattern(2, 3, 4), "distributed");
}

#[test]
fn moods_and_beliefs() {
    let calm = MoodSignals { protective: false, desperate: false, afraid: false, curious: false, lonely: false, weary: false };
    assert_eq!(mood_label(&calm), "steady");
    assert_eq!(mood_label(&MoodSignals { lonely: true, weary: true, ..calm }), "lonely");
    assert_eq!(mood_label(&MoodSignals { desperate: true, afraid: true, ..calm }), "desperate");
    let facts = BeliefFacts {
        has_food: false,
        remembers_forage: true,
        feels_safe: false,
        remembers_safe_place: false,
        expecting_child: false,
        family_waiting: true,
        close_to_others: true,
    };
    assert_eq!(
        belief_summary(&facts, "Watching"),
        "I remember forage; safety is unresolved; family must wait; world feels Watching"
    );
}

#[test]
fn director_stance_gaps_and_proposals() {
    let quiet = StanceSignals { testing: false, hungry: false, sheltering: false, strange: false, nurturing: false };
    assert_eq!(world_stance(&quiet), ("Watching", "Let local minds negotiate the next story"));
    assert_eq!(world_stance(&StanceSignals { hungry: true, nurturing: true, ..quiet }).0, "Hungry");
    assert_eq!(nurture_gaps(9, 3, 5), (3, 2));
    assert_eq!(nurture_gaps(2, 3, 1), (0, 0));
    let f = ProposalFacts {
        shelters: 0,
        npcs: 12,
        civic_structures: 0,
        predators: 1,
        unlocked_programs: 13,
        cold_stressed_npcs: 5,
        past_four_years: false,
        past_five_years: false,
        short_of_clothing: true,
    };
    assert_eq!(choose_proposal(&f, "Band"), Some(ProposalKind::RoadPlanning));
    assert_eq!(choose_proposal(&f, "Hamlet"), None);
    assert_eq!(choose_proposal(&ProposalFacts { past_four_years: true, ..f }, "Band"), Some(ProposalKind::ConstructionCrews));
    assert_eq!(choose_proposal(&ProposalFacts { npcs: 5, ..f }, "Band"), Some(ProposalKind::GuardPatrols));
    assert_eq!(
        choose_proposal(&ProposalFacts { npcs: 6, past_five_years: true, ..f }, "Band"),
        Some(ProposalKind::VisibleEquipment)
    );
    let (title, _, _, request) = ProposalKind::GuardPatrols.texts();
    assert_eq!(title, "Add guard patrols and weapons");
    assert_eq!(request, "Add weapon items, guard roles, patrol behavior, and combat readiness UI.");
    let queued = vec![title.to_string()];
    assert!(!proposal_is_new(&queued, "Add guard patrols and weapons"));
    assert!(proposal_is_new(&queued, "Add road and zoning planning"));
}

#[test]
fn seeding_and_spawning_counts() {
    assert!(hosts_tree(0, 0));
    assert!(hosts_tree(1, 2));
    assert!(!hosts_tree(1, 1));
    assert!(hosts_settler(8, 7, 14));
    assert!(!hosts_settler(6, 7, 14));
    assert!(!hosts_settler(8, 6, 14));
    assert_eq!(settler_identity(0), (NpcSex::Female, NpcGender::Nonbinary));
    assert_eq!(settler_identity(1), (NpcSex::Male, NpcGender::Man));
    assert_eq!(settler_identity(2), (NpcSex::Female, NpcGender::Woman));
    assert_eq!(settler_identity(5), (NpcSex::Male, NpcGender::Nonbinary));
    assert_eq!(settler_name(0), "Settler 1");
    assert_eq!(settler_name(11), "Settler 12");
    let policy = AnimalSpawnPolicy::standard();
    assert_eq!(animal_replenish_slots(&policy, 5, 10, 0), Vec::<usize>::new());
    assert_eq!(animal_replenish_slots(&policy, 4, 10, 70), vec![0, 5]);
    assert_eq!(animal_replenish_slots(&policy, 1, 10, 14), vec![2, 4, 6, 8, 0]);
    assert_eq!(animal_replenish_slots(&policy, 1, 0, 14), Vec::<usize>::new());
    assert_eq!(predator_quota(3, 9, 8, false), 1 + 3 + 2);
    assert_eq!(predator_quota(40, 60, 0, false), 10);
    assert_eq!(predator_quota(10, 0, 0, true), 2);
    assert_eq!(predator_spawn_count(5, 1), 2);
    assert_eq!(predator_spawn_count(5, 4), 1);
    assert_eq!(predator_spawn_count(5, 5), 0);
    assert_eq!(predator_seed_count(24, 14), 4);
    assert_eq!(predator_seed_count(2, 2), 3);
    assert_eq!(predator_seed_count(100, 100), 7);
    assert_eq!(predator_seed_slot(0, 4, 10), 0);
    assert_eq!(predator_seed_slot(3, 4, 10), 6);
    assert_eq!(predator_seed_slot(3, 4, 3), 2);
}

#[test]
fn recent_deaths_and_trends_are_counted() {
    let reasons = vec![
        "froze in the cold".to_string(),
        "mauled by wolves".to_string(),
        "killed by a predator".to_string(),
        "starvation".to_string(),
    ];
    assert_eq!(count_deaths_mentioning(&reasons, &vec!["cold"]), 1);
    assert_eq!(count_deaths_mentioning(&reasons, &vec!["predator", "mauled"]), 2);
    assert_eq!(count_deaths_mentioning(&reasons, &vec![]), 0);
    let kinds = vec![LogEventKind::Birth, LogEventKind::Death, LogEventKind::Birth, LogEventKind::Climate];
    assert_eq!(birth_death_counts(&kinds), (2, 1));
}

#[test]
fn text_helpers() {
    assert!(str_eq("Band", "Band"));
    assert!(!str_eq("Band", "Bands"));
    assert!(str_contains("froze from exposure", "exposure"));
    assert!(str_contains("abc", ""));
    assert!(!str_contains("ab", "abc"));
    assert_eq!(join_strs(&vec!["a", "b", "c"], ", "), "a, b, c");
    assert_eq!(join_strs(&vec![], ", "), "");
    let mut s = String::from("T");
    push_decimal(&mut s, 0);
    push_decimal(&mut s, 907);
    assert_eq!(s, "T0907");
}
