use worldsim::inspect::top_three;
use worldsim::labels::{NpcGender, NpcSex};
use worldsim::life::{
    animal_death_cause, birth_draw, birth_message, birth_seed, child_name, death_message,
    fortunate_birth, newborn_identity, npc_death_cause,
};
use worldsim::mana::{
    choose_mana_action, choose_spell, ManaAction, ManaActionSignals, SpellCast, SpellReadiness,
    SpellTargets,
};
use worldsim::territory::{advance_milestones, leading_scores};

#[test]
fn newborns_take_identity_from_the_birth_seed() {
    assert_eq!(birth_seed(1000, 24), 1024);
    assert_eq!(newborn_identity(14), (NpcSex::Female, NpcGender::Nonbinary));
    assert_eq!(newborn_identity(21), (NpcSex::Male, NpcGender::Nonbinary));
    assert_eq!(newborn_identity(4), (NpcSex::Female, NpcGender::Woman));
    assert_eq!(newborn_identity(9), (NpcSex::Male, NpcGender::Man));
    assert_eq!(birth_draw(35), 1);
    assert!(!fortunate_birth(4));
    assert!(fortunate_birth(5));
    assert!(!fortunate_birth(17 + 4));
    assert!(fortunate_birth(16));
    // The draw over sixteen exceeds 0.28 exactly from five on.
    for seed in 0u64..17 {
        assert_eq!(fortunate_birth(seed), (seed % 17) as f32 / 16.0 > 0.28);
    }
}

#[test]
fn names_and_messages_of_births_and_deaths() {
    assert_eq!(child_name("Settler 2", 123456), "Settler 2 Kin 3456");
    assert_eq!(child_name("Ada", 7), "Ada Kin 7");
    assert_eq!(birth_message("Ada"), "A child was born to Ada");
    assert_eq!(death_message("An animal", "old age"), "An animal died from old age");
    assert_eq!(death_message("Ada", "cold exposure"), "Ada died from cold exposure");
}

#[test]
fn deaths_are_put_down_to_their_first_cause() {
    assert_eq!(animal_death_cause(true, true, true), Some("old age"));
    assert_eq!(animal_death_cause(false, true, true), Some("health collapse"));
    assert_eq!(animal_death_cause(false, false, true), Some("starvation"));
    assert_eq!(animal_death_cause(false, false, false), None);
    assert_eq!(npc_death_cause(false, true, true), Some("cold exposure"));
    assert_eq!(npc_death_cause(false, true, false), Some("injury, starvation, or exposure"));
    assert_eq!(npc_death_cause(false, false, true), None);
    assert_eq!(npc_death_cause(true, false, false), Some("old age"));
}

#[test]
fn territory_leaders_and_milestones() {
    assert_eq!(leading_scores(&vec![0, 0]), (None, 0, 0));
    assert_eq!(leading_scores(&vec![3, 9, 5]), (Some(1), 9, 5));
    assert_eq!(leading_scores(&vec![7, 7]), (Some(0), 7, 7));
    assert_eq!(leading_scores(&vec![-4, 2]), (Some(1), 2, 0));
    assert_eq!(advance_milestones(0, 9), 0);
    assert_eq!(advance_milestones(0, 30), 2);
    assert_eq!(advance_milestones(2, 30), 2);
    assert_eq!(advance_milestones(2, 500), 5);
    assert_eq!(advance_milestones(5, 500), 5);
}

#[test]
fn mana_actions_follow_their_signals() {
    let none = ManaActionSignals { depleted: false, unsettled: false, focused: false, flowing: false, brimming: false };
    assert_eq!(choose_mana_action(&none), ManaAction::Hold);
    assert_eq!(choose_mana_action(&ManaActionSignals { depleted: true, unsettled: true, ..none }), ManaAction::Absorb);
    assert_eq!(choose_mana_action(&ManaActionSignals { flowing: true, brimming: true, ..none }), ManaAction::Circulate);
    assert_eq!(choose_mana_action(&ManaActionSignals { brimming: true, ..none }), ManaAction::Release);
}

#[test]
fn spells_are_tried_in_order() {
    let ready = SpellReadiness {
        fireball: true,
        gravity_well: true,
        root_snare: true,
        mana_bolt: true,
        healing_pulse: true,
        kindle: true,
        stone_skin: false,
        windstep: true,
    };
    let none = SpellTargets {
        predator_near_fireball: false,
        predator_near_gravity: false,
        predator_near_snare: false,
        predator_near_bolt: false,
        rival_near_bolt: false,
        ally_in_need: false,
        fire_near: false,
    };
    assert_eq!(choose_spell("Hunt Predator", &ready, &SpellTargets { predator_near_gravity: true, predator_near_bolt: true, ..none }), Some(SpellCast::GravityWell));
    assert_eq!(choose_spell("Raid", &ready, &SpellTargets { predator_near_bolt: true, ..none }), Some(SpellCast::Windstep));
    assert_eq!(choose_spell("Raid", &ready, &SpellTargets { rival_near_bolt: true, ..none }), Some(SpellCast::ManaBolt));
    assert_eq!(choose_spell("Rest", &ready, &SpellTargets { ally_in_need: true, fire_near: true, ..none }), Some(SpellCast::HealingPulse));
    assert_eq!(choose_spell("Tend Fire", &ready, &SpellTargets { fire_near: true, ..none }), Some(SpellCast::Kindle));
    assert_eq!(choose_spell("Forage", &ready, &SpellTargets { predator_near_fireball: true, ..none }), None);
    assert_eq!(choose_spell("Forage", &SpellReadiness { stone_skin: true, ..ready }, &none), Some(SpellCast::StoneSkin));
}

#[test]
fn top_needs_are_sorted_stably() {
    assert_eq!(top_three(&vec![1, 5, 3, 5, 0, 2]), vec![1, 3, 2]);
    assert_eq!(top_three(&vec![2, 2, 2, 2]), vec![0, 1, 2]);
    assert_eq!(top_three(&vec![4, 9]), vec![1, 0]);
    assert_eq!(top_three(&vec![]), Vec::<usize>::new());
}
