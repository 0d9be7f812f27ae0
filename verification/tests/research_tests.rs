use worldsim::labels::{ManaDiscipline, PredatorAbility};
use worldsim::predators::{predator_mutation, MutationSignals};
use worldsim::inspect::animal_action_label;
use worldsim::mana::{choose_discipline, discipline_slot, spell_to_research, ManaAction, ResearchSignals};
use worldsim::programs::{kin_lesson, KnownPrograms, ProgramId};

fn quiet() -> ResearchSignals {
    ResearchSignals {
        circulation_leads: false,
        distribution_over_concentration: false,
        distribution_over_circulation: false,
        strong_circulation: false,
        ambient_above_0_56: false,
        ambient_above_0_60: false,
        ambient_above_0_62: false,
        ambient_below_0_40: false,
        ambient_below_0_48: false,
    }
}

#[test]
fn research_disciplines_follow_the_style() {
    let mut s = quiet();
    assert_eq!(choose_discipline(&s, ManaAction::Hold), ManaDiscipline::Hunt);
    s.ambient_below_0_40 = true;
    assert_eq!(choose_discipline(&s, ManaAction::Hold), ManaDiscipline::Hunt);
    assert_eq!(choose_discipline(&s, ManaAction::Absorb), ManaDiscipline::Hearth);
    s.distribution_over_circulation = true;
    assert_eq!(choose_discipline(&s, ManaAction::Distribute), ManaDiscipline::Warding);
    s.distribution_over_concentration = true;
    s.ambient_above_0_62 = true;
    assert_eq!(choose_discipline(&s, ManaAction::Distribute), ManaDiscipline::Verdant);
    s.circulation_leads = true;
    assert_eq!(choose_discipline(&s, ManaAction::Distribute), ManaDiscipline::Kinesis);
    assert_eq!(discipline_slot(ManaDiscipline::Kinesis), 0);
    assert_eq!(discipline_slot(ManaDiscipline::Hearth), 1);
    assert_eq!(discipline_slot(ManaDiscipline::Warding), 2);
    assert_eq!(discipline_slot(ManaDiscipline::Hunt), 3);
    assert_eq!(discipline_slot(ManaDiscipline::Verdant), 4);
}

#[test]
fn spells_are_researched_from_known_disciplines() {
    let none = vec![false; 12];
    let mut s = quiet();
    s.strong_circulation = true;
    s.ambient_above_0_56 = true;
    s.ambient_above_0_60 = true;
    s.ambient_below_0_48 = true;
    assert_eq!(spell_to_research(&none, &s, ManaAction::Release), None);

    let mut known = vec![false; 12];
    known[0] = true;
    assert_eq!(spell_to_research(&known, &s, ManaAction::Hold), Some(7));
    known[7] = true;
    assert_eq!(spell_to_research(&known, &s, ManaAction::Hold), Some(5));

    let mut hearth = vec![false; 12];
    hearth[1] = true;
    assert_eq!(spell_to_research(&hearth, &quiet(), ManaAction::Release), Some(6));
    assert_eq!(spell_to_research(&hearth, &quiet(), ManaAction::Hold), None);

    let mut ward = vec![false; 12];
    ward[2] = true;
    assert_eq!(spell_to_research(&ward, &quiet(), ManaAction::Distribute), Some(8));
    ward[8] = true;
    assert_eq!(spell_to_research(&ward, &quiet(), ManaAction::Distribute), Some(9));

    let mut verdant = vec![false; 12];
    verdant[4] = true;
    let mut rich = quiet();
    rich.ambient_above_0_60 = true;
    assert_eq!(spell_to_research(&verdant, &rich, ManaAction::Hold), Some(10));
    assert_eq!(spell_to_research(&verdant, &quiet(), ManaAction::Hold), None);

    let mut hunter = vec![false; 12];
    hunter[3] = true;
    assert_eq!(spell_to_research(&hunter, &quiet(), ManaAction::Hold), Some(11));
}

#[test]
fn children_learn_one_teachable_program_from_kin() {
    let mut child = KnownPrograms {
        known: vec![ProgramId::Foraging],
        granted_by_world: Vec::new(),
        last_grant_reason: "Inherited from Ada".to_string(),
    };
    let teacher = KnownPrograms {
        known: vec![
            ProgramId::Foraging,
            ProgramId::Governance,
            ProgramId::FoodStorage,
            ProgramId::Teaching,
        ],
        granted_by_world: Vec::new(),
        last_grant_reason: String::new(),
    };
    assert_eq!(kin_lesson(&mut child, &teacher), Some(ProgramId::FoodStorage));
    assert_eq!(child.known, vec![ProgramId::Foraging, ProgramId::FoodStorage]);
    assert_eq!(child.last_grant_reason, "learned from nearby kin and elders");
    assert_eq!(kin_lesson(&mut child, &teacher), Some(ProgramId::Teaching));
    assert_eq!(kin_lesson(&mut child, &teacher), None);
    assert_eq!(
        child.known,
        vec![ProgramId::Foraging, ProgramId::FoodStorage, ProgramId::Teaching]
    );
}

#[test]
fn predators_grow_one_lasting_ability() {
    let mut s = MutationSignals {
        seasoned: true,
        saturated: true,
        ambient_above_0_82: false,
        ambient_above_0_72: false,
        hardy: false,
    };
    assert_eq!(predator_mutation(PredatorAbility::Plain, &s), PredatorAbility::DreadHowl);
    s.hardy = true;
    assert_eq!(predator_mutation(PredatorAbility::Plain, &s), PredatorAbility::Thornhide);
    s.ambient_above_0_72 = true;
    assert_eq!(predator_mutation(PredatorAbility::Plain, &s), PredatorAbility::ManaFangs);
    s.ambient_above_0_82 = true;
    assert_eq!(predator_mutation(PredatorAbility::Plain, &s), PredatorAbility::Blink);
    assert_eq!(predator_mutation(PredatorAbility::Thornhide, &s), PredatorAbility::Thornhide);
    s.seasoned = false;
    assert_eq!(predator_mutation(PredatorAbility::Plain, &s), PredatorAbility::Plain);
}

#[test]
fn animals_are_shown_at_their_work() {
    assert_eq!(animal_action_label(true, true, true), "Gestating while foraging/wandering");
    assert_eq!(animal_action_label(false, true, true), "Forage");
    assert_eq!(animal_action_label(false, false, true), "Tired wander");
    assert_eq!(animal_action_label(false, false, false), "Wander");
}
