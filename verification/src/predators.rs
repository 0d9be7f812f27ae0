//! How a predator grows an uncanny ability from the mana it lives in.
use vstd::prelude::*;
use crate::labels::PredatorAbility;

verus! {

/// What a predator's mutation is read from, each flag a comparison the
/// simulation makes.
#[derive(Clone, Copy, Debug)]
pub struct MutationSignals {
    /// Older than 180 days.
    pub seasoned: bool,
    /// Its accumulated mana mutation is above 0.52.
    pub saturated: bool,
    /// The ambient mana of its tile is above 0.82.
    pub ambient_above_0_82: bool,
    /// The ambient mana of its tile is above 0.72.
    pub ambient_above_0_72: bool,
    /// Its health is above 58.
    pub hardy: bool,
}

/// The ability a predator has after this moment: a plain predator that is
/// seasoned and saturated grows blink on the richest ground, mana fangs on
/// rich ground, thornhide when hardy and dread howl otherwise; any other
/// predator keeps what it has.
pub open spec fn mutated(current: PredatorAbility, s: MutationSignals) -> PredatorAbility {
    if current == PredatorAbility::Plain && s.seasoned && s.saturated {
        if s.ambient_above_0_82 {
            PredatorAbility::Blink
        } else if s.ambient_above_0_72 {
            PredatorAbility::ManaFangs
        } else if s.hardy {
            PredatorAbility::Thornhide
        } else {
            PredatorAbility::DreadHowl
        }
    } else {
        current
    }
}

/// The ability a predator has after this moment.
pub fn predator_mutation(current: PredatorAbility, s: &MutationSignals) -> (r: PredatorAbility)
    ensures
        r == mutated(current, *s),
{
    if current == PredatorAbility::Plain && s.seasoned && s.saturated {
        if s.ambient_above_0_82 {
            PredatorAbility::Blink
        } else if s.ambient_above_0_72 {
            PredatorAbility::ManaFangs
        } else if s.hardy {
            PredatorAbility::Thornhide
        } else {
            PredatorAbility::DreadHowl
        }
    } else {
        current
    }
}

/// An ability, once grown, is kept for good; a predator grows at most one,
/// and a plain predator grows one exactly when it is seasoned and saturated.
pub proof fn lemma_mutation_is_permanent(current: PredatorAbility, s: MutationSignals, t: MutationSignals)
    ensures
        current != PredatorAbility::Plain ==> mutated(current, s) == current,
        mutated(mutated(current, s), t) == mutated(current, s) || mutated(current, s) == PredatorAbility::Plain,
        current == PredatorAbility::Plain ==> (mutated(current, s) != PredatorAbility::Plain <==> (s.seasoned && s.saturated)),
{
}

} // verus!
