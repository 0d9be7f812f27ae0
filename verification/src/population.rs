//! Birth and death tallies across the whole simulation.
use vstd::prelude::*;

verus! {

/// Who was born or died.
#[derive(Clone, Copy, Debug, PartialEq, Eq, Structural)]
pub enum PopulationKind {
    Animal,
    Npc,
}

/// Running tallies of births and deaths, in total and by kind.
#[derive(Clone, Copy, Debug, Default)]
pub struct PopulationCounts {
    pub total_births: usize,
    pub total_deaths: usize,
    pub animal_births: usize,
    pub animal_deaths: usize,
    pub npc_births: usize,
    pub npc_deaths: usize,
}

impl PopulationCounts {
    /// Totals are the sums of the tallies by kind.
    pub open spec fn wf(&self) -> bool {
        &&& self.total_births == self.animal_births + self.npc_births
        &&& self.total_deaths == self.animal_deaths + self.npc_deaths
    }

    /// No births and no deaths yet.
    pub fn new() -> (r: Self)
        ensures
            r.total_births == 0 && r.total_deaths == 0,
            r.animal_births == 0 && r.animal_deaths == 0,
            r.npc_births == 0 && r.npc_deaths == 0,
            r.wf(),
    {
        PopulationCounts {
            total_births: 0,
            total_deaths: 0,
            animal_births: 0,
            animal_deaths: 0,
            npc_births: 0,
            npc_deaths: 0,
        }
    }

    /// Counts one birth of `kind`.
    pub fn record_birth(&mut self, kind: PopulationKind)
        requires
            old(self).total_births < usize::MAX,
            old(self).animal_births < usize::MAX,
            old(self).npc_births < usize::MAX,
        ensures
            final(self).total_births == old(self).total_births + 1,
            final(self).animal_births == old(self).animal_births + (if kind == PopulationKind::Animal { 1int } else { 0int }),
            final(self).npc_births == old(self).npc_births + (if kind == PopulationKind::Npc { 1int } else { 0int }),
            final(self).total_deaths == old(self).total_deaths,
            final(self).animal_deaths == old(self).animal_deaths,
            final(self).npc_deaths == old(self).npc_deaths,
            old(self).wf() ==> final(self).wf(),
    {
        self.total_births = self.total_births + 1;
        match kind {
            PopulationKind::Animal => self.animal_births = self.animal_births + 1,
            PopulationKind::Npc => self.npc_births = self.npc_births + 1,
        }
    }

    /// Counts one death of `kind`.
    pub fn record_death(&mut self, kind: PopulationKind)
        requires
            old(self).total_deaths < usize::MAX,
            old(self).animal_deaths < usize::MAX,
            old(self).npc_deaths < usize::MAX,
        ensures
            final(self).total_deaths == old(self).total_deaths + 1,
            final(self).animal_deaths == old(self).animal_deaths + (if kind == PopulationKind::Animal { 1int } else { 0int }),
            final(self).npc_deaths == old(self).npc_deaths + (if kind == PopulationKind::Npc { 1int } else { 0int }),
            final(self).total_births == old(self).total_births,
            final(self).animal_births == old(self).animal_births,
            final(self).npc_births == old(self).npc_births,
            old(self).wf() ==> final(self).wf(),
    {
        self.total_deaths = self.total_deaths + 1;
        match kind {
            PopulationKind::Animal => self.animal_deaths = self.animal_deaths + 1,
            PopulationKind::Npc => self.npc_deaths = self.npc_deaths + 1,
        }
    }

    /// Births minus deaths.
    pub fn net_growth(&self) -> (r: isize)
        requires
            self.total_births <= isize::MAX,
            self.total_deaths <= isize::MAX,
        ensures
            r == self.total_births - self.total_deaths,
    {
        self.total_births as isize - self.total_deaths as isize
    }
}

/// A birth followed by a death of the same kind leaves the net growth where
/// it was, and each record moves it by exactly one.
pub proof fn lemma_net_growth_moves_by_one(before: PopulationCounts, after_birth: PopulationCounts, after_death: PopulationCounts)
    requires
        after_birth.total_births == before.total_births + 1,
        after_birth.total_deaths == before.total_deaths,
        after_death.total_deaths == after_birth.total_deaths + 1,
        after_death.total_births == after_birth.total_births,
    ensures
        after_birth.total_births - after_birth.total_deaths == before.total_births - before.total_deaths + 1,
        after_death.total_births - after_death.total_deaths == before.total_births - before.total_deaths,
{
}

} // verus!
