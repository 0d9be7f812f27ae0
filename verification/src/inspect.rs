//! The observation panels: which diagnostics panes show, which entity the
//! inspector follows, and why an animal or NPC cannot reproduce.
use vstd::prelude::*;
use crate::text::{joined, views, join_strs};

verus! {

/// The diagnostics panes that can be toggled.
#[derive(Clone, Copy, Debug, PartialEq, Eq, Structural)]
pub enum ToggleTarget {
    Settings,
    Logs,
    NpcDeaths,
}

/// Which diagnostics panes are visible.
#[derive(Clone, Copy, Debug, PartialEq, Eq, Structural)]
pub struct DiagnosticsPanelState {
    pub settings_visible: bool,
    pub logs_visible: bool,
    pub npc_deaths_visible: bool,
}

/// The state after pressing the toggle of `target`: that pane flips, the
/// others stay.
pub open spec fn toggled(s: DiagnosticsPanelState, target: ToggleTarget) -> DiagnosticsPanelState {
    match target {
        ToggleTarget::Settings => DiagnosticsPanelState { settings_visible: !s.settings_visible, ..s },
        ToggleTarget::Logs => DiagnosticsPanelState { logs_visible: !s.logs_visible, ..s },
        ToggleTarget::NpcDeaths => DiagnosticsPanelState { npc_deaths_visible: !s.npc_deaths_visible, ..s },
    }
}

/// The caption of a toggle button for the pane's visibility.
pub open spec fn toggle_caption(s: DiagnosticsPanelState, target: ToggleTarget) -> Seq<char> {
    match target {
        ToggleTarget::Settings => if s.settings_visible { "Settings: On"@ } else { "Settings: Off"@ },
        ToggleTarget::Logs => if s.logs_visible { "Logs: On"@ } else { "Logs: Off"@ },
        ToggleTarget::NpcDeaths => if s.npc_deaths_visible { "NPC Death Log: On"@ } else { "NPC Death Log: Off"@ },
    }
}

impl DiagnosticsPanelState {
    /// All panes visible.
    pub fn new() -> (r: Self)
        ensures
            r.settings_visible && r.logs_visible && r.npc_deaths_visible,
    {
        DiagnosticsPanelState { settings_visible: true, logs_visible: true, npc_deaths_visible: true }
    }

    /// Flips the visibility of one pane.
    pub fn toggle(&mut self, target: ToggleTarget)
        ensures
            *final(self) == toggled(*old(self), target),
    {
        match target {
            ToggleTarget::Settings => self.settings_visible = !self.settings_visible,
            ToggleTarget::Logs => self.logs_visible = !self.logs_visible,
            ToggleTarget::NpcDeaths => self.npc_deaths_visible = !self.npc_deaths_visible,
        }
    }

    /// The caption of a pane's toggle button.
    pub fn button_label(&self, target: ToggleTarget) -> (r: &'static str)
        ensures
            r@ == toggle_caption(*self, target),
    {
        match target {
            ToggleTarget::Settings => if self.settings_visible { "Settings: On" } else { "Settings: Off" },
            ToggleTarget::Logs => if self.logs_visible { "Logs: On" } else { "Logs: Off" },
            ToggleTarget::NpcDeaths => if self.npc_deaths_visible { "NPC Death Log: On" } else { "NPC Death Log: Off" },
        }
    }
}

/// Toggling a pane twice shows the panes as before, and a toggle touches no
/// other pane.
pub proof fn lemma_toggle_twice(s: DiagnosticsPanelState, target: ToggleTarget, other: ToggleTarget)
    ensures
        toggled(toggled(s, target), target) == s,
        other != target ==> toggle_caption(toggled(s, target), other) == toggle_caption(s, other),
{
}

/// The position the inspector moves to among `count` entities in their
/// fixed order: the next one, wrapping around; none when there are none.
pub fn cycle_index(index: usize, count: usize) -> (r: Option<usize>)
    requires
        index < usize::MAX,
    ensures
        count == 0 ==> r is None,
        count > 0 ==> r == Some(((index + 1) % (count as int)) as usize),
        r matches Some(i) ==> i < count,
{
    if count == 0 {
        None
    } else {
        Some((index + 1) % count)
    }
}

/// What an animal is doing, as the inspector shows it: gestating while it
/// forages, foraging when hunger is above 0.35, wandering tired when its
/// energy is below 12, wandering otherwise.
pub open spec fn animal_action_text(pregnant: bool, hungry: bool, tired: bool) -> Seq<char> {
    if pregnant {
        "Gestating while foraging/wandering"@
    } else if hungry {
        "Forage"@
    } else if tired {
        "Tired wander"@
    } else {
        "Wander"@
    }
}

/// What an animal is doing, as the inspector shows it.
pub fn animal_action_label(pregnant: bool, hungry: bool, tired: bool) -> (r: &'static str)
    ensures
        r@ == animal_action_text(pregnant, hungry, tired),
{
    if pregnant {
        "Gestating while foraging/wandering"
    } else if hungry {
        "Forage"
    } else if tired {
        "Tired wander"
    } else {
        "Wander"
    }
}

/// Why an animal cannot reproduce or move.
#[derive(Clone, Copy, Debug)]
pub struct AnimalBlockers {
    pub not_adult: bool,
    pub below_maturity_age: bool,
    pub cooldown_active: bool,
    /// Health below 30.
    pub health_low: bool,
    /// Energy below 28.
    pub energy_low: bool,
    pub already_pregnant: bool,
    /// Energy at or below zero.
    pub no_energy: bool,
}

/// The blocker lines of an animal that apply, in order.
pub open spec fn animal_blocker_lines(b: AnimalBlockers) -> Seq<Seq<char>> {
    let s0: Seq<Seq<char>> = Seq::empty();
    let s1 = if b.not_adult { s0.push("Reproduction blocked: not adult"@) } else { s0 };
    let s2 = if b.below_maturity_age { s1.push("Reproduction blocked: below maturity age"@) } else { s1 };
    let s3 = if b.cooldown_active { s2.push("Reproduction blocked: cooldown active"@) } else { s2 };
    let s4 = if b.health_low { s3.push("Reproduction blocked: health below 30"@) } else { s3 };
    let s5 = if b.energy_low { s4.push("Reproduction blocked: energy below 28"@) } else { s4 };
    let s6 = if b.already_pregnant { s5.push("Reproduction blocked: already pregnant"@) } else { s5 };
    if b.no_energy { s6.push("Movement blocked: no energy"@) } else { s6 }
}

/// The lines joined by " | ", or "None" when there are none.
pub open spec fn blocked_text(lines: Seq<Seq<char>>) -> Seq<char> {
    if lines.len() == 0 { "None"@ } else { joined(lines, " | "@) }
}

fn push_if(parts: &mut Vec<&'static str>, cond: bool, line: &'static str)
    ensures
        views(final(parts)@) == (if cond { views(old(parts)@).push(line@) } else { views(old(parts)@) }),
{
    if cond {
        parts.push(line);
        proof {
            assert(views(final(parts)@) =~= views(old(parts)@).push(line@));
        }
    }
}

/// What keeps an animal from reproducing or moving, as one line.
pub fn animal_blocked_reason(b: &AnimalBlockers) -> (r: String)
    ensures
        r@ == blocked_text(animal_blocker_lines(*b)),
{
    let mut parts: Vec<&'static str> = Vec::new();
    assert(views(parts@) =~= Seq::<Seq<char>>::empty());
    push_if(&mut parts, b.not_adult, "Reproduction blocked: not adult");
    push_if(&mut parts, b.below_maturity_age, "Reproduction blocked: below maturity age");
    push_if(&mut parts, b.cooldown_active, "Reproduction blocked: cooldown active");
    push_if(&mut parts, b.health_low, "Reproduction blocked: health below 30");
    push_if(&mut parts, b.energy_low, "Reproduction blocked: energy below 28");
    push_if(&mut parts, b.already_pregnant, "Reproduction blocked: already pregnant");
    push_if(&mut parts, b.no_energy, "Movement blocked: no energy");
    if parts.len() == 0 {
        String::from_str("None")
    } else {
        join_strs(&parts, " | ")
    }
}

/// Why an NPC who is not pregnant cannot reproduce yet.
#[derive(Clone, Copy, Debug)]
pub struct NpcBlockers {
    pub immature: bool,
    pub cooldown: bool,
    /// Health below 32.
    pub weak: bool,
    pub too_hungry: bool,
    pub too_fatigued: bool,
    pub unsafe_now: bool,
    /// A woman without a home shelter, who misses the shelter bonus.
    pub no_shelter_bonus: bool,
}

/// The blocker words of an NPC that apply, in order.
pub open spec fn npc_blocker_words(b: NpcBlockers) -> Seq<Seq<char>> {
    let s0: Seq<Seq<char>> = Seq::empty();
    let s1 = if b.immature { s0.push("immature"@) } else { s0 };
    let s2 = if b.cooldown { s1.push("cooldown"@) } else { s1 };
    let s3 = if b.weak { s2.push("health < 32"@) } else { s2 };
    let s4 = if b.too_hungry { s3.push("too hungry"@) } else { s3 };
    let s5 = if b.too_fatigued { s4.push("too fatigued"@) } else { s4 };
    if b.unsafe_now { s5.push("unsafe"@) } else { s5 }
}

/// The reproduction state of an NPC who is not pregnant.
pub open spec fn npc_reproduction_text(b: NpcBlockers) -> Seq<char> {
    let words = npc_blocker_words(b);
    if words.len() == 0 {
        "eligible pending partner/resources/cycle"@ + if b.no_shelter_bonus { " | no shelter bonus"@ } else { ""@ }
    } else {
        "blocked: "@ + joined(words, ", "@)
    }
}

/// The reproduction state of an NPC who is not pregnant, as one line.
pub fn npc_reproduction_state(b: &NpcBlockers) -> (r: String)
    ensures
        r@ == npc_reproduction_text(*b),
{
    let mut parts: Vec<&'static str> = Vec::new();
    assert(views(parts@) =~= Seq::<Seq<char>>::empty());
    push_if(&mut parts, b.immature, "immature");
    push_if(&mut parts, b.cooldown, "cooldown");
    push_if(&mut parts, b.weak, "health < 32");
    push_if(&mut parts, b.too_hungry, "too hungry");
    push_if(&mut parts, b.too_fatigued, "too fatigued");
    push_if(&mut parts, b.unsafe_now, "unsafe");
    if parts.len() == 0 {
        let mut out = String::from_str("eligible pending partner/resources/cycle");
        if b.no_shelter_bonus {
            out.append(" | no shelter bonus");
        } else {
            proof { reveal_strlit(""); }
            assert(out@ =~= out@ + ""@);
        }
        out
    } else {
        let mut out = String::from_str("blocked: ");
        let listed = join_strs(&parts, ", ");
        out.append(listed.as_str());
        out
    }
}

/// Entry `i` comes before entry `j` when its score is higher, or equal
/// with `i` listed first (a stable sort from highest to lowest).
pub open spec fn outranks(keys: Seq<i64>, i: int, j: int) -> bool {
    keys[i] > keys[j] || (keys[i] == keys[j] && i < j)
}

/// `picked` lists, in order, the first entries of `keys` sorted stably from
/// highest to lowest: each pick comes before every entry not yet picked.
pub open spec fn is_top_prefix(keys: Seq<i64>, picked: Seq<usize>) -> bool {
    &&& forall|k: int| 0 <= k < picked.len() ==> (#[trigger] picked[k] as int) < keys.len()
    &&& picked.no_duplicates()
    &&& forall|k: int, j: int| #![trigger picked[k], keys[j]] 0 <= k < picked.len() && 0 <= j < keys.len()
        && !picked.subrange(0, k + 1).contains(j as usize)
        ==> outranks(keys, picked[k] as int, j)
}

/// The positions of the (up to) three highest scores, highest first, ties
/// in listed order: the top of the needs an inspector shows.
pub fn top_three(keys: &Vec<i64>) -> (r: Vec<usize>)
    ensures
        r@.len() == (if keys@.len() < 3 { keys@.len() } else { 3 }),
        is_top_prefix(keys@, r@),
{
    let n = keys.len();
    let want: usize = if n < 3 { n } else { 3 };
    let mut picked: Vec<usize> = Vec::new();
    while picked.len() < want
        invariant
            n == keys@.len(),
            want == (if n < 3 { n } else { 3 }),
            picked@.len() <= want,
            is_top_prefix(keys@, picked@),
        decreases want - picked@.len(),
    {
        let mut best: usize = n;
        let mut j: usize = 0;
        while j < n
            invariant
                n == keys@.len(),
                j <= n,
                picked@.len() < want,
                best == n || (best < j && !picked@.contains(best)),
                best < n ==> forall|m: usize| m < j && m != best && !(#[trigger] picked@.contains(m))
                    ==> outranks(keys@, best as int, m as int),
                best == n ==> forall|m: usize| m < j ==> #[trigger] picked@.contains(m),
            decreases n - j,
        {
            let taken = contains_index(&picked, j);
            if !taken && (best == n || keys[j] > keys[best]) {
                best = j;
            }
            j = j + 1;
        }
        assert(best < n) by {
            if best == n {
                assert(picked@.len() < n);
                assert(forall|m: usize| m < n ==> #[trigger] picked@.contains(m));
                lemma_covers_all(picked@, n);
            }
        }
        let ghost before = picked@;
        picked.push(best);
        proof {
            assert(picked@.subrange(0, before.len() as int) =~= before);
            assert forall|k: int, m: int| #![trigger picked@[k], keys@[m]] 0 <= k < picked@.len() && 0 <= m < keys@.len()
                && !picked@.subrange(0, k + 1).contains(m as usize)
                implies outranks(keys@, picked@[k] as int, m) by {
                if k < before.len() {
                    assert(picked@.subrange(0, k + 1) =~= before.subrange(0, k + 1));
                } else {
                    assert(picked@.subrange(0, k + 1) =~= picked@);
                    assert(picked@[before.len() as int] == best);
                    if before.contains(m as usize) {
                        assert(picked@.contains(m as usize));
                    }
                    assert(m != best);
                }
            }
            assert forall|i: int, k: int| 0 <= i < k < picked@.len() implies picked@[i] != picked@[k] by {
                if k == before.len() {
                    assert(before.contains(picked@[i]));
                }
            }
        }
    }
    picked
}

fn contains_index(v: &Vec<usize>, x: usize) -> (r: bool)
    ensures
        r == v@.contains(x),
{
    let mut i: usize = 0;
    while i < v.len()
        invariant
            i <= v@.len(),
            forall|k: int| 0 <= k < i ==> v@[k] != x,
        decreases v@.len() - i,
    {
        if v[i] == x {
            assert(v@[i as int] == x);
            return true;
        }
        i = i + 1;
    }
    false
}

proof fn lemma_covers_all(picked: Seq<usize>, n: usize)
    requires
        picked.no_duplicates(),
        forall|m: usize| m < n ==> #[trigger] picked.contains(m),
    ensures
        picked.len() >= n,
{
    let s = Set::new(|m: usize| m < n);
    lemma_range_len(n);
    picked.unique_seq_to_set();
    assert forall|m: usize| s.contains(m) implies picked.to_set().contains(m) by {
        assert(picked.contains(m));
    }
    assert(picked.to_set().finite()) by {
        vstd::seq_lib::seq_to_set_is_finite(picked);
    }
    vstd::set_lib::lemma_len_subset(s, picked.to_set());
}

proof fn lemma_range_len(n: usize)
    ensures
        Set::new(|m: usize| m < n).len() == n,
        Set::new(|m: usize| m < n).finite(),
    decreases n,
{
    let s = Set::new(|m: usize| m < n);
    if n == 0 {
        assert(s =~= Set::empty());
    } else {
        lemma_range_len((n - 1) as usize);
        let t = Set::new(|m: usize| m < (n - 1) as usize);
        assert(s =~= t.insert((n - 1) as usize));
    }
}

} // verus!
