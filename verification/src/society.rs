//! How factions govern themselves, who leads them, and when two factions
//! go to war or make peace.
use vstd::prelude::*;

verus! {

/// The forms of government a faction can have.
#[derive(Clone, Copy, Debug, PartialEq, Eq, Structural)]
pub enum GovernanceKind {
    KinCircle,
    Leader,
    Council,
    Democracy,
}

/// The name under which a form of government is shown.
pub open spec fn governance_label(g: GovernanceKind) -> Seq<char> {
    match g {
        GovernanceKind::KinCircle => "Kin Circle"@,
        GovernanceKind::Leader => "Leader"@,
        GovernanceKind::Council => "Council"@,
        GovernanceKind::Democracy => "Democracy"@,
    }
}

/// The policy a faction follows under a form of government.
pub open spec fn policy_of(g: GovernanceKind) -> Seq<char> {
    match g {
        GovernanceKind::KinCircle => "Keep kin alive"@,
        GovernanceKind::Leader => "Follow the strongest organizer"@,
        GovernanceKind::Council => "Specialists negotiate shared work"@,
        GovernanceKind::Democracy => "Vote for peace, food, and public works"@,
    }
}

impl GovernanceKind {
    /// The name under which the form of government is shown.
    pub fn label(self) -> (r: &'static str)
        ensures
            r@ == governance_label(self),
    {
        match self {
            GovernanceKind::KinCircle => "Kin Circle",
            GovernanceKind::Leader => "Leader",
            GovernanceKind::Council => "Council",
            GovernanceKind::Democracy => "Democracy",
        }
    }

    /// The policy a faction follows under this form of government.
    pub fn policy(self) -> (r: &'static str)
        ensures
            r@ == policy_of(self),
    {
        match self {
            GovernanceKind::KinCircle => "Keep kin alive",
            GovernanceKind::Leader => "Follow the strongest organizer",
            GovernanceKind::Council => "Specialists negotiate shared work",
            GovernanceKind::Democracy => "Vote for peace, food, and public works",
        }
    }
}

/// What decides a faction's government. The flags stand for comparisons of
/// the members' averaged measures.
#[derive(Clone, Copy, Debug)]
pub struct GovernanceFacts {
    /// Members who have reached maturity.
    pub adults: usize,
    /// Cohesion is below 0.32.
    pub fragile: bool,
    /// Governance share above 0.45, teaching share above 0.30, peace bias
    /// above 0.56 and care at least 0.95 of the pull toward sovereignty.
    pub democratic: bool,
    /// Governance share above 0.22, builders and scholars above 0.80 and
    /// cohesion above 0.46.
    pub deliberative: bool,
    /// The pull toward sovereignty exceeds 0.95 of care and cohesion is
    /// above 0.44.
    pub sovereign: bool,
}

/// The government a faction settles on.
pub open spec fn governance_for(f: GovernanceFacts) -> GovernanceKind {
    if f.adults < 3 || f.fragile {
        GovernanceKind::KinCircle
    } else if f.democratic {
        GovernanceKind::Democracy
    } else if f.deliberative {
        GovernanceKind::Council
    } else if f.sovereign {
        GovernanceKind::Leader
    } else {
        GovernanceKind::KinCircle
    }
}

/// The government a faction settles on.
pub fn next_governance(f: &GovernanceFacts) -> (r: GovernanceKind)
    ensures
        r == governance_for(*f),
{
    if f.adults < 3 || f.fragile {
        GovernanceKind::KinCircle
    } else if f.democratic {
        GovernanceKind::Democracy
    } else if f.deliberative {
        GovernanceKind::Council
    } else if f.sovereign {
        GovernanceKind::Leader
    } else {
        GovernanceKind::KinCircle
    }
}

/// The candidate with the highest score; of several equally high, the last.
pub open spec fn best_from(candidates: Seq<(u64, i64)>, n: int) -> Option<(u64, i64)>
    decreases n,
{
    if n <= 0 {
        None
    } else {
        match best_from(candidates, n - 1) {
            None => Some(candidates[n - 1]),
            Some(b) => if candidates[n - 1].1 >= b.1 { Some(candidates[n - 1]) } else { Some(b) },
        }
    }
}

/// The faction's leader: under a single leader, the member with the highest
/// leadership score (the last of several equal ones); under any other
/// government, nobody. Members are given as (id, score), the score as an
/// integer in the order of the leadership measure.
pub fn choose_leader(governance: GovernanceKind, members: &Vec<(u64, i64)>) -> (r: Option<u64>)
    ensures
        governance != GovernanceKind::Leader ==> r is None,
        governance == GovernanceKind::Leader ==> r == (match best_from(members@, members@.len() as int) {
            Some(b) => Some(b.0),
            None => None,
        }),
{
    if governance != GovernanceKind::Leader {
        return None;
    }
    let mut best: Option<(u64, i64)> = None;
    let mut i: usize = 0;
    while i < members.len()
        invariant
            i <= members@.len(),
            best == best_from(members@, i as int),
        decreases members@.len() - i,
    {
        let m = members[i];
        best = match best {
            None => Some(m),
            Some(b) => if m.1 >= b.1 { Some(m) } else { Some(b) },
        };
        i = i + 1;
    }
    match best {
        Some(b) => Some(b.0),
        None => None,
    }
}

/// Under a single leader, the leader's score matches or beats every member's.
pub proof fn lemma_leader_is_best(members: Seq<(u64, i64)>, n: int)
    requires
        0 <= n <= members.len(),
    ensures
        best_from(members, n) matches Some(b) ==>
            (forall|i: int| 0 <= i < n ==> b.1 >= #[trigger] members[i].1)
            && exists|i: int| 0 <= i < n && members[i] == b,
        n > 0 ==> best_from(members, n) is Some,
    decreases n,
{
    if n > 0 {
        lemma_leader_is_best(members, n - 1);
    }
}

/// What decides whether two factions go to war or make peace.
#[derive(Clone, Copy, Debug)]
pub struct WarFacts {
    /// Hostility between them is above 0.74.
    pub hostile: bool,
    /// Their feud has lasted more than 45 days.
    pub long_feud: bool,
    pub left_adults: usize,
    pub right_adults: usize,
    /// Hostility has fallen below 0.34.
    pub calm: bool,
    /// Their combined peace measure is above 0.46.
    pub peaceable: bool,
}

/// How a faction's government follows from its facts: fewer than three
/// adults or a fragile bond keep a kin circle; otherwise a democratic
/// faction is a democracy whatever else holds, a deliberative one that is
/// not democratic a council, a sovereign one that is neither a leader, and
/// any other a kin circle. A government other than a kin circle is only
/// ever formed by at least three adults in a bond that is not fragile.
pub proof fn lemma_government_follows_facts(f: GovernanceFacts)
    ensures
        (f.adults < 3 || f.fragile) ==> governance_for(f) == GovernanceKind::KinCircle,
        f.adults >= 3 && !f.fragile && f.democratic ==> governance_for(f) == GovernanceKind::Democracy,
        f.adults >= 3 && !f.fragile && !f.democratic && f.deliberative
            ==> governance_for(f) == GovernanceKind::Council,
        f.adults >= 3 && !f.fragile && !f.democratic && !f.deliberative && f.sovereign
            ==> governance_for(f) == GovernanceKind::Leader,
        !f.democratic && !f.deliberative && !f.sovereign ==> governance_for(f) == GovernanceKind::KinCircle,
        governance_for(f) != GovernanceKind::KinCircle ==> f.adults >= 3 && !f.fragile,
        governance_for(f) == GovernanceKind::Council ==> f.deliberative && !f.democratic,
        governance_for(f) == GovernanceKind::Leader ==> f.sovereign && !f.democratic && !f.deliberative,
{
}

/// Two factions at peace go to war after a long, hostile feud when each has
/// at least four adults.
pub open spec fn war_breaks_out(at_war: bool, f: WarFacts) -> bool {
    !at_war && f.hostile && f.long_feud && f.left_adults >= 4 && f.right_adults >= 4
}

/// Two factions at war make peace once hostility is calm and they are
/// peaceable.
pub open spec fn peace_is_made(at_war: bool, f: WarFacts) -> bool {
    at_war && f.calm && f.peaceable
}

/// The war state of two factions after a day's diplomacy, and whether their
/// feud is forgotten (it is, when peace is made).
pub fn war_status(at_war: bool, f: &WarFacts) -> (r: (bool, bool))
    ensures
        r.0 == (if war_breaks_out(at_war, *f) { true } else if peace_is_made(at_war, *f) { false } else { at_war }),
        r.1 == peace_is_made(at_war, *f),
{
    let mut now_at_war = at_war;
    let mut feud_reset = false;
    if !now_at_war && f.hostile && f.long_feud && f.left_adults >= 4 && f.right_adults >= 4 {
        now_at_war = true;
    }
    if now_at_war && f.calm && f.peaceable {
        if at_war {
            now_at_war = false;
            feud_reset = true;
        }
    }
    (now_at_war, feud_reset)
}

/// How two factions' war state moves in a day. Factions at peace go to war
/// exactly when they are hostile, their feud is long and each side has at
/// least four adults; no war starts before the feud is long. Factions at
/// war make peace exactly when they are calm and peaceable, and only then
/// is their feud forgotten. A war state is otherwise kept.
pub proof fn lemma_war_and_peace(at_war: bool, f: WarFacts)
    ensures
        ({
            let after = if war_breaks_out(at_war, f) { true } else if peace_is_made(at_war, f) { false } else { at_war };
            &&& !at_war ==> (after <==> (f.hostile && f.long_feud && f.left_adults >= 4 && f.right_adults >= 4))
            &&& !at_war && !f.long_feud ==> !after
            &&& at_war ==> (!after <==> (f.calm && f.peaceable))
            &&& peace_is_made(at_war, f) <==> (at_war && f.calm && f.peaceable)
            &&& peace_is_made(at_war, f) ==> !after
        }),
{
}

/// The key under which the relation of two factions is kept: the pair in
/// ascending order.
pub open spec fn relation_key_of(a: u64, b: u64) -> (u64, u64) {
    if a <= b { (a, b) } else { (b, a) }
}

/// The key under which the relation of two factions is kept.
pub fn relation_key(a: u64, b: u64) -> (r: (u64, u64))
    ensures
        r == relation_key_of(a, b),
{
    if a <= b {
        (a, b)
    } else {
        (b, a)
    }
}

/// A relation is the same whichever faction is named first, so what is
/// kept for (a, b) is what is read for (b, a).
pub proof fn lemma_relation_key_symmetric(a: u64, b: u64)
    ensures
        relation_key_of(a, b) == relation_key_of(b, a),
        relation_key_of(a, b).0 <= relation_key_of(a, b).1,
        relation_key_of(relation_key_of(a, b).0, relation_key_of(a, b).1) == relation_key_of(a, b),
{
}

/// A faction is at war when any relation that names it is at war.
pub open spec fn at_war_in(faction: u64, relations: Seq<((u64, u64), bool)>) -> bool {
    exists|i: int| 0 <= i < relations.len() && (#[trigger] relations[i]).1
        && (relations[i].0.0 == faction || relations[i].0.1 == faction)
}

/// Whether a faction is at war with anyone, given each relation's key and
/// war state.
pub fn faction_at_war(faction: u64, relations: &Vec<((u64, u64), bool)>) -> (r: bool)
    ensures
        r == at_war_in(faction, relations@),
{
    let mut i: usize = 0;
    while i < relations.len()
        invariant
            i <= relations@.len(),
            forall|k: int| 0 <= k < i ==> !((#[trigger] relations@[k]).1
                && (relations@[k].0.0 == faction || relations@[k].0.1 == faction)),
        decreases relations@.len() - i,
    {
        let (key, war) = relations[i];
        if war && (key.0 == faction || key.1 == faction) {
            assert(relations@[i as int].1);
            return true;
        }
        i = i + 1;
    }
    false
}

} // verus!
