//! Territory: which faction leads a tile's presence scores, and the
//! milestones a faction's holdings pass.
//!
//! Presence scores are integers in the order of the scores they stand for,
//! with zero standing for no presence.
use vstd::prelude::*;

verus! {

/// The leader's position and the best and second-best scores among the first
/// `n` scores, scanning in order and counting only scores above zero.
pub open spec fn leaders(scores: Seq<i64>, n: int) -> (Option<int>, i64, i64)
    decreases n,
{
    if n <= 0 {
        (None, 0, 0)
    } else {
        let (idx, best, second) = leaders(scores, n - 1);
        let s = scores[n - 1];
        if s > best {
            (Some(n - 1), s, best)
        } else if s > second {
            (idx, best, s)
        } else {
            (idx, best, second)
        }
    }
}

/// The faction (by position) with the highest presence score above zero, the
/// first of several equal ones, with the best and second-best scores.
pub fn leading_scores(scores: &Vec<i64>) -> (r: (Option<usize>, i64, i64))
    ensures
        ({
            let (idx, best, second) = leaders(scores@, scores@.len() as int);
            &&& r.1 == best
            &&& r.2 == second
            &&& match idx {
                Some(i) => r.0 == Some(i as usize),
                None => r.0 is None,
            }
        }),
{
    let mut best_idx: Option<usize> = None;
    let mut best: i64 = 0;
    let mut second: i64 = 0;
    let mut i: usize = 0;
    while i < scores.len()
        invariant
            i <= scores@.len(),
            ({
                let (idx, b, s) = leaders(scores@, i as int);
                &&& best == b
                &&& second == s
                &&& match idx {
                    Some(k) => best_idx == Some(k as usize) && 0 <= k < i,
                    None => best_idx is None,
                }
            }),
        decreases scores@.len() - i,
    {
        let s = scores[i];
        if s > best {
            second = best;
            best = s;
            best_idx = Some(i);
        } else if s > second {
            second = s;
        }
        i = i + 1;
    }
    (best_idx, best, second)
}

/// The best score is at least every score and at least the second best, and
/// the leader's own score is the best.
pub proof fn lemma_leaders(scores: Seq<i64>, n: int)
    requires
        0 <= n <= scores.len(),
    ensures
        ({
            let (idx, best, second) = leaders(scores, n);
            &&& forall|i: int| 0 <= i < n ==> #[trigger] scores[i] <= best
            &&& second <= best
            &&& 0 <= second
            &&& (idx matches Some(k) ==> 0 <= k < n && scores[k] == best && best > 0)
            &&& (idx is None ==> best == 0)
        }),
    decreases n,
{
    if n > 0 {
        lemma_leaders(scores, n - 1);
    }
}

/// The tile counts at which a faction's holdings are announced.
pub open spec fn milestone_steps() -> Seq<nat> {
    seq![10, 25, 50, 80, 120]
}

fn milestone_step(i: usize) -> (r: usize)
    requires
        i < 5,
    ensures
        r == milestone_steps()[i as int],
{
    match i {
        0 => 10,
        1 => 25,
        2 => 50,
        3 => 80,
        _ => 120,
    }
}

/// How many milestones a faction holding `count` tiles has passed, having
/// passed `progress` before: it moves on while the next milestone is reached.
pub open spec fn milestones_passed(progress: nat, count: nat) -> nat
    decreases 5 - progress,
{
    if progress < 5 && count >= milestone_steps()[progress as int] {
        milestones_passed(progress + 1, count)
    } else {
        progress
    }
}

/// The milestones passed after a faction is seen holding `count` tiles; one
/// announcement is made for each milestone newly passed.
pub fn advance_milestones(progress: usize, count: usize) -> (r: usize)
    ensures
        r == milestones_passed(progress as nat, count as nat),
        progress <= r,
{
    let mut idx = progress;
    while idx < 5 && count >= milestone_step(idx)
        invariant
            progress <= idx,
            milestones_passed(progress as nat, count as nat) == milestones_passed(idx as nat, count as nat),
        decreases 5 - idx,
    {
        idx = idx + 1;
    }
    idx
}

/// Progress never falls back, passes only milestones the count reaches, and
/// seeing the same count again announces nothing new.
pub proof fn lemma_milestones(progress: nat, count: nat)
    ensures
        progress <= milestones_passed(progress, count),
        milestones_passed(progress, count) <= if progress > 5 { progress } else { 5 },
        milestones_passed(progress, count) > progress ==> count >= milestone_steps()[progress as int],
        milestones_passed(milestones_passed(progress, count), count) == milestones_passed(progress, count),
    decreases 5 - progress,
{
    if progress < 5 && count >= milestone_steps()[progress as int] {
        lemma_milestones(progress + 1, count);
    }
}

} // verus!
