//! Reading the logs: how many recent deaths had a given cause, and how
//! many births and deaths a stretch of the event log holds.
use vstd::prelude::*;
use crate::text::{str_contains, seq_contains};
use crate::labels::LogEventKind;

verus! {

/// The reason mentions at least one of the words.
pub open spec fn mentions_any(reason: Seq<char>, words: Seq<Seq<char>>) -> bool {
    exists|j: int| 0 <= j < words.len() && seq_contains(reason, #[trigger] words[j])
}

/// How many of the first `n` reasons mention at least one of the words.
pub open spec fn count_mentioning(reasons: Seq<Seq<char>>, words: Seq<Seq<char>>, n: int) -> nat
    decreases n,
{
    if n <= 0 {
        0
    } else {
        count_mentioning(reasons, words, n - 1) + if mentions_any(reasons[n - 1], words) { 1nat } else { 0nat }
    }
}

fn mentions_any_of(reason: &str, words: &Vec<&str>) -> (r: bool)
    ensures
        r == mentions_any(reason@, words@.map_values(|w: &str| w@)),
{
    let ghost ws = words@.map_values(|w: &str| w@);
    let mut j: usize = 0;
    while j < words.len()
        invariant
            ws == words@.map_values(|w: &str| w@),
            j <= words@.len(),
            forall|k: int| 0 <= k < j ==> !seq_contains(reason@, #[trigger] ws[k]),
        decreases words@.len() - j,
    {
        if str_contains(reason, words[j]) {
            assert(seq_contains(reason@, ws[j as int]));
            return true;
        }
        j = j + 1;
    }
    false
}

/// How many death reasons mention at least one of `words`, such as the
/// cold deaths or the predator deaths of a recent stretch of the death log.
pub fn count_deaths_mentioning(reasons: &Vec<String>, words: &Vec<&str>) -> (r: usize)
    ensures
        r == count_mentioning(reasons@.map_values(|s: String| s@), words@.map_values(|w: &str| w@),
            reasons@.len() as int),
{
    let ghost rs = reasons@.map_values(|s: String| s@);
    let ghost ws = words@.map_values(|w: &str| w@);
    let mut count: usize = 0;
    let mut i: usize = 0;
    while i < reasons.len()
        invariant
            rs == reasons@.map_values(|s: String| s@),
            ws == words@.map_values(|w: &str| w@),
            i <= reasons@.len(),
            count == count_mentioning(rs, ws, i as int),
            count <= i,
        decreases reasons@.len() - i,
    {
        if mentions_any_of(reasons[i].as_str(), words) {
            count = count + 1;
        }
        i = i + 1;
    }
    count
}

/// How many of the first `n` entries are of `kind`.
pub open spec fn count_kind(kinds: Seq<LogEventKind>, kind: LogEventKind, n: int) -> nat
    decreases n,
{
    if n <= 0 {
        0
    } else {
        count_kind(kinds, kind, n - 1) + if kinds[n - 1] == kind { 1nat } else { 0nat }
    }
}

/// The births and the deaths among a stretch of event log entries, given
/// by their kinds.
pub fn birth_death_counts(kinds: &Vec<LogEventKind>) -> (r: (usize, usize))
    ensures
        r.0 == count_kind(kinds@, LogEventKind::Birth, kinds@.len() as int),
        r.1 == count_kind(kinds@, LogEventKind::Death, kinds@.len() as int),
{
    let mut births: usize = 0;
    let mut deaths: usize = 0;
    let mut i: usize = 0;
    while i < kinds.len()
        invariant
            i <= kinds@.len(),
            births == count_kind(kinds@, LogEventKind::Birth, i as int),
            deaths == count_kind(kinds@, LogEventKind::Death, i as int),
            births + deaths <= i,
        decreases kinds@.len() - i,
    {
        match kinds[i] {
            LogEventKind::Birth => births = births + 1,
            LogEventKind::Death => deaths = deaths + 1,
            _ => {}
        }
        i = i + 1;
    }
    (births, deaths)
}

} // verus!
