//! Bounded logs: a log keeps only its most recent entries.
use vstd::prelude::*;

verus! {

/// What a log of capacity `max` keeps of `entries`: all of them when they
/// fit, otherwise the last `max`.
pub open spec fn kept_tail<T>(entries: Seq<T>, max: nat) -> Seq<T> {
    if entries.len() > max {
        entries.skip(entries.len() - max)
    } else {
        entries
    }
}

/// Drops the oldest entries until at most `max` remain.
pub fn trim_to_capacity<T>(entries: &mut Vec<T>, max: usize)
    ensures
        final(entries)@ == kept_tail(old(entries)@, max as nat),
{
    if entries.len() > max {
        let overflow = entries.len() - max;
        let tail = entries.split_off(overflow);
        *entries = tail;
        proof {
            assert(final(entries)@ =~= old(entries)@.skip(overflow as int));
        }
    }
}

/// Appends `incoming` in order, then drops the oldest entries until at most
/// `max` remain.
pub fn append_trimmed<T>(entries: &mut Vec<T>, incoming: Vec<T>, max: usize)
    ensures
        final(entries)@ == kept_tail(old(entries)@ + incoming@, max as nat),
{
    let mut incoming = incoming;
    entries.append(&mut incoming);
    trim_to_capacity(entries, max);
}

/// Appends one entry, then drops the oldest entries until at most `max`
/// remain.
pub fn push_trimmed<T>(entries: &mut Vec<T>, entry: T, max: usize)
    ensures
        final(entries)@ == kept_tail(old(entries)@.push(entry), max as nat),
{
    entries.push(entry);
    trim_to_capacity(entries, max);
}

/// A log never holds more than its capacity once trimmed, and what it holds
/// is the most recent part of what was written, in order.
pub proof fn lemma_kept_tail_is_recent_suffix<T>(entries: Seq<T>, max: nat)
    ensures
        kept_tail(entries, max).len() <= max || kept_tail(entries, max) == entries,
        kept_tail(entries, max).len() <= entries.len(),
        kept_tail(entries, max).len() == (if entries.len() > max { max } else { entries.len() }),
        forall|i: int| 0 <= i < kept_tail(entries, max).len() ==>
            #[trigger] kept_tail(entries, max)[i] == entries[entries.len() - kept_tail(entries, max).len() + i],
{
}

/// Trimming twice to the same capacity is the same as trimming once.
pub proof fn lemma_trim_idempotent<T>(entries: Seq<T>, max: nat)
    ensures
        kept_tail(kept_tail(entries, max), max) == kept_tail(entries, max),
{
}

} // verus!
