//! The registry as a mathematical object: a map from identifier to entry, and
//! what each operation makes of it.

use vstd::prelude::*;
use crate::entry::EntryView;

verus! {

/// Every entry is filed under its own identifier.
pub open spec fn keyed_by_id(m: Map<Seq<char>, EntryView>) -> bool {
    forall|k: Seq<char>| m.contains_key(k) ==> (#[trigger] m[k]).id == k
}

/// The registry after `entry` was offered for creation: unchanged if its
/// identifier is taken.
pub open spec fn after_create(m: Map<Seq<char>, EntryView>, entry: EntryView) -> Map<
    Seq<char>,
    EntryView,
> {
    if m.contains_key(entry.id) {
        m
    } else {
        m.insert(entry.id, entry)
    }
}

/// What a consumption answers.
pub enum ConsumeOutcomeView {
    NotFound,
    Expired { location: Seq<char> },
    Served { entry: EntryView, terminal: bool },
}

/// The answer to consuming `id` at time `now`.
pub open spec fn consume_outcome(
    m: Map<Seq<char>, EntryView>,
    id: Seq<char>,
    now: u64,
) -> ConsumeOutcomeView {
    if !m.contains_key(id) {
        ConsumeOutcomeView::NotFound
    } else if m[id].expired(now) {
        ConsumeOutcomeView::Expired { location: m[id].location }
    } else {
        ConsumeOutcomeView::Served { entry: m[id], terminal: m[id].on_last_download() }
    }
}

/// The registry after consuming `id` at time `now`.
pub open spec fn after_consume(m: Map<Seq<char>, EntryView>, id: Seq<char>, now: u64) -> Map<
    Seq<char>,
    EntryView,
> {
    if !m.contains_key(id) {
        m
    } else if m[id].expired(now) || m[id].on_last_download() {
        m.remove(id)
    } else {
        m.insert(id, m[id].after_download())
    }
}

/// The identifiers whose deadline has been reached at time `now`.
pub open spec fn expired_ids(m: Map<Seq<char>, EntryView>, now: u64) -> Set<Seq<char>> {
    Set::new(|k: Seq<char>| m.contains_key(k) && m[k].expired(now))
}

/// The registry after a sweep at time `now`.
pub open spec fn after_sweep(m: Map<Seq<char>, EntryView>, now: u64) -> Map<
    Seq<char>,
    EntryView,
> {
    m.remove_keys(expired_ids(m, now))
}

/// Item `j` of `swept` names the identifier `k`.
pub open spec fn names(swept: Seq<(String, String)>, j: int, k: Seq<char>) -> bool {
    0 <= j < swept.len() && swept[j].0@ == k
}

/// `swept` names each identifier that expired by `now` exactly once, each with
/// the location of its payload.
pub open spec fn lists_expired(
    swept: Seq<(String, String)>,
    m: Map<Seq<char>, EntryView>,
    now: u64,
) -> bool {
    &&& forall|j: int, k: Seq<char>| #[trigger]
        names(swept, j, k) ==> expired_ids(m, now).contains(k) && swept[j].1@ == m[k].location
    &&& forall|k: Seq<char>| #[trigger]
        expired_ids(m, now).contains(k) ==> exists|j: int| names(swept, j, k)
    &&& forall|i: int, j: int, k: Seq<char>|
        #![trigger names(swept, i, k), names(swept, j, k)]
        names(swept, i, k) && names(swept, j, k) ==> i == j
}

} // verus!
