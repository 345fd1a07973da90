//! The registry: which identifiers are live, and how often and until when each
//! may still be downloaded.

use vstd::prelude::*;
use crate::entry::{Entry, EntryView};
use crate::model::{
    after_consume, after_create, after_sweep, consume_outcome, expired_ids, keyed_by_id,
    lists_expired, names, ConsumeOutcomeView,
};
use crate::text::same_text;

verus! {

/// The identifier offered to [`Registry::create`] is already live.
#[derive(Clone, Copy, Debug, PartialEq, Eq, Structural)]
pub struct Conflict;

/// Slot `i` of `s` holds the entry named `k`.
spec fn holds(s: Seq<Entry>, i: int, k: Seq<char>) -> bool {
    0 <= i < s.len() && s[i].id@ == k
}

/// No identifier occurs in two slots.
spec fn distinct_ids(s: Seq<Entry>) -> bool {
    forall|i: int, j: int| 0 <= i < j < s.len() ==> s[i].id@ != s[j].id@
}

/// A slot of `s` that holds the entry named `k`, if there is one.
spec fn slot_of(s: Seq<Entry>, k: Seq<char>) -> int {
    choose|i: int| holds(s, i, k)
}

/// The map that the slots of `s` stand for.
spec fn as_map(s: Seq<Entry>) -> Map<Seq<char>, EntryView> {
    Map::new(|k: Seq<char>| exists|i: int| holds(s, i, k), |k: Seq<char>| s[slot_of(s, k)]@)
}

proof fn lemma_slot(s: Seq<Entry>, i: int)
    requires
        distinct_ids(s),
        0 <= i < s.len(),
    ensures
        as_map(s).contains_key(s[i].id@),
        as_map(s)[s[i].id@] == s[i]@,
        slot_of(s, s[i].id@) == i,
{
    assert(holds(s, i, s[i].id@));
    let j = slot_of(s, s[i].id@);
    assert(holds(s, j, s[i].id@));
}

proof fn lemma_keyed(s: Seq<Entry>)
    requires
        distinct_ids(s),
    ensures
        keyed_by_id(as_map(s)),
{
    assert forall|k: Seq<char>| as_map(s).contains_key(k) implies (#[trigger] as_map(s)[k]).id
        == k by {
        let i = slot_of(s, k);
        assert(holds(s, i, k));
    }
}

proof fn lemma_push(s: Seq<Entry>, e: Entry)
    requires
        distinct_ids(s),
        !as_map(s).contains_key(e.id@),
    ensures
        distinct_ids(s.push(e)),
        as_map(s.push(e)) == as_map(s).insert(e.id@, e@),
{
    let t = s.push(e);
    assert forall|i: int, j: int| 0 <= i < j < t.len() implies t[i].id@ != t[j].id@ by {
        if j == s.len() {
            assert(holds(s, i, s[i].id@));
        }
    }
    assert forall|k: Seq<char>| as_map(t).contains_key(k) <==> as_map(s).insert(
        e.id@,
        e@,
    ).contains_key(k) by {
        if as_map(t).contains_key(k) {
            let i = slot_of(t, k);
            assert(holds(t, i, k));
            if i < s.len() {
                assert(holds(s, i, k));
            }
        }
        if as_map(s).contains_key(k) {
            let i = slot_of(s, k);
            assert(holds(s, i, k));
            assert(holds(t, i, k));
        }
        if k == e.id@ {
            assert(holds(t, s.len() as int, k));
        }
    }
    assert forall|k: Seq<char>| as_map(t).contains_key(k) implies as_map(t)[k] == as_map(
        s,
    ).insert(e.id@, e@)[k] by {
        let i = slot_of(t, k);
        assert(holds(t, i, k));
        lemma_slot(t, i);
        if i < s.len() {
            lemma_slot(s, i);
        }
    }
    assert(as_map(t) =~= as_map(s).insert(e.id@, e@));
}

proof fn lemma_count(s: Seq<Entry>)
    requires
        distinct_ids(s),
    ensures
        as_map(s).dom().finite(),
        as_map(s).dom().len() == s.len(),
    decreases s.len(),
{
    if s.len() == 0 {
        assert(as_map(s).dom() =~= Set::<Seq<char>>::empty()) by {
            assert forall|k: Seq<char>| !as_map(s).contains_key(k) by {
                if as_map(s).contains_key(k) {
                    assert(holds(s, slot_of(s, k), k));
                }
            }
        }
    } else {
        let front = s.drop_last();
        let e = s.last();
        assert(!as_map(front).contains_key(e.id@)) by {
            if as_map(front).contains_key(e.id@) {
                assert(holds(front, slot_of(front, e.id@), e.id@));
            }
        }
        lemma_count(front);
        lemma_push(front, e);
        assert(front.push(e) == s);
        assert(as_map(s).dom() =~= as_map(front).dom().insert(e.id@));
    }
}

proof fn lemma_swap_remove(s: Seq<Entry>, i: int)
    requires
        distinct_ids(s),
        0 <= i < s.len(),
    ensures
        distinct_ids(s.update(i, s.last()).drop_last()),
        as_map(s.update(i, s.last()).drop_last()) == as_map(s).remove(s[i].id@),
{
    let t = s.update(i, s.last()).drop_last();
    let last = s.len() - 1;
    // Slot `j` of `t` holds what slot `from(j)` of `s` held.
    let from = |j: int| if j == i { last } else { j };
    assert forall|j: int| 0 <= j < t.len() implies t[j] == s[from(j)] by {}
    assert forall|a: int, b: int| 0 <= a < b < t.len() implies t[a].id@ != t[b].id@ by {
        assert(t[a] == s[from(a)]);
        assert(t[b] == s[from(b)]);
    }
    assert forall|k: Seq<char>| as_map(t).contains_key(k) <==> as_map(s).remove(
        s[i].id@,
    ).contains_key(k) by {
        if as_map(t).contains_key(k) {
            let j = slot_of(t, k);
            assert(holds(t, j, k));
            assert(holds(s, from(j), k));
        }
        if as_map(s).contains_key(k) && k != s[i].id@ {
            let j = slot_of(s, k);
            assert(holds(s, j, k));
            if j == last {
                assert(holds(t, i, k));
            } else {
                assert(holds(t, j, k));
            }
        }
    }
    assert forall|k: Seq<char>| as_map(t).contains_key(k) implies as_map(t)[k] == as_map(
        s,
    ).remove(s[i].id@)[k] by {
        let j = slot_of(t, k);
        assert(holds(t, j, k));
        lemma_slot(t, j);
        lemma_slot(s, from(j));
    }
    assert(as_map(t) =~= as_map(s).remove(s[i].id@));
}

proof fn lemma_update(s: Seq<Entry>, i: int, e: Entry)
    requires
        distinct_ids(s),
        0 <= i < s.len(),
        e.id@ == s[i].id@,
    ensures
        distinct_ids(s.update(i, e)),
        as_map(s.update(i, e)) == as_map(s).insert(e.id@, e@),
{
    let t = s.update(i, e);
    assert forall|a: int, b: int| 0 <= a < b < t.len() implies t[a].id@ != t[b].id@ by {
        assert(t[a].id@ == s[a].id@);
        assert(t[b].id@ == s[b].id@);
    }
    assert forall|k: Seq<char>| as_map(t).contains_key(k) <==> as_map(s).insert(
        e.id@,
        e@,
    ).contains_key(k) by {
        if as_map(t).contains_key(k) {
            let j = slot_of(t, k);
            assert(holds(t, j, k));
            assert(holds(s, j, k));
        }
        if as_map(s).contains_key(k) {
            let j = slot_of(s, k);
            assert(holds(s, j, k));
            assert(holds(t, j, k));
        }
        if k == e.id@ {
            assert(holds(t, i, k));
        }
    }
    assert forall|k: Seq<char>| as_map(t).contains_key(k) implies as_map(t)[k] == as_map(
        s,
    ).insert(e.id@, e@)[k] by {
        let j = slot_of(t, k);
        assert(holds(t, j, k));
        lemma_slot(t, j);
        lemma_slot(s, j);
    }
    assert(as_map(t) =~= as_map(s).insert(e.id@, e@));
}

/// What [`Registry::consume`] answers.
#[derive(Debug, PartialEq, Eq)]
pub enum ConsumeOutcome {
    /// No live entry has this identifier.
    NotFound,
    /// The entry had reached its deadline and was removed: the payload at
    /// `location` is to be deleted.
    Expired { location: String },
    /// The entry as it stood before this download. With `terminal` set it was
    /// removed, and its payload is to be deleted once it has been read.
    Served { entry: Entry, terminal: bool },
}

impl View for ConsumeOutcome {
    type V = ConsumeOutcomeView;

    open spec fn view(&self) -> ConsumeOutcomeView {
        match *self {
            ConsumeOutcome::NotFound => ConsumeOutcomeView::NotFound,
            ConsumeOutcome::Expired { location } => ConsumeOutcomeView::Expired {
                location: location@,
            },
            ConsumeOutcome::Served { entry, terminal } => ConsumeOutcomeView::Served {
                entry: entry@,
                terminal,
            },
        }
    }
}

/// The live entries of the service.
///
/// Seen from outside, a registry is a map from identifier to entry (its view).
pub struct Registry {
    entries: Vec<Entry>,
}

impl View for Registry {
    type V = Map<Seq<char>, EntryView>;

    closed spec fn view(&self) -> Map<Seq<char>, EntryView> {
        as_map(self.entries@)
    }
}

impl Registry {
    #[verifier::type_invariant]
    spec fn well_formed(&self) -> bool {
        distinct_ids(self.entries@)
    }

    /// A registry without entries.
    pub fn new() -> (registry: Registry)
        ensures
            registry@ == Map::<Seq<char>, EntryView>::empty(),
    {
        let registry = Registry { entries: Vec::new() };
        assert(registry@ =~= Map::<Seq<char>, EntryView>::empty()) by {
            assert forall|k: Seq<char>| !registry@.contains_key(k) by {
                if registry@.contains_key(k) {
                    let i = slot_of(registry.entries@, k);
                    assert(holds(registry.entries@, i, k));
                }
            }
        }
        registry
    }

    /// Moves the slots out and leaves none behind, so that they can be changed
    /// step by step and put back as a whole.
    fn take_entries(&mut self) -> (entries: Vec<Entry>)
        ensures
            entries@ == old(self).entries@,
            final(self).entries@ == Seq::<Entry>::empty(),
    {
        let mut entries: Vec<Entry> = Vec::new();
        core::mem::swap(&mut self.entries, &mut entries);
        entries
    }

    /// The slot that holds the entry named `id`.
    fn find(&self, id: &str) -> (slot: Option<usize>)
        ensures
            match slot {
                Some(i) => holds(self.entries@, i as int, id@),
                None => !self@.contains_key(id@),
            },
    {
        let mut i: usize = 0;
        while i < self.entries.len()
            invariant
                i <= self.entries.len(),
                forall|j: int| 0 <= j < i ==> !holds(self.entries@, j, id@),
            decreases self.entries.len() - i,
        {
            if same_text(self.entries[i].id.as_str(), id) {
                return Some(i);
            }
            i += 1;
        }
        assert(!self@.contains_key(id@)) by {
            if self@.contains_key(id@) {
                let j = slot_of(self.entries@, id@);
                assert(holds(self.entries@, j, id@));
            }
        }
        None
    }

    /// The number of live entries.
    pub fn len(&self) -> (count: usize)
        ensures
            self@.dom().finite(),
            count == self@.len(),
    {
        proof {
            use_type_invariant(self);
            lemma_count(self.entries@);
        }
        self.entries.len()
    }

    /// The entry named `id` as it stands, if it is live. Nothing is consumed.
    pub fn get(&self, id: &str) -> (found: Option<&Entry>)
        ensures
            match found {
                Some(entry) => self@.contains_key(id@) && entry@ == self@[id@],
                None => !self@.contains_key(id@),
            },
    {
        proof {
            use_type_invariant(self);
        }
        match self.find(id) {
            Some(i) => {
                proof {
                    lemma_slot(self.entries@, i as int);
                }
                Some(&self.entries[i])
            },
            None => None,
        }
    }

    /// Whether `id` names a live entry.
    pub fn contains(&self, id: &str) -> (live: bool)
        ensures
            live == self@.contains_key(id@),
    {
        proof {
            use_type_invariant(self);
        }
        match self.find(id) {
            Some(i) => {
                proof {
                    lemma_slot(self.entries@, i as int);
                }
                true
            },
            None => false,
        }
    }

    /// Publishes `entry`, whose payload has been written, under its identifier.
    ///
    /// An identifier that is already live is refused, and the registry is left
    /// as it was.
    pub fn create(&mut self, entry: Entry) -> (result: Result<(), Conflict>)
        ensures
            result is Err <==> old(self)@.contains_key(entry.id@),
            final(self)@ == after_create(old(self)@, entry@),
            keyed_by_id(final(self)@),
    {
        proof {
            use_type_invariant(&*self);
            lemma_keyed(self.entries@);
        }
        match self.find(entry.id.as_str()) {
            Some(i) => {
                proof {
                    lemma_slot(self.entries@, i as int);
                }
                Err(Conflict)
            },
            None => {
                proof {
                    lemma_push(self.entries@, entry);
                    lemma_keyed(self.entries@.push(entry));
                }
                let mut entries = self.take_entries();
                entries.push(entry);
                self.entries = entries;
                Ok(())
            },
        }
    }

    /// Takes one download of `id` at time `now`, in one step.
    ///
    /// An unknown identifier is `NotFound`. An entry whose deadline has been
    /// reached is removed and reported as `Expired`. Otherwise the entry is
    /// served: its last download removes it, any other counts it down by one.
    pub fn consume(&mut self, id: &str, now: u64) -> (outcome: ConsumeOutcome)
        ensures
            outcome@ == consume_outcome(old(self)@, id@, now),
            final(self)@ == after_consume(old(self)@, id@, now),
            keyed_by_id(final(self)@),
    {
        proof {
            use_type_invariant(&*self);
            lemma_keyed(self.entries@);
        }
        let slot = self.find(id);
        let i: usize = match slot {
            Some(i) => i,
            None => {
                return ConsumeOutcome::NotFound;
            },
        };
        proof {
            lemma_slot(self.entries@, i as int);
            lemma_swap_remove(self.entries@, i as int);
            lemma_keyed(self.entries@.update(i as int, self.entries@.last()).drop_last());
        }
        if self.entries[i].is_expired(now) {
            let mut entries = self.take_entries();
            let dead = entries.swap_remove(i);
            self.entries = entries;
            ConsumeOutcome::Expired { location: dead.location }
        } else if self.entries[i].remaining_downloads <= 1 {
            let mut entries = self.take_entries();
            let last = entries.swap_remove(i);
            self.entries = entries;
            ConsumeOutcome::Served { entry: last, terminal: true }
        } else {
            let snapshot = self.entries[i].clone();
            let mut entries = self.take_entries();
            entries[i].remaining_downloads = entries[i].remaining_downloads - 1;
            proof {
                lemma_update(old(self).entries@, i as int, entries@[i as int]);
                lemma_keyed(entries@);
            }
            self.entries = entries;
            ConsumeOutcome::Served { entry: snapshot, terminal: false }
        }
    }

    /// Removes, in one step, every entry whose deadline has been reached at
    /// time `now`, and names each with the location of its payload, which is to
    /// be deleted.
    pub fn sweep_expired(&mut self, now: u64) -> (swept: Vec<(String, String)>)
        ensures
            final(self)@ == after_sweep(old(self)@, now),
            lists_expired(swept@, old(self)@, now),
            keyed_by_id(final(self)@),
    {
        proof {
            use_type_invariant(&*self);
        }
        let ghost before = self@;
        let mut entries = self.take_entries();
        let mut swept: Vec<(String, String)> = Vec::new();
        let mut i: usize = 0;
        proof {
            assert forall|j: int| 0 <= j < entries.len() implies before.contains_key(
                #[trigger] entries@[j].id@,
            ) && before[entries@[j].id@] == entries@[j]@ by {
                lemma_slot(entries@, j);
            }
            assert forall|k: Seq<char>| before.contains_key(k) implies exists|j: int|
                holds(entries@, j, k) by {
                assert(holds(entries@, slot_of(entries@, k), k));
            }
        }
        while i < entries.len()
            invariant
                i <= entries.len(),
                distinct_ids(entries@),
                forall|j: int| 0 <= j < i ==> !(#[trigger] entries@[j])@.expired(now),
                forall|j: int|
                    0 <= j < entries.len() ==> before.contains_key(#[trigger] entries@[j].id@)
                        && before[entries@[j].id@] == entries@[j]@,
                forall|j: int, k: Seq<char>| #[trigger]
                    names(swept@, j, k) ==> expired_ids(before, now).contains(k) && swept@[j].1@
                        == before[k].location,
                forall|k: Seq<char>|
                    before.contains_key(k) ==> (exists|j: int| holds(entries@, j, k)) || (
                    exists|j: int| names(swept@, j, k)),
                forall|a: int, b: int, k: Seq<char>|
                    #![trigger names(swept@, a, k), names(swept@, b, k)]
                    names(swept@, a, k) && names(swept@, b, k) ==> a == b,
                forall|a: int, j: int, k: Seq<char>|
                    #![trigger names(swept@, a, k), holds(entries@, j, k)]
                    !(names(swept@, a, k) && holds(entries@, j, k)),
            decreases entries.len() - i,
        {
            if entries[i].is_expired(now) {
                let ghost s = entries@;
                let ghost w = swept@;
                let ghost last = s.len() - 1;
                let dead = entries.swap_remove(i);
                swept.push((dead.id, dead.location));
                proof {
                    let t = entries@;
                    let v = swept@;
                    let gone = s[i as int].id@;
                    lemma_swap_remove(s, i as int);
                    assert(names(v, w.len() as int, gone));
                    assert(holds(s, i as int, gone));
                    // Slot `j` of `t` holds what slot `from(j)` of `s` held.
                    let from = |j: int| if j == i { last } else { j };
                    assert forall|j: int| 0 <= j < t.len() implies t[j] == s[from(j)] by {}
                    assert forall|j: int| 0 <= j < i implies !(#[trigger] t[j])@.expired(now) by {
                        assert(t[j] == s[from(j)]);
                    }
                    assert forall|j: int| 0 <= j < t.len() implies before.contains_key(
                        #[trigger] t[j].id@,
                    ) && before[t[j].id@] == t[j]@ by {
                        assert(t[j] == s[from(j)]);
                    }
                    assert forall|j: int, k: Seq<char>| #[trigger]
                        names(v, j, k) implies expired_ids(before, now).contains(k) && v[j].1@
                        == before[k].location by {
                        if j < w.len() {
                            assert(names(w, j, k));
                        }
                    }
                    assert forall|k: Seq<char>| before.contains_key(k) implies (exists|j: int|
                        holds(t, j, k)) || (exists|j: int| names(v, j, k)) by {
                        if exists|j: int| names(w, j, k) {
                            let j = choose|j: int| names(w, j, k);
                            assert(names(v, j, k));
                        } else {
                            let j = choose|j: int| holds(s, j, k);
                            assert(holds(s, j, k));
                            if j == i {
                                assert(names(v, w.len() as int, k));
                            } else if j == last {
                                assert(holds(t, i as int, k));
                            } else {
                                assert(holds(t, j, k));
                            }
                        }
                    }
                    assert forall|a: int, b: int, k: Seq<char>|
                        #![trigger names(v, a, k), names(v, b, k)]
                        names(v, a, k) && names(v, b, k) implies a == b by {
                        if a < w.len() {
                            assert(names(w, a, k));
                        }
                        if b < w.len() {
                            assert(names(w, b, k));
                        }
                    }
                    assert forall|a: int, j: int, k: Seq<char>|
                        #![trigger names(v, a, k), holds(t, j, k)]
                        !(names(v, a, k) && holds(t, j, k)) by {
                        if names(v, a, k) && holds(t, j, k) {
                            assert(holds(s, from(j), k));
                            if a < w.len() {
                                assert(names(w, a, k));
                            }
                        }
                    }
                }
            } else {
                i += 1;
            }
        }
        proof {
            let t = entries@;
            lemma_keyed(t);
            assert forall|k: Seq<char>| as_map(t).contains_key(k) <==> after_sweep(
                before,
                now,
            ).contains_key(k) by {
                if as_map(t).contains_key(k) {
                    let j = slot_of(t, k);
                    assert(holds(t, j, k));
                }
                if before.contains_key(k) && !before[k].expired(now) {
                    if exists|j: int| names(swept@, j, k) {
                        let j = choose|j: int| names(swept@, j, k);
                        assert(names(swept@, j, k));
                    }
                }
            }
            assert forall|k: Seq<char>| as_map(t).contains_key(k) implies as_map(t)[k]
                == after_sweep(before, now)[k] by {
                let j = slot_of(t, k);
                assert(holds(t, j, k));
                lemma_slot(t, j);
            }
            assert(as_map(t) =~= after_sweep(before, now));
            assert forall|k: Seq<char>| #[trigger]
                expired_ids(before, now).contains(k) implies exists|j: int|
                names(swept@, j, k) by {
                if exists|j: int| holds(t, j, k) {
                    let j = choose|j: int| holds(t, j, k);
                    assert(holds(t, j, k));
                }
            }
        }
        self.entries = entries;
        swept
    }
}

} // verus!
