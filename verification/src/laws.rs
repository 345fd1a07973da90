//! What holds of the registry whatever is done with it.

use vstd::prelude::*;
use crate::config::AppConfig;
use crate::entry::EntryView;
use crate::model::{
    after_consume, after_create, after_sweep, consume_outcome, expired_ids, keyed_by_id,
    ConsumeOutcomeView,
};
use crate::upload::{admits, entry_of, UploadPlan};

verus! {

/// One operation on the registry.
pub enum Step {
    /// An entry is offered for creation.
    Create { entry: EntryView },
    /// One download of `id` is taken at time `now`.
    Consume { id: Seq<char>, now: u64 },
    /// The registry is swept at time `now`.
    Sweep { now: u64 },
}

/// The registry after one operation.
pub open spec fn apply(m: Map<Seq<char>, EntryView>, step: Step) -> Map<Seq<char>, EntryView> {
    match step {
        Step::Create { entry } => after_create(m, entry),
        Step::Consume { id, now } => after_consume(m, id, now),
        Step::Sweep { now } => after_sweep(m, now),
    }
}

/// The registry after the operations `steps`, first to last.
pub open spec fn run(m: Map<Seq<char>, EntryView>, steps: Seq<Step>) -> Map<Seq<char>, EntryView>
    decreases steps.len(),
{
    if steps.len() == 0 {
        m
    } else {
        apply(run(m, steps.drop_last()), steps.last())
    }
}

/// None of `steps` offers an entry with the identifier `id`.
pub open spec fn never_creates(steps: Seq<Step>, id: Seq<char>) -> bool {
    forall|i: int|
        0 <= i < steps.len() ==> !(#[trigger] steps[i] matches Step::Create { entry } && entry.id
            == id)
}

/// A download is served from the entry as it stands, and counts it down: the
/// entry is gone afterwards exactly when one download or none was left, and
/// otherwise has one download less and is unchanged in all else.
pub proof fn law_download_counts_down(m: Map<Seq<char>, EntryView>, id: Seq<char>, now: u64)
    requires
        consume_outcome(m, id, now) is Served,
    ensures
        consume_outcome(m, id, now)->entry == m[id],
        !after_consume(m, id, now).contains_key(id) <==> m[id].remaining_downloads <= 1,
        after_consume(m, id, now).contains_key(id) ==> after_consume(m, id, now)[id] == (EntryView {
            remaining_downloads: (m[id].remaining_downloads - 1) as u32,
            ..m[id]
        }),
{
}

/// Of two downloads of one identifier that are both served, with nothing
/// between them, the second sees exactly one download less than the first.
pub proof fn law_successive_downloads_decrease(
    m: Map<Seq<char>, EntryView>,
    id: Seq<char>,
    first: u64,
    second: u64,
)
    requires
        consume_outcome(m, id, first) is Served,
        consume_outcome(after_consume(m, id, first), id, second) is Served,
    ensures
        consume_outcome(after_consume(m, id, first), id, second)->entry.remaining_downloads + 1
            == consume_outcome(m, id, first)->entry.remaining_downloads,
{
}

/// Whatever is done to the registry, short of creating the identifier anew, an
/// entry that is still live is the one that was there: its downloads have not
/// grown, and nothing else of it has changed, its deadline least of all.
pub proof fn law_entries_only_run_down(
    m: Map<Seq<char>, EntryView>,
    steps: Seq<Step>,
    id: Seq<char>,
)
    requires
        never_creates(steps, id),
        run(m, steps).contains_key(id),
    ensures
        m.contains_key(id),
        run(m, steps)[id].remaining_downloads <= m[id].remaining_downloads,
        run(m, steps)[id] == (EntryView {
            remaining_downloads: run(m, steps)[id].remaining_downloads,
            ..m[id]
        }),
    decreases steps.len(),
{
    if steps.len() > 0 {
        let before = run(m, steps.drop_last());
        let step = steps.last();
        assert(never_creates(steps.drop_last(), id)) by {
            assert forall|i: int| 0 <= i < steps.drop_last().len() implies !(
            #[trigger] steps.drop_last()[i] matches Step::Create { entry } && entry.id == id) by {
                assert(steps.drop_last()[i] == steps[i]);
            }
        }
        assert(before.contains_key(id)) by {
            match step {
                Step::Create { entry } => {
                    assert(entry.id != id);
                },
                Step::Consume { id: other, now } => {},
                Step::Sweep { now } => {},
            }
        }
        law_entries_only_run_down(m, steps.drop_last(), id);
    }
}

/// Whatever is done to the registry, every entry stays filed under its own
/// identifier.
pub proof fn law_registry_stays_keyed(m: Map<Seq<char>, EntryView>, steps: Seq<Step>)
    requires
        keyed_by_id(m),
    ensures
        keyed_by_id(run(m, steps)),
    decreases steps.len(),
{
    if steps.len() > 0 {
        law_registry_stays_keyed(m, steps.drop_last());
    }
}

/// Of two downloads of an entry with one download left, in whichever order
/// they reach the registry, at most one is served: the one that comes first
/// is served, and is told that it is the last, unless the deadline has been
/// reached; the one that comes second finds nothing.
pub proof fn law_last_download_served_once(
    m: Map<Seq<char>, EntryView>,
    id: Seq<char>,
    first: u64,
    second: u64,
)
    requires
        m.contains_key(id),
        m[id].remaining_downloads <= 1,
    ensures
        !m[id].expired(first) ==> consume_outcome(m, id, first) == (ConsumeOutcomeView::Served {
            entry: m[id],
            terminal: true,
        }),
        consume_outcome(after_consume(m, id, first), id, second) == ConsumeOutcomeView::NotFound,
{
}

/// An entry that nobody downloads is dead from its deadline on: a download is
/// refused as expired and removes it, and a sweep removes it and names it.
/// Before the deadline a sweep leaves it alone.
pub proof fn law_unvisited_entry_lapses(
    m: Map<Seq<char>, EntryView>,
    entry: EntryView,
    now: u64,
)
    requires
        !m.contains_key(entry.id),
    ensures
        entry.expired(now) ==> {
            let live = after_create(m, entry);
            &&& consume_outcome(live, entry.id, now) == (ConsumeOutcomeView::Expired {
                location: entry.location,
            })
            &&& !after_consume(live, entry.id, now).contains_key(entry.id)
            &&& expired_ids(live, now).contains(entry.id)
            &&& !after_sweep(live, now).contains_key(entry.id)
        },
        !entry.expired(now) ==> {
            let live = after_create(m, entry);
            &&& !expired_ids(live, now).contains(entry.id)
            &&& after_sweep(live, now).contains_key(entry.id)
            &&& after_sweep(live, now)[entry.id] == entry
        },
{
}

/// An entry that is downloaded before its deadline, straight after its
/// creation, is served as it was created.
pub proof fn law_upload_round_trips(m: Map<Seq<char>, EntryView>, entry: EntryView, now: u64)
    requires
        !m.contains_key(entry.id),
        !entry.expired(now),
    ensures
        consume_outcome(after_create(m, entry), entry.id, now) == (ConsumeOutcomeView::Served {
            entry,
            terminal: entry.remaining_downloads <= 1,
        }),
{
}

/// A payload is handed out for deletion once: when a download has removed an
/// entry, no later sweep names it and no later download finds it, and when a
/// sweep has removed it, no later download finds it.
pub proof fn law_removed_entry_stays_gone(
    m: Map<Seq<char>, EntryView>,
    id: Seq<char>,
    now: u64,
    later: u64,
)
    ensures
        !after_consume(m, id, now).contains_key(id) ==> {
            &&& !expired_ids(after_consume(m, id, now), later).contains(id)
            &&& consume_outcome(after_consume(m, id, now), id, later)
                == ConsumeOutcomeView::NotFound
        },
        expired_ids(m, now).contains(id) ==> consume_outcome(after_sweep(m, now), id, later)
            == ConsumeOutcomeView::NotFound,
{
}

/// An upload is dead exactly from the time on at which its configured
/// lifetime has passed since it was published.
pub proof fn law_upload_lapses_with_ttl(
    config: &AppConfig,
    plan: UploadPlan,
    published: u64,
    now: u64,
)
    ensures
        entry_of(config, plan, published).expired(now) <==> now >= published
            + config.ttl_secs * 1_000_000_000,
{
}

/// While the upload page is on, an upload is let in only with the configured
/// secret: one with another secret is turned away, and so is one without a
/// secret, whatever the configured secret is.
pub proof fn law_wrong_or_missing_secret_is_refused(config: &AppConfig, password: Option<String>)
    requires
        config.upload_page_enabled,
        password matches Some(p) ==> p@ != config.upload_password@,
    ensures
        !admits(config, password),
{
}

} // verus!
