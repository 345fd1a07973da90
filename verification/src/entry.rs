//! One stored blob, as the registry records it.

use vstd::prelude::*;
use crate::text::text_of;

verus! {

/// The registry's record of one live, downloadable blob.
///
/// Times are counted in nanoseconds on the service's monotonic clock. A reading
/// of the clock is a `u64`; a deadline is the sum of a reading and a lifetime
/// and is held in a `u128`, so that no such sum can overflow.
#[derive(Debug, PartialEq, Eq)]
pub struct Entry {
    /// The download token: unique among live entries.
    pub id: String,
    /// Where the payload lies in the blob store.
    pub location: String,
    /// The file name shown to whoever downloads the blob.
    pub display_name: String,
    /// The content type that came with the upload, echoed on download.
    pub content_type: Option<String>,
    /// The deadline: from this time on the entry is dead.
    pub expires_at: u128,
    /// How many downloads are left.
    pub remaining_downloads: u32,
}

/// What an [`Entry`] holds, as mathematical values.
pub struct EntryView {
    pub id: Seq<char>,
    pub location: Seq<char>,
    pub display_name: Seq<char>,
    pub content_type: Option<Seq<char>>,
    pub expires_at: u128,
    pub remaining_downloads: u32,
}

impl View for Entry {
    type V = EntryView;

    open spec fn view(&self) -> EntryView {
        EntryView {
            id: self.id@,
            location: self.location@,
            display_name: self.display_name@,
            content_type: text_of(self.content_type),
            expires_at: self.expires_at,
            remaining_downloads: self.remaining_downloads,
        }
    }
}

impl EntryView {
    /// Whether the deadline has been reached at time `now`.
    pub open spec fn expired(self, now: u64) -> bool {
        self.expires_at <= now
    }

    /// Whether the next download is the last one.
    pub open spec fn on_last_download(self) -> bool {
        self.remaining_downloads <= 1
    }

    /// The same entry with one download less.
    pub open spec fn after_download(self) -> EntryView
        recommends
            self.remaining_downloads >= 1,
    {
        EntryView { remaining_downloads: (self.remaining_downloads - 1) as u32, ..self }
    }
}

impl Clone for Entry {
    fn clone(&self) -> (copy: Entry)
        ensures
            copy == *self,
    {
        Entry {
            id: self.id.clone(),
            location: self.location.clone(),
            display_name: self.display_name.clone(),
            content_type: match &self.content_type {
                Some(t) => Some(t.clone()),
                None => None,
            },
            expires_at: self.expires_at,
            remaining_downloads: self.remaining_downloads,
        }
    }
}

impl Entry {
    /// Whether the deadline has been reached at time `now`.
    pub fn is_expired(&self, now: u64) -> (dead: bool)
        ensures
            dead == self@.expired(now),
    {
        self.expires_at <= now as u128
    }
}

} // verus!
