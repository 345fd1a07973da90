//! The download side of the gateway: what a request for a token is answered
//! with, and which headers go with the payload.

use vstd::prelude::*;
use vstd::string::StringExecFns;
use crate::entry::Entry;
use crate::model::{after_consume, consume_outcome, keyed_by_id, ConsumeOutcomeView};
use crate::platform::{is_header_text, is_header_value};
use crate::registry::{ConsumeOutcome, Registry};
use crate::text::{join3, text_of};

verus! {

/// The `Content-Disposition` of the file called `display_name`.
pub open spec fn disposition_of(display_name: Seq<char>) -> Seq<char> {
    "attachment; filename=\""@ + display_name + "\""@
}

/// The content type under which a payload is sent: the recorded one, or
/// `application/octet-stream` where none was recorded.
pub open spec fn content_type_of(recorded: Option<Seq<char>>) -> Seq<char> {
    match recorded {
        Some(t) => t,
        None => "application/octet-stream"@,
    }
}

/// `text` where it can be sent as a header value, and nothing where it cannot.
pub open spec fn header_of(text: Seq<char>) -> Option<Seq<char>> {
    if is_header_text(text) {
        Some(text)
    } else {
        None
    }
}

/// The headers that go with a payload. One that cannot be sent is left out.
#[derive(Debug, PartialEq, Eq)]
pub struct DownloadHeaders {
    /// The `Content-Disposition` header.
    pub content_disposition: Option<String>,
    /// The `Content-Type` header.
    pub content_type: Option<String>,
}

fn sendable(text: String) -> (header: Option<String>)
    ensures
        text_of(header) == header_of(text@),
{
    if is_header_value(text.as_str()) {
        Some(text)
    } else {
        None
    }
}

/// The headers that go with the payload of `entry`: it is an attachment under
/// its display name, of its recorded content type.
pub fn download_headers(entry: &Entry) -> (headers: DownloadHeaders)
    ensures
        text_of(headers.content_disposition) == header_of(disposition_of(entry@.display_name)),
        text_of(headers.content_type) == header_of(content_type_of(entry@.content_type)),
{
    let disposition = join3("attachment; filename=\"", entry.display_name.as_str(), "\"");
    let content_type: String = match &entry.content_type {
        Some(t) => t.clone(),
        None => String::from_str("application/octet-stream"),
    };
    DownloadHeaders {
        content_disposition: sendable(disposition),
        content_type: sendable(content_type),
    }
}

/// What a request for a download is answered with.
#[derive(Debug, PartialEq, Eq)]
pub enum Download {
    /// Nothing is served, and nothing is to be done.
    NotFound,
    /// Nothing is served: the entry had reached its deadline. The payload at
    /// `location` is to be deleted.
    Expired { location: String },
    /// The payload at `location` is served with `headers`, and deleted
    /// afterwards where `delete_after` is set.
    Serve { location: String, delete_after: bool, headers: DownloadHeaders },
}

/// The answer that the outcome of a consumption leads to.
pub open spec fn answers(download: Download, outcome: ConsumeOutcomeView) -> bool {
    match outcome {
        ConsumeOutcomeView::NotFound => download == Download::NotFound,
        ConsumeOutcomeView::Expired { location } => download matches Download::Expired {
            location: gone,
        } && gone@ == location,
        ConsumeOutcomeView::Served { entry, terminal } => download matches Download::Serve {
            location: place,
            delete_after,
            headers,
        } && place@ == entry.location && delete_after == terminal && text_of(
            headers.content_disposition,
        ) == header_of(disposition_of(entry.display_name)) && text_of(headers.content_type)
            == header_of(content_type_of(entry.content_type)),
    }
}

/// The answer that `outcome` leads to.
pub fn answer(outcome: ConsumeOutcome) -> (download: Download)
    ensures
        answers(download, outcome@),
{
    match outcome {
        ConsumeOutcome::NotFound => Download::NotFound,
        ConsumeOutcome::Expired { location } => Download::Expired { location },
        ConsumeOutcome::Served { entry, terminal } => {
            let headers = download_headers(&entry);
            Download::Serve { location: entry.location, delete_after: terminal, headers }
        },
    }
}

/// Decides a request for the token `id` at time `now`: takes one download of
/// it from the registry, in one step, and says what is to be served and what
/// deleted. The payload is read afterwards, and the registry is not asked
/// again.
pub fn download(registry: &mut Registry, id: &str, now: u64) -> (download: Download)
    ensures
        answers(download, consume_outcome(old(registry)@, id@, now)),
        final(registry)@ == after_consume(old(registry)@, id@, now),
        keyed_by_id(final(registry)@),
{
    answer(registry.consume(id, now))
}

} // verus!
