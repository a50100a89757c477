//! The decisions about a community's feed file: write it anew, delete it,
//! or leave it as it is.
//!
//! Nothing here touches a file. Each function returns the action that the
//! caller has to carry out, and [`apply`] says what the action does to the
//! files once it is carried out in one piece.

use vstd::prelude::*;
use crate::calendar::{
    assemble, calendar_name, document_of, fetched_views, AssemblyError, DocumentView,
    FetchedEvent, FetchedView,
};
use crate::ical::{
    document_events, document_is_safe, document_properties, document_text, holds_line,
    lemma_numeral_is_written_whole, serialize, written, written_whole,
};
use crate::lines::line_of;
use crate::model::Instant;
use crate::links::{calendar_path, get_calendar_path};
use crate::text::{decimal_digits, opt_view};

verus! {

/// Why a publication was given up.
#[derive(Clone, Copy, Debug, PartialEq, Eq, Structural)]
pub enum PublishError {
    /// The list of the community's events could not be fetched.
    EventsUnavailable,
    /// The calendar could not be written as text.
    NotWritten,
}

/// What has to happen to the feed file of one community.
#[derive(Clone, Debug, PartialEq, Eq)]
pub enum StoreAction {
    /// Replace the file at `path`, or create it, with `text` as its whole
    /// content.
    Write { guild_id: u64, path: String, text: String },
    /// Delete the file at `path`; a file that is not there is no error.
    Delete { guild_id: u64, path: String },
    /// Leave the file as it is: the publication was given up.
    Keep(PublishError),
}

/// The view of a [`StoreAction`].
pub enum StoreActionView {
    Write { guild_id: u64, path: Seq<char>, text: Seq<char> },
    Delete { guild_id: u64, path: Seq<char> },
    Keep(PublishError),
}

impl View for StoreAction {
    type V = StoreActionView;

    open spec fn view(&self) -> StoreActionView {
        match *self {
            StoreAction::Write { guild_id, path, text } => StoreActionView::Write {
                guild_id,
                path: path@,
                text: text@,
            },
            StoreAction::Delete { guild_id, path } => StoreActionView::Delete { guild_id, path: path@ },
            StoreAction::Keep(reason) => StoreActionView::Keep(reason),
        }
    }
}

/// The feed files after `action` was carried out on `store`, which holds
/// the content of each community's file that exists.
pub open spec fn apply(store: Map<u64, Seq<char>>, action: StoreActionView) -> Map<u64, Seq<char>> {
    match action {
        StoreActionView::Write { guild_id, path, text } => store.insert(guild_id, text),
        StoreActionView::Delete { guild_id, path } => store.remove(guild_id),
        StoreActionView::Keep(_) => store,
    }
}

/// The action that publishes `text` as the feed of the community
/// `guild_id` below `dir`; without a text the file is left as it is,
/// because the calendar was not written.
pub open spec fn publication(dir: Seq<char>, guild_id: u64, text: Option<Seq<char>>) -> StoreActionView {
    match text {
        Some(text) => StoreActionView::Write { guild_id, path: calendar_path(dir, guild_id), text },
        None => StoreActionView::Keep(PublishError::NotWritten),
    }
}

/// What a publication for the community `guild_id` below `dir` comes
/// to, given the calendar that was assembled, if any, and the second
/// `stamp` at which it is written.
///
/// Without a calendar it is given up because the events were not at
/// hand. A calendar that cannot be written safely is given up as not
/// written. Any other calendar is written, and its text goes to the
/// community's file.
pub open spec fn publishes(
    dir: Seq<char>,
    guild_id: u64,
    document: Option<DocumentView>,
    stamp: int,
) -> StoreActionView {
    match document {
        Some(document) => if document_is_safe(document) {
            StoreActionView::Write {
                guild_id,
                path: calendar_path(dir, guild_id),
                text: document_text(document, stamp),
            }
        } else {
            StoreActionView::Keep(PublishError::NotWritten)
        },
        None => StoreActionView::Keep(PublishError::EventsUnavailable),
    }
}

/// The calendar that a publication assembles from the community's name
/// and its fetched events; none without the events.
pub open spec fn assembled(guild_name: Option<Seq<char>>, events: Option<Seq<FetchedView>>) -> Option<
    DocumentView,
> {
    match events {
        Some(list) => Some(document_of(guild_name, list)),
        None => None,
    }
}

/// The views of a list of fetched events, if there is one.
pub open spec fn opt_fetched_views(events: Option<Vec<FetchedEvent>>) -> Option<Seq<FetchedView>> {
    match events {
        Some(list) => Some(fetched_views(list@)),
        None => None,
    }
}

/// Decides what to do with the written calendar of a community: `text`
/// goes to the community's file, and where writing the calendar failed
/// the file stays as it is.
pub fn store_calendar(public_dir: &str, guild_id: u64, text: Option<String>) -> (action:
    StoreAction)
    ensures
        action@ == publication(public_dir@, guild_id, opt_view(text)),
{
    match text {
        Some(text) => StoreAction::Write {
            guild_id,
            path: get_calendar_path(public_dir, guild_id),
            text,
        },
        None => StoreAction::Keep(PublishError::NotWritten),
    }
}

/// Publishes the calendar of the community `guild_id`. `events` is the
/// list of its scheduled events as it was fetched, each with what was
/// looked up for it, or nothing where the list could not be fetched;
/// `now` is the time of writing.
///
/// Without the list the publication is given up, and the file stays as
/// it is. With the list the calendar is assembled. A calendar that cannot
/// be written safely is given up as not written. Any other is written as
/// text, and the text goes to the community's file.
///
/// The text that goes to the file has the frame of a calendar; it holds
/// the identifier of each event on a line of its own, and so the name of
/// the calendar where that is plain and short.
pub fn publish_calendar(
    public_dir: &str,
    guild_id: u64,
    guild_name: &Option<String>,
    events: &Option<Vec<FetchedEvent>>,
    now: Instant,
) -> (action: StoreAction)
    ensures
        action@ == publishes(
            public_dir@,
            guild_id,
            assembled(opt_view(*guild_name), opt_fetched_views(*events)),
            now@,
        ),
        events matches Some(list) ==> (action@ matches StoreActionView::Write { text, .. }
            ==> written(
            text,
            document_properties(calendar_name(opt_view(*guild_name))),
            document_events(document_of(opt_view(*guild_name), fetched_views(list@)), now@),
        )),
        events matches Some(list) ==> (action@ matches StoreActionView::Write { text, .. }
            ==> forall|i: int|
            0 <= i < list@.len() ==> holds_line(
                text,
                line_of("UID"@, decimal_digits((#[trigger] list@[i]).event.id as nat)),
            )),
        action@ matches StoreActionView::Write { text, .. } ==> (written_whole(
            "NAME"@,
            calendar_name(opt_view(*guild_name)),
        ) ==> holds_line(text, line_of("NAME"@, calendar_name(opt_view(*guild_name))))),
{
    match assemble(guild_name, events) {
        Ok(document) => {
            let text = serialize(&document, now);
            let ghost written_text = opt_view(text);
            let action = store_calendar(public_dir, guild_id, text);
            proof {
                if written_text is Some {
                    let list = events->Some_0;
                    assert forall|i: int| 0 <= i < list@.len() implies holds_line(
                        written_text->Some_0,
                        line_of("UID"@, decimal_digits((#[trigger] list@[i]).event.id as nat)),
                    ) by {
                        assert(fetched_views(list@)[i] == list@[i]@);
                        lemma_numeral_is_written_whole(list@[i].event.id);
                        assert(document@.entries[i].uid == decimal_digits(
                            list@[i].event.id as nat,
                        ));
                    }
                }
            }
            action
        },
        Err(AssemblyError::EventsUnavailable) => StoreAction::Keep(
            PublishError::EventsUnavailable,
        ),
    }
}

/// Removes the feed of the community `guild_id` below `public_dir`.
pub fn delete_calendar(public_dir: &str, guild_id: u64) -> (action: StoreAction)
    ensures
        action@ == (StoreActionView::Delete {
            guild_id,
            path: calendar_path(public_dir@, guild_id),
        }),
{
    StoreAction::Delete { guild_id, path: get_calendar_path(public_dir, guild_id) }
}

/// Removing the feed of a community that has none changes nothing, and
/// removing it twice is the same as removing it once.
pub proof fn lemma_delete_is_idempotent(store: Map<u64, Seq<char>>, guild_id: u64, path: Seq<char>)
    ensures
        !store.contains_key(guild_id) ==> apply(store, StoreActionView::Delete { guild_id, path })
            == store,
        apply(
            apply(store, StoreActionView::Delete { guild_id, path }),
            StoreActionView::Delete { guild_id, path },
        ) == apply(store, StoreActionView::Delete { guild_id, path }),
{
    let once = apply(store, StoreActionView::Delete { guild_id, path });
    if !store.contains_key(guild_id) {
        assert(once =~= store);
    }
    assert(apply(once, StoreActionView::Delete { guild_id, path }) =~= once);
}

/// After its feed was removed, a community has no feed; the feeds of the
/// other communities are as before.
pub proof fn lemma_delete_removes_the_feed(
    store: Map<u64, Seq<char>>,
    guild_id: u64,
    path: Seq<char>,
    other: u64,
)
    requires
        other != guild_id,
    ensures
        !apply(store, StoreActionView::Delete { guild_id, path }).contains_key(guild_id),
        apply(store, StoreActionView::Delete { guild_id, path }).contains_key(other)
            == store.contains_key(other),
        store.contains_key(other) ==> apply(store, StoreActionView::Delete { guild_id, path })[other]
            == store[other],
{
}

/// Two publications for one community, carried out one after the other,
/// leave the text of one of them as the feed, whole: the text of the one
/// that was carried out last. A publication that was given up leaves the
/// feed as it was.
pub proof fn lemma_last_publication_wins(
    store: Map<u64, Seq<char>>,
    guild_id: u64,
    path: Seq<char>,
    first: Seq<char>,
    second: Seq<char>,
    reason: PublishError,
)
    ensures
        apply(
            apply(store, StoreActionView::Write { guild_id, path, text: first }),
            StoreActionView::Write { guild_id, path, text: second },
        )[guild_id] == second,
        apply(
            apply(store, StoreActionView::Write { guild_id, path, text: second }),
            StoreActionView::Write { guild_id, path, text: first },
        )[guild_id] == first,
        apply(
            apply(store, StoreActionView::Write { guild_id, path, text: first }),
            StoreActionView::Keep(reason),
        ) == apply(store, StoreActionView::Write { guild_id, path, text: first }),
        apply(store, StoreActionView::Keep(reason)) == store,
{
}

} // verus!
