//! Calendar entries and the document that collects them.

use vstd::prelude::*;
use crate::description::{build_description, description_parts};
use crate::links::{event_url, get_event_url};
use crate::location::{get_location, resolved_location};
use crate::model::{
    user_views, EventView, Instant, InterestedUser, ScheduledEvent, UserView,
};
use crate::text::opt_view;

verus! {

/// One entry of a calendar, built from one scheduled event.
#[derive(Clone, Debug, PartialEq, Eq)]
pub struct CalendarEntry {
    /// The identifier of the event, as a decimal numeral.
    pub uid: String,
    pub summary: String,
    pub description: String,
    /// The address of the event's page.
    pub url: String,
    pub start: Instant,
    pub end: Instant,
    pub location: Option<String>,
}

/// The view of a [`CalendarEntry`].
pub struct EntryView {
    pub uid: Seq<char>,
    pub summary: Seq<char>,
    pub description: Seq<char>,
    pub url: Seq<char>,
    pub start: int,
    pub end: int,
    pub location: Option<Seq<char>>,
}

impl View for CalendarEntry {
    type V = EntryView;

    open spec fn view(&self) -> EntryView {
        EntryView {
            uid: self.uid@,
            summary: self.summary@,
            description: self.description@,
            url: self.url@,
            start: self.start@,
            end: self.end@,
            location: opt_view(self.location),
        }
    }
}

/// A scheduled event together with what was looked up for it.
#[derive(Clone, Debug, PartialEq, Eq)]
pub struct FetchedEvent {
    pub event: ScheduledEvent,
    /// The sample of interested users; empty where none was asked for or
    /// the lookup failed.
    pub users: Vec<InterestedUser>,
    /// The name of the event's channel; absent where none was asked for
    /// or the lookup failed.
    pub channel_name: Option<String>,
}

/// The view of a [`FetchedEvent`].
pub struct FetchedView {
    pub event: EventView,
    pub users: Seq<UserView>,
    pub channel_name: Option<Seq<char>>,
}

impl View for FetchedEvent {
    type V = FetchedView;

    open spec fn view(&self) -> FetchedView {
        FetchedView {
            event: self.event@,
            users: user_views(self.users@),
            channel_name: opt_view(self.channel_name),
        }
    }
}

impl FetchedEvent {
    /// Puts an event together with the outcome of its lookups. A sample
    /// of users that could not be fetched counts as an empty one.
    pub fn from_lookups(
        event: ScheduledEvent,
        users: Option<Vec<InterestedUser>>,
        channel_name: Option<String>,
    ) -> (fetched: FetchedEvent)
        ensures
            fetched.event == event,
            fetched.channel_name == channel_name,
            users matches Some(sample) ==> fetched.users == sample,
            users is None ==> fetched.users@.len() == 0,
    {
        let users = match users {
            Some(sample) => sample,
            None => Vec::new(),
        };
        FetchedEvent { event, users, channel_name }
    }
}

/// The entry that stands for a fetched event. An event without an end
/// ends when it starts.
pub open spec fn entry_of(fetched: FetchedView) -> EntryView {
    EntryView {
        uid: crate::text::decimal_digits(fetched.event.id as nat),
        summary: fetched.event.name,
        description: description_parts(fetched.event, fetched.users).text(),
        url: event_url(fetched.event.guild_id, fetched.event.id),
        start: fetched.event.start,
        end: match fetched.event.end {
            Some(end) => end,
            None => fetched.event.start,
        },
        location: resolved_location(fetched.event.location, fetched.channel_name),
    }
}

/// Builds the calendar entry for one fetched event.
pub fn build_event(fetched: &FetchedEvent) -> (entry: CalendarEntry)
    ensures
        entry@ == entry_of(fetched@),
{
    let event = &fetched.event;
    CalendarEntry {
        uid: crate::text::decimal(event.id),
        summary: event.name.clone(),
        description: build_description(event, &fetched.users),
        url: get_event_url(event.guild_id, event.id),
        start: event.start,
        end: match event.end {
            Some(end) => end,
            None => event.start,
        },
        location: get_location(&event.location, &fetched.channel_name),
    }
}

/// A calendar: a name and the entries in the order in which the events
/// were reported.
#[derive(Clone, Debug, PartialEq, Eq)]
pub struct CalendarDocument {
    pub name: String,
    pub entries: Vec<CalendarEntry>,
}

/// The view of a [`CalendarDocument`].
pub struct DocumentView {
    pub name: Seq<char>,
    pub entries: Seq<EntryView>,
}

/// The views of a list of entries, in order.
pub open spec fn entry_views(entries: Seq<CalendarEntry>) -> Seq<EntryView> {
    Seq::new(entries.len(), |i: int| entries[i]@)
}

/// The views of a list of fetched events, in order.
pub open spec fn fetched_views(events: Seq<FetchedEvent>) -> Seq<FetchedView> {
    Seq::new(events.len(), |i: int| events[i]@)
}

impl View for CalendarDocument {
    type V = DocumentView;

    open spec fn view(&self) -> DocumentView {
        DocumentView { name: self.name@, entries: entry_views(self.entries@) }
    }
}

/// The name of a calendar: the community's name, or "Discord" where that
/// is not known.
pub open spec fn calendar_name(guild_name: Option<Seq<char>>) -> Seq<char> {
    match guild_name {
        Some(name) => name,
        None => "Discord"@,
    }
}

/// The calendar of a community: one entry for each fetched event, in the
/// same order.
pub open spec fn document_of(guild_name: Option<Seq<char>>, events: Seq<FetchedView>) -> DocumentView {
    DocumentView {
        name: calendar_name(guild_name),
        entries: Seq::new(events.len(), |i: int| entry_of(events[i])),
    }
}

/// A request for the list of a community's scheduled events.
#[derive(Clone, Copy, Debug, PartialEq, Eq, Structural)]
pub struct EventsQuery {
    pub guild_id: u64,
    /// Whether the number of interested users is wanted with each event.
    pub with_user_count: bool,
}

/// The list of events that the calendar of the community `guild_id` is
/// assembled from: all of its scheduled events, each with the number of
/// users interested in it.
pub fn events_lookup(guild_id: u64) -> (query: EventsQuery)
    ensures
        query == (EventsQuery { guild_id, with_user_count: true }),
{
    EventsQuery { guild_id, with_user_count: true }
}

/// Why no calendar could be assembled.
#[derive(Clone, Copy, Debug, PartialEq, Eq, Structural)]
pub enum AssemblyError {
    /// The list of the community's events could not be fetched.
    EventsUnavailable,
}

/// Assembles the calendar of a community. `events` is the list of its
/// events as it was fetched, or nothing where the list could not be
/// fetched: that alone makes the assembly fail. A list without events
/// gives a calendar without entries.
pub fn assemble(guild_name: &Option<String>, events: &Option<Vec<FetchedEvent>>) -> (result: Result<
    CalendarDocument,
    AssemblyError,
>)
    ensures
        events is None ==> result is Err && result->Err_0 == AssemblyError::EventsUnavailable,
        events matches Some(list) ==> result is Ok && result->Ok_0@ == document_of(
            opt_view(*guild_name),
            fetched_views(list@),
        ),
{
    match events {
        Some(list) => Ok(build_calendar(guild_name, list)),
        None => Err(AssemblyError::EventsUnavailable),
    }
}

/// Assembles the calendar of a community from its name, where known, and
/// its fetched events.
pub fn build_calendar(guild_name: &Option<String>, events: &Vec<FetchedEvent>) -> (document:
    CalendarDocument)
    ensures
        document@ == document_of(opt_view(*guild_name), fetched_views(events@)),
{
    let name = match guild_name {
        Some(name) => name.clone(),
        None => String::from_str("Discord"),
    };
    let mut entries: Vec<CalendarEntry> = Vec::new();
    let mut i: usize = 0;
    while i < events.len()
        invariant
            i <= events.len(),
            entries.len() == i,
            forall|j: int| 0 <= j < i ==> (#[trigger] entries@[j])@ == entry_of(events@[j]@),
        decreases events.len() - i,
    {
        entries.push(build_event(&events[i]));
        i = i + 1;
    }
    let document = CalendarDocument { name, entries };
    assert(document@.entries =~= document_of(
        opt_view(*guild_name),
        fetched_views(events@),
    ).entries);
    document
}

/// An event without an end gives an entry that ends when it starts; an
/// event with an end gives an entry with that end. The start is always
/// the event's.
pub proof fn lemma_missing_end_is_the_start(fetched: FetchedView)
    ensures
        entry_of(fetched).start == fetched.event.start,
        fetched.event.end is None ==> entry_of(fetched).end == entry_of(fetched).start,
        fetched.event.end matches Some(end) ==> entry_of(fetched).end == end,
{
}

/// A community without events has a calendar without entries, under the
/// same name as any other calendar of that community.
pub proof fn lemma_no_events_no_entries(guild_name: Option<Seq<char>>, events: Seq<FetchedView>)
    ensures
        document_of(guild_name, events).entries.len() == events.len(),
        events.len() == 0 ==> document_of(guild_name, events).entries == Seq::<EntryView>::empty(),
        document_of(guild_name, events).name == calendar_name(guild_name),
{
    if events.len() == 0 {
        assert(document_of(guild_name, events).entries =~= Seq::<EntryView>::empty());
    }
}

} // verus!
