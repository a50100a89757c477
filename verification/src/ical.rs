//! The bridge to the `icalendar` crate, which holds calendars in memory
//! and writes them as text.
//!
//! Verus cannot look into that crate. What this module says about it is
//! stated once, on the small functions that call it, and taken on trust;
//! everything built on top of them is verified.

use vstd::prelude::*;
use vstd::utf8::{encode_utf8, is_ascii_chars, is_ascii_chars_encode_utf8};
use chrono::DateTime;
use icalendar::{Calendar, Component, Event, EventLike};
use crate::calendar::{CalendarDocument, CalendarEntry, DocumentView, EntryView};
use crate::lines::{
    escaped, escaped_line_is_writable, fold_stays, lemma_plain_is_not_escaped,
    lemma_short_line_stays, line_of, plain, plain_text, raw_line_is_writable,
};
use crate::model::{instant_in_range, Instant};

verus! {

/// `icalendar::Event`, a component that holds properties by their keys.
#[verifier::external_type_specification]
#[verifier::external_body]
pub struct ExEvent(icalendar::Event);

/// `icalendar::Calendar`, a list of properties and a list of components.
#[verifier::external_type_specification]
#[verifier::external_body]
pub struct ExCalendar(icalendar::Calendar);

/// `icalendar::CalendarComponent`, what a calendar holds in its list of
/// components. It is only declared because `Calendar` hands out a slice
/// of it.
#[verifier::external_type_specification]
#[verifier::external_body]
pub struct ExCalendarComponent(icalendar::CalendarComponent);

/// The single-valued properties that an event holds: for each key that is
/// set, the value as it was given, before any escaping or folding.
///
/// This and the two names that follow tell all there is to an event or a
/// calendar that the functions of this module have built: such a value
/// holds no parameter, no property of several values and no nested
/// component. They are not meant for any other value of these types.
pub uninterp spec fn event_properties(event: icalendar::Event) -> Map<Seq<char>, Seq<char>>;

/// The properties that a calendar holds itself, as pairs of key and value
/// in the order in which they were added.
pub uninterp spec fn calendar_properties(calendar: icalendar::Calendar) -> Seq<
    (Seq<char>, Seq<char>),
>;

/// The components that a calendar holds, in the order in which they were
/// added, each given by its properties.
pub uninterp spec fn calendar_events(calendar: icalendar::Calendar) -> Seq<
    Map<Seq<char>, Seq<char>>,
>;

/// The value under which `icalendar` stores the UTC date-time that lies
/// `secs` seconds after the start of 1970: year, month and day, a `T`,
/// hour, minute and second, and a closing `Z`.
pub uninterp spec fn utc_stamp(secs: int) -> Seq<char>;

/// The text that `icalendar` writes for a calendar with the given
/// properties and components, each of which holds an identifier and a
/// time stamp: with those two set, the writer reads neither the clock nor
/// a random number, and the text depends on nothing else.
pub uninterp spec fn calendar_text(
    properties: Seq<(Seq<char>, Seq<char>)>,
    events: Seq<Map<Seq<char>, Seq<char>>>,
) -> Seq<char>;

/// Whether `text` has the frame of a written calendar: it opens with the
/// line `BEGIN:VCALENDAR` and closes with the line `END:VCALENDAR`.
pub open spec fn is_calendar_text(text: Seq<char>) -> bool {
    &&& "BEGIN:VCALENDAR\r\n"@.is_prefix_of(text)
    &&& "END:VCALENDAR\r\n"@.is_suffix_of(text)
}

/// Whether `icalendar` writes the value of the property `key` as text,
/// with its characters escaped. These are the keys that this module sets
/// and that the crate's table of value types lists as text, or that begin
/// with `X-`.
pub open spec fn is_text_key(key: Seq<char>) -> bool {
    key == "VERSION"@ || key == "PRODID"@ || key == "CALSCALE"@ || key == "UID"@ || key
        == "SUMMARY"@ || key == "DESCRIPTION"@ || key == "LOCATION"@ || key == "X-WR-CALNAME"@
}

/// Whether `icalendar` writes the value of the property `key` as it is.
/// These are the keys that this module sets and that the crate's table of
/// value types lists as something other than text, or not at all.
pub open spec fn is_raw_key(key: Seq<char>) -> bool {
    key == "URL"@ || key == "NAME"@ || key == "DTSTART"@ || key == "DTEND"@ || key == "DTSTAMP"@
}

/// Whether `icalendar` can write the property `key` with the value
/// `value`: whether the line that it makes of them can be folded. The
/// value is escaped for a text key and stays as it is for a raw key; of
/// any other key both lines must be safe.
pub open spec fn line_is_safe(key: Seq<char>, value: Seq<char>) -> bool {
    &&& is_raw_key(key) || fold_stays(line_of(key, escaped(value)))
    &&& is_text_key(key) || fold_stays(line_of(key, value))
}

/// Whether each of the properties can be written as a line.
pub open spec fn properties_are_safe(properties: Seq<(Seq<char>, Seq<char>)>) -> bool {
    forall|j: int|
        0 <= j < properties.len() ==> line_is_safe(
            (#[trigger] properties[j]).0,
            properties[j].1,
        )
}

/// Whether each property of each component can be written as a line.
pub open spec fn events_are_safe(events: Seq<Map<Seq<char>, Seq<char>>>) -> bool {
    forall|i: int, key: Seq<char>|
        0 <= i < events.len() && #[trigger] events[i].contains_key(key) ==> line_is_safe(
            key,
            events[i][key],
        )
}

/// Whether the property `key` with the value `value` is written as the
/// single line [`line_of`]: nothing in it is escaped, and it is short
/// enough not to be folded.
pub open spec fn written_whole(key: Seq<char>, value: Seq<char>) -> bool {
    plain_text(key) && plain_text(value) && key.len() + 1 + value.len() <= 75
}

/// Whether `line` stands in `text` as a line of its own, between two line
/// breaks.
pub open spec fn holds_line(text: Seq<char>, line: Seq<char>) -> bool {
    exists|at: int|
        0 <= at && at + line.len() + 4 <= text.len() && #[trigger] text.subrange(
            at,
            at + line.len() + 4,
        ) == "\r\n"@ + line + "\r\n"@
}

/// Whether each component holds an identifier and a time stamp.
pub open spec fn events_are_stamped(events: Seq<Map<Seq<char>, Seq<char>>>) -> bool {
    forall|i: int|
        0 <= i < events.len() ==> (#[trigger] events[i]).contains_key("UID"@)
            && events[i].contains_key("DTSTAMP"@)
}

/// Whether `text` is a writing of a calendar with the given properties
/// and components: it has the frame of a calendar, and every property
/// that is written as a single line, the calendar's own or a
/// component's, stands in it as that line.
pub open spec fn written(
    text: Seq<char>,
    properties: Seq<(Seq<char>, Seq<char>)>,
    events: Seq<Map<Seq<char>, Seq<char>>>,
) -> bool {
    &&& is_calendar_text(text)
    &&& forall|j: int|
        0 <= j < properties.len() && written_whole((#[trigger] properties[j]).0, properties[j].1)
            ==> holds_line(text, line_of(properties[j].0, properties[j].1))
    &&& forall|i: int, key: Seq<char>|
        0 <= i < events.len() && #[trigger] events[i].contains_key(key) && written_whole(
            key,
            events[i][key],
        ) ==> holds_line(text, line_of(key, events[i][key]))
}

/// The properties of an event on which none was set.
pub open spec fn no_properties() -> Map<Seq<char>, Seq<char>> {
    Map::empty()
}

/// Calls `Event::new`. The new event holds no property.
#[verifier::external_body]
fn new_event() -> (event: Event)
    ensures
        event_properties(event) == no_properties(),
{
    Event::new()
}

/// Calls `Component::uid`, which puts `uid` under the key `UID` and
/// replaces what was there.
#[verifier::external_body]
fn set_uid(event: &mut Event, uid: &str)
    ensures
        event_properties(*final(event)) == event_properties(*old(event)).insert("UID"@, uid@),
{
    event.uid(uid);
}

/// Calls `Component::summary`, which puts `summary` under the key
/// `SUMMARY` and replaces what was there.
#[verifier::external_body]
fn set_summary(event: &mut Event, summary: &str)
    ensures
        event_properties(*final(event)) == event_properties(*old(event)).insert(
            "SUMMARY"@,
            summary@,
        ),
{
    event.summary(summary);
}

/// Calls `Component::description`, which puts `description` under the key
/// `DESCRIPTION` and replaces what was there.
#[verifier::external_body]
fn set_description(event: &mut Event, description: &str)
    ensures
        event_properties(*final(event)) == event_properties(*old(event)).insert(
            "DESCRIPTION"@,
            description@,
        ),
{
    event.description(description);
}

/// Calls `Component::url`, which puts `url` under the key `URL` and
/// replaces what was there.
#[verifier::external_body]
fn set_url(event: &mut Event, url: &str)
    ensures
        event_properties(*final(event)) == event_properties(*old(event)).insert("URL"@, url@),
{
    event.url(url);
}

/// Calls `EventLike::starts` with the UTC date-time that lies `secs`
/// seconds after the start of 1970. It puts that date-time, written as a
/// UTC stamp, under the key `DTSTART` and replaces what was there. Within
/// the years 1 to 9999 the stamp has sixteen characters, digits but for
/// the `T` and the `Z`.
#[verifier::external_body]
fn set_start(event: &mut Event, secs: i64)
    requires
        instant_in_range(secs as int),
    ensures
        event_properties(*final(event)) == event_properties(*old(event)).insert(
            "DTSTART"@,
            utc_stamp(secs as int),
        ),
        plain_text(event_properties(*final(event))["DTSTART"@]),
        event_properties(*final(event))["DTSTART"@].len() == 16,
{
    event.starts(DateTime::from_timestamp(secs, 0).unwrap_or_default());
}

/// Calls `EventLike::ends` with the UTC date-time that lies `secs` seconds
/// after the start of 1970. It puts that date-time, written as a UTC
/// stamp, under the key `DTEND` and replaces what was there. Within the
/// years 1 to 9999 the stamp has sixteen characters, digits but for the
/// `T` and the `Z`.
#[verifier::external_body]
fn set_end(event: &mut Event, secs: i64)
    requires
        instant_in_range(secs as int),
    ensures
        event_properties(*final(event)) == event_properties(*old(event)).insert(
            "DTEND"@,
            utc_stamp(secs as int),
        ),
        plain_text(event_properties(*final(event))["DTEND"@]),
        event_properties(*final(event))["DTEND"@].len() == 16,
{
    event.ends(DateTime::from_timestamp(secs, 0).unwrap_or_default());
}

/// Calls `Component::timestamp` with the UTC date-time that lies `secs`
/// seconds after the start of 1970. It puts that date-time, written as a
/// UTC stamp, under the key `DTSTAMP` and replaces what was there. Within
/// the years 1 to 9999 the stamp has sixteen characters, digits but for
/// the `T` and the `Z`.
#[verifier::external_body]
fn set_timestamp(event: &mut Event, secs: i64)
    requires
        instant_in_range(secs as int),
    ensures
        event_properties(*final(event)) == event_properties(*old(event)).insert(
            "DTSTAMP"@,
            utc_stamp(secs as int),
        ),
        plain_text(event_properties(*final(event))["DTSTAMP"@]),
        event_properties(*final(event))["DTSTAMP"@].len() == 16,
{
    event.timestamp(DateTime::from_timestamp(secs, 0).unwrap_or_default());
}

/// Calls `EventLike::location`, which puts `location` under the key
/// `LOCATION` and replaces what was there.
#[verifier::external_body]
fn set_location(event: &mut Event, location: &str)
    ensures
        event_properties(*final(event)) == event_properties(*old(event)).insert(
            "LOCATION"@,
            location@,
        ),
{
    event.location(location);
}

/// Calls `Calendar::new`. The new calendar holds the version of the
/// format, the name of the producing library and the calendar scale, and
/// no component.
#[verifier::external_body]
fn new_calendar() -> (calendar: Calendar)
    ensures
        calendar_properties(calendar) == seq![
            ("VERSION"@, "2.0"@),
            ("PRODID"@, "ICALENDAR-RS"@),
            ("CALSCALE"@, "GREGORIAN"@),
        ],
        calendar_events(calendar).len() == 0,
{
    Calendar::new()
}

/// Calls `Calendar::name`, which adds `name` twice, under the keys `NAME`
/// and `X-WR-CALNAME`, behind the properties that are there. The
/// components stay as they are.
#[verifier::external_body]
fn set_name(calendar: &mut Calendar, name: &str)
    ensures
        calendar_properties(*final(calendar)) == calendar_properties(*old(calendar)).push(
            ("NAME"@, name@),
        ).push(("X-WR-CALNAME"@, name@)),
        calendar_events(*final(calendar)) == calendar_events(*old(calendar)),
{
    calendar.name(name);
}

/// Calls `Calendar::push`, which adds `event` behind the components that
/// are there. The calendar's own properties stay as they are.
#[verifier::external_body]
fn push_event(calendar: &mut Calendar, event: Event)
    ensures
        calendar_events(*final(calendar)) == calendar_events(*old(calendar)).push(
            event_properties(event),
        ),
        calendar_properties(*final(calendar)) == calendar_properties(*old(calendar)),
{
    calendar.push(event);
}

/// Calls `TryInto<String>` for `&Calendar`, which writes the calendar as
/// text.
///
/// The text opens with `BEGIN:VCALENDAR` and closes with `END:VCALENDAR`,
/// each on a line of its own. Between them stand the calendar's
/// properties and then its components, one line for each property. A
/// value made of plain characters is written as it is, and a line of at
/// most 75 bytes is not folded, so such a property stands in the text as
/// its key, a colon and its value.
///
/// The call returns a text: the writer writes into a string of its own,
/// to which writing does not fail, and it passes on no other error. It
/// reads the clock and a random number only for a component without a
/// time stamp or without an identifier, of which there must be none; the
/// text is then the same for the same properties and components. A line
/// of more than 75 bytes is folded, and some cuts of the folding leave
/// their piece, of which there must be none either.
#[verifier::external_body]
fn write_calendar(calendar: &Calendar) -> (text: Option<String>)
    requires
        properties_are_safe(calendar_properties(*calendar)),
        events_are_safe(calendar_events(*calendar)),
        events_are_stamped(calendar_events(*calendar)),
    ensures
        text is Some,
        text matches Some(t) ==> t@ == calendar_text(
            calendar_properties(*calendar),
            calendar_events(*calendar),
        ),
        text matches Some(t) ==> written(
            t@,
            calendar_properties(*calendar),
            calendar_events(*calendar),
        ),
{
    let written: Result<String, std::fmt::Error> = calendar.try_into();
    written.ok()
}

/// The properties of the component that stands for an entry, written at
/// the second `stamp`. The location is only there where the entry has
/// one.
pub open spec fn entry_properties(entry: EntryView, stamp: int) -> Map<Seq<char>, Seq<char>> {
    let fixed = no_properties().insert("UID"@, entry.uid).insert(
        "SUMMARY"@,
        entry.summary,
    ).insert("DESCRIPTION"@, entry.description).insert("URL"@, entry.url).insert(
        "DTSTART"@,
        utc_stamp(entry.start),
    ).insert("DTEND"@, utc_stamp(entry.end)).insert("DTSTAMP"@, utc_stamp(stamp));
    match entry.location {
        Some(location) => fixed.insert("LOCATION"@, location),
        None => fixed,
    }
}

/// The properties of a calendar with the name `name`: what every new
/// calendar holds, then the name under both of its keys.
pub open spec fn document_properties(name: Seq<char>) -> Seq<(Seq<char>, Seq<char>)> {
    seq![
        ("VERSION"@, "2.0"@),
        ("PRODID"@, "ICALENDAR-RS"@),
        ("CALSCALE"@, "GREGORIAN"@),
        ("NAME"@, name),
        ("X-WR-CALNAME"@, name),
    ]
}

/// The components of the calendar that stands for a document, written at
/// the second `stamp`: one for each entry, in the same order.
pub open spec fn document_events(document: DocumentView, stamp: int) -> Seq<
    Map<Seq<char>, Seq<char>>,
> {
    Seq::new(document.entries.len(), |i: int| entry_properties(document.entries[i], stamp))
}

/// The text of a document that is written at the second `stamp`.
pub open spec fn document_text(document: DocumentView, stamp: int) -> Seq<char> {
    calendar_text(document_properties(document.name), document_events(document, stamp))
}

/// Whether the second `secs` is stamped with sixteen plain characters.
pub open spec fn stamp_is_plain(secs: int) -> bool {
    plain_text(utc_stamp(secs)) && utc_stamp(secs).len() == 16
}

/// Whether both ends of an entry, and the second `stamp`, are stamped
/// with sixteen plain characters.
pub open spec fn stamps_are_plain(entry: EntryView, stamp: int) -> bool {
    stamp_is_plain(entry.start) && stamp_is_plain(entry.end) && stamp_is_plain(stamp)
}

/// Whether the texts of an entry can each be written as a line.
pub open spec fn entry_is_safe(entry: EntryView) -> bool {
    &&& line_is_safe("UID"@, entry.uid)
    &&& line_is_safe("SUMMARY"@, entry.summary)
    &&& line_is_safe("DESCRIPTION"@, entry.description)
    &&& line_is_safe("URL"@, entry.url)
    &&& entry.location matches Some(location) ==> line_is_safe("LOCATION"@, location)
}

/// Whether a document can be written: its name and the texts of each of
/// its entries can each be written as a line.
pub open spec fn document_is_safe(document: DocumentView) -> bool {
    &&& line_is_safe("NAME"@, document.name)
    &&& line_is_safe("X-WR-CALNAME"@, document.name)
    &&& forall|i: int|
        0 <= i < document.entries.len() ==> entry_is_safe(#[trigger] document.entries[i])
}

/// No key is written both as text and as it is.
pub proof fn lemma_keys_are_apart()
    ensures
        forall|key: Seq<char>| #[trigger] is_text_key(key) ==> !is_raw_key(key),
{
    reveal_strlit("VERSION");
    reveal_strlit("PRODID");
    reveal_strlit("CALSCALE");
    reveal_strlit("UID");
    reveal_strlit("SUMMARY");
    reveal_strlit("DESCRIPTION");
    reveal_strlit("LOCATION");
    reveal_strlit("X-WR-CALNAME");
    reveal_strlit("URL");
    reveal_strlit("NAME");
    reveal_strlit("DTSTART");
    reveal_strlit("DTEND");
    reveal_strlit("DTSTAMP");
    assert("UID"@.len() == 3 && "URL"@.len() == 3 && "NAME"@.len() == 4 && "DTEND"@.len() == 5);
    assert("PRODID"@.len() == 6 && "VERSION"@.len() == 7 && "SUMMARY"@.len() == 7);
    assert("DTSTART"@.len() == 7 && "DTSTAMP"@.len() == 7 && "CALSCALE"@.len() == 8);
    assert("LOCATION"@.len() == 8 && "DESCRIPTION"@.len() == 11 && "X-WR-CALNAME"@.len() == 12);
    assert("UID"@[1] != "URL"@[1]);
    assert("VERSION"@[0] != "DTSTART"@[0] && "VERSION"@[0] != "DTSTAMP"@[0]);
    assert("SUMMARY"@[0] != "DTSTART"@[0] && "SUMMARY"@[0] != "DTSTAMP"@[0]);
}

/// The component that stands for an entry holds the identifier, the
/// summary, the description, the address, both ends of the entry and the
/// time of writing, each under its own key, the location where the entry
/// has one, and nothing else. An entry of no duration starts and ends
/// with the same stamp.
pub proof fn lemma_entry_properties(entry: EntryView, stamp: int)
    ensures
        entry_properties(entry, stamp)["UID"@] == entry.uid,
        entry_properties(entry, stamp)["SUMMARY"@] == entry.summary,
        entry_properties(entry, stamp)["DESCRIPTION"@] == entry.description,
        entry_properties(entry, stamp)["URL"@] == entry.url,
        entry_properties(entry, stamp)["DTSTART"@] == utc_stamp(entry.start),
        entry_properties(entry, stamp)["DTEND"@] == utc_stamp(entry.end),
        entry_properties(entry, stamp)["DTSTAMP"@] == utc_stamp(stamp),
        entry_properties(entry, stamp).contains_key("UID"@),
        entry_properties(entry, stamp).contains_key("DTSTAMP"@),
        entry_properties(entry, stamp).contains_key("LOCATION"@) <==> entry.location is Some,
        entry.location matches Some(location) ==> entry_properties(entry, stamp)["LOCATION"@]
            == location,
        forall|key: Seq<char>| #[trigger]
            entry_properties(entry, stamp).contains_key(key) ==> key == "UID"@ || key
                == "SUMMARY"@ || key == "DESCRIPTION"@ || key == "URL"@ || key == "DTSTART"@ || key
                == "DTEND"@ || key == "DTSTAMP"@ || key == "LOCATION"@,
        entry.start == entry.end ==> entry_properties(entry, stamp)["DTSTART"@]
            == entry_properties(entry, stamp)["DTEND"@],
{
    reveal_strlit("UID");
    reveal_strlit("SUMMARY");
    reveal_strlit("DESCRIPTION");
    reveal_strlit("URL");
    reveal_strlit("DTSTART");
    reveal_strlit("DTEND");
    reveal_strlit("DTSTAMP");
    reveal_strlit("LOCATION");
    assert("UID"@.len() == 3 && "URL"@.len() == 3 && "DTEND"@.len() == 5);
    assert("SUMMARY"@.len() == 7 && "DTSTART"@.len() == 7 && "DTSTAMP"@.len() == 7);
    assert("LOCATION"@.len() == 8 && "DESCRIPTION"@.len() == 11);
    assert("UID"@[1] != "URL"@[1]);
    assert("SUMMARY"@[0] != "DTSTART"@[0] && "SUMMARY"@[0] != "DTSTAMP"@[0]);
    assert("DTSTART"@[5] != "DTSTAMP"@[5]);
}

/// Plain characters are ASCII characters, each of one byte.
pub proof fn lemma_plain_is_ascii(text: Seq<char>)
    requires
        plain_text(text),
    ensures
        is_ascii_chars(text),
        encode_utf8(text).len() == text.len(),
{
    assert forall|i: int| 0 <= i < text.len() implies '\0' <= #[trigger] text[i] <= '\u{7f}' by {
        assert(plain(text[i]));
    }
    is_ascii_chars_encode_utf8(text);
}

/// A property of plain characters whose line has at most 75 characters
/// can be written, and its line is its key, a colon and its value,
/// whatever the key.
pub proof fn lemma_whole_line_is_safe(key: Seq<char>, value: Seq<char>)
    requires
        written_whole(key, value),
    ensures
        line_is_safe(key, value),
        escaped(value) == value,
{
    reveal_strlit(":");
    lemma_plain_is_not_escaped(value);
    let line = line_of(key, value);
    assert forall|i: int| 0 <= i < line.len() implies plain(#[trigger] line[i]) by {
        if i < key.len() {
            assert(line[i] == key[i]);
        } else if i == key.len() {
            assert(line[i] == ':');
        } else {
            assert(line[i] == value[i - key.len() - 1]);
        }
    }
    lemma_plain_is_ascii(line);
    lemma_short_line_stays(line);
}

/// Every property of the component that stands for a safe entry can be
/// written as a line.
pub proof fn lemma_safe_entry_has_safe_properties(entry: EntryView, stamp: int)
    requires
        entry_is_safe(entry),
        stamps_are_plain(entry, stamp),
    ensures
        forall|key: Seq<char>| #[trigger]
            entry_properties(entry, stamp).contains_key(key) ==> line_is_safe(
                key,
                entry_properties(entry, stamp)[key],
            ),
{
    lemma_entry_properties(entry, stamp);
    reveal_strlit("DTSTART");
    reveal_strlit("DTEND");
    reveal_strlit("DTSTAMP");
    assert(plain_text("DTSTART"@) && plain_text("DTEND"@) && plain_text("DTSTAMP"@));
    lemma_whole_line_is_safe("DTSTART"@, utc_stamp(entry.start));
    lemma_whole_line_is_safe("DTEND"@, utc_stamp(entry.end));
    lemma_whole_line_is_safe("DTSTAMP"@, utc_stamp(stamp));
}

/// The properties that every calendar holds, and a safe name under both
/// of its keys, can each be written as a line.
pub proof fn lemma_safe_document_has_safe_properties(name: Seq<char>)
    requires
        line_is_safe("NAME"@, name),
        line_is_safe("X-WR-CALNAME"@, name),
    ensures
        properties_are_safe(document_properties(name)),
{
    reveal_strlit("VERSION");
    reveal_strlit("2.0");
    reveal_strlit("PRODID");
    reveal_strlit("ICALENDAR-RS");
    reveal_strlit("CALSCALE");
    reveal_strlit("GREGORIAN");
    assert(plain_text("VERSION"@) && plain_text("2.0"@));
    assert(plain_text("PRODID"@) && plain_text("ICALENDAR-RS"@));
    assert(plain_text("CALSCALE"@) && plain_text("GREGORIAN"@));
    lemma_whole_line_is_safe("VERSION"@, "2.0"@);
    lemma_whole_line_is_safe("PRODID"@, "ICALENDAR-RS"@);
    lemma_whole_line_is_safe("CALSCALE"@, "GREGORIAN"@);
    let properties = document_properties(name);
    assert forall|j: int| 0 <= j < properties.len() implies line_is_safe(
        (#[trigger] properties[j]).0,
        properties[j].1,
    ) by {
        if j == 0 {
        } else if j == 1 {
        } else if j == 2 {
        } else if j == 3 {
        } else {
        }
    }
}

/// What a writing of the calendar that stands for a document holds for
/// certain: the identifier of each entry on a line of its own, where it
/// is plain and short, and likewise the name of the calendar.
pub proof fn lemma_written_document(text: Seq<char>, document: DocumentView, stamp: int)
    requires
        written(text, document_properties(document.name), document_events(document, stamp)),
    ensures
        is_calendar_text(text),
        forall|i: int|
            0 <= i < document.entries.len() && written_whole(
                "UID"@,
                (#[trigger] document.entries[i]).uid,
            ) ==> holds_line(text, line_of("UID"@, document.entries[i].uid)),
        written_whole("NAME"@, document.name) ==> holds_line(
            text,
            line_of("NAME"@, document.name),
        ),
{
    let events = document_events(document, stamp);
    assert forall|i: int|
        0 <= i < document.entries.len() && written_whole(
            "UID"@,
            (#[trigger] document.entries[i]).uid,
        ) implies holds_line(text, line_of("UID"@, document.entries[i].uid)) by {
        lemma_entry_properties(document.entries[i], stamp);
        assert(events[i].contains_key("UID"@));
        assert(events[i]["UID"@] == document.entries[i].uid);
    }
    let properties = document_properties(document.name);
    assert(properties[3] == ("NAME"@, document.name));
}

/// The identifier of an event, written as a numeral, is plain and short.
pub proof fn lemma_numeral_is_written_whole(id: u64)
    ensures
        written_whole("UID"@, crate::text::decimal_digits(id as nat)),
{
    reveal_strlit("UID");
    crate::text::lemma_decimal_of_u64(id);
    let digits = crate::text::decimal_digits(id as nat);
    assert forall|i: int| 0 <= i < digits.len() implies plain(#[trigger] digits[i]) by {
        assert('0' <= digits[i] <= '9');
    }
}

/// Whether the texts of `entry` can each be written as a line.
pub fn entry_is_writable(entry: &CalendarEntry) -> (ok: bool)
    ensures
        ok == entry_is_safe(entry@),
{
    proof {
        lemma_keys_are_apart();
        assert(is_text_key("UID"@) && is_text_key("SUMMARY"@) && is_text_key("DESCRIPTION"@));
        assert(is_text_key("LOCATION"@) && is_raw_key("URL"@));
    }
    let location = match &entry.location {
        Some(location) => escaped_line_is_writable("LOCATION", location.as_str()),
        None => true,
    };
    location && escaped_line_is_writable("UID", entry.uid.as_str()) && escaped_line_is_writable(
        "SUMMARY",
        entry.summary.as_str(),
    ) && escaped_line_is_writable("DESCRIPTION", entry.description.as_str())
        && raw_line_is_writable("URL", entry.url.as_str())
}

/// Whether `document` can be written.
pub fn document_is_writable(document: &CalendarDocument) -> (ok: bool)
    ensures
        ok == document_is_safe(document@),
{
    proof {
        lemma_keys_are_apart();
        assert(is_raw_key("NAME"@) && is_text_key("X-WR-CALNAME"@));
    }
    if !raw_line_is_writable("NAME", document.name.as_str()) {
        return false;
    }
    if !escaped_line_is_writable("X-WR-CALNAME", document.name.as_str()) {
        return false;
    }
    let mut i: usize = 0;
    while i < document.entries.len()
        invariant
            i <= document.entries.len(),
            forall|j: int| 0 <= j < i ==> entry_is_safe(#[trigger] document@.entries[j]),
        decreases document.entries.len() - i,
    {
        if !entry_is_writable(&document.entries[i]) {
            assert(!entry_is_safe(document@.entries[i as int]));
            return false;
        }
        i = i + 1;
    }
    true
}

/// Builds the component that stands for `entry`, written at `stamp`.
pub fn to_event(entry: &CalendarEntry, stamp: Instant) -> (event: Event)
    ensures
        event_properties(event) == entry_properties(entry@, stamp@),
        stamps_are_plain(entry@, stamp@),
{
    let mut event = new_event();
    set_uid(&mut event, entry.uid.as_str());
    set_summary(&mut event, entry.summary.as_str());
    set_description(&mut event, entry.description.as_str());
    set_url(&mut event, entry.url.as_str());
    set_start(&mut event, entry.start.unix());
    set_end(&mut event, entry.end.unix());
    set_timestamp(&mut event, stamp.unix());
    match &entry.location {
        Some(location) => {
            set_location(&mut event, location.as_str());
        },
        None => {},
    }
    event
}

/// Builds the calendar that stands for `document`, written at `stamp`.
pub fn to_calendar(document: &CalendarDocument, stamp: Instant) -> (calendar: Calendar)
    ensures
        calendar_properties(calendar) == document_properties(document@.name),
        calendar_events(calendar) == document_events(document@, stamp@),
        forall|j: int|
            0 <= j < document@.entries.len() ==> stamps_are_plain(
                #[trigger] document@.entries[j],
                stamp@,
            ),
{
    let mut calendar = new_calendar();
    set_name(&mut calendar, document.name.as_str());
    let mut i: usize = 0;
    while i < document.entries.len()
        invariant
            i <= document.entries.len(),
            calendar_properties(calendar) == document_properties(document@.name),
            calendar_events(calendar) == document_events(document@, stamp@).take(i as int),
            forall|j: int| 0 <= j < i ==> stamps_are_plain(#[trigger] document@.entries[j], stamp@),
        decreases document.entries.len() - i,
    {
        let event = to_event(&document.entries[i], stamp);
        push_event(&mut calendar, event);
        assert(calendar_events(calendar) =~= document_events(document@, stamp@).take(i + 1));
        i = i + 1;
    }
    assert(document_events(document@, stamp@).take(i as int) =~= document_events(
        document@,
        stamp@,
    ));
    calendar
}

/// Writes `document` as calendar text, with `stamp` as the time of
/// writing on each entry.
///
/// A document that cannot be written safely is not written at all.
/// Every other document is written, and the text is the one that the
/// `icalendar` crate writes for the calendar that stands for the
/// document. In particular it has the frame of a calendar and holds the
/// identifier of each entry, and the name of the calendar, on a line of
/// its own, where they are plain and short.
pub fn serialize(document: &CalendarDocument, stamp: Instant) -> (text: Option<String>)
    ensures
        text is Some <==> document_is_safe(document@),
        text matches Some(t) ==> t@ == document_text(document@, stamp@),
        text matches Some(t) ==> written(
            t@,
            document_properties(document@.name),
            document_events(document@, stamp@),
        ),
        text matches Some(t) ==> forall|i: int|
            0 <= i < document@.entries.len() && written_whole(
                "UID"@,
                (#[trigger] document@.entries[i]).uid,
            ) ==> holds_line(t@, line_of("UID"@, document@.entries[i].uid)),
        text matches Some(t) ==> (written_whole("NAME"@, document@.name) ==> holds_line(
            t@,
            line_of("NAME"@, document@.name),
        )),
{
    if !document_is_writable(document) {
        return None;
    }
    let calendar = to_calendar(document, stamp);
    proof {
        lemma_safe_document_has_safe_properties(document@.name);
        let events = document_events(document@, stamp@);
        assert forall|i: int, key: Seq<char>|
            0 <= i < events.len() && #[trigger] events[i].contains_key(key) implies line_is_safe(
            key,
            events[i][key],
        ) by {
            assert(entry_is_safe(document@.entries[i]));
            assert(stamps_are_plain(document@.entries[i], stamp@));
            lemma_safe_entry_has_safe_properties(document@.entries[i], stamp@);
        }
        assert forall|i: int| 0 <= i < events.len() implies (#[trigger] events[i]).contains_key(
            "UID"@,
        ) && events[i].contains_key("DTSTAMP"@) by {
            lemma_entry_properties(document@.entries[i], stamp@);
        }
    }
    let text = write_calendar(&calendar);
    proof {
        lemma_written_document(text->Some_0@, document@, stamp@);
    }
    text
}

} // verus!
