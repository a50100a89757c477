use icaly::calendar::FetchedEvent;
use icaly::dispatch::{dispatch, Action, Notification};
use icaly::model::{EventLocation, Instant, ScheduledEvent};
use icaly::publish::{
    delete_calendar, publish_calendar, store_calendar, PublishError, StoreAction,
};

fn now() -> Instant {
    Instant::from_unix(1_700_000_000).unwrap()
}

fn standup() -> FetchedEvent {
    FetchedEvent {
        event: ScheduledEvent {
            id: 999,
            guild_id: 111,
            name: String::from("Standup"),
            description: None,
            start: Instant::from_unix(1_704_099_600).unwrap(),
            end: None,
            location: EventLocation::Channel(5),
            user_count: Some(0),
        },
        users: Vec::new(),
        channel_name: Some(String::from("General")),
    }
}

#[test]
fn publishing_one_event_writes_one_entry_to_the_community_file() {
    let action = publish_calendar("out", 111, &Some(String::from("Acme")), &Some(vec![standup()]), now());
    let StoreAction::Write { guild_id, path, text } = action else {
        panic!("expected a write, got {:?}", action);
    };
    assert_eq!(guild_id, 111);
    assert_eq!(path, "out/111");
    assert!(text.starts_with("BEGIN:VCALENDAR\r\n"));
    assert!(text.ends_with("END:VCALENDAR\r\n"));
    assert!(text.contains("\r\nNAME:Acme\r\n"));
    assert_eq!(text.matches("BEGIN:VEVENT\r\n").count(), 1);
    assert!(text.contains("\r\nUID:999\r\n"));
    assert!(text.contains("\r\nSUMMARY:Standup\r\n"));
    assert!(text.contains("\r\nDTSTART:20240101T090000Z\r\n"));
    assert!(text.contains("\r\nDTEND:20240101T090000Z\r\n"));
    assert!(text.contains("\r\nLOCATION:\u{1F50A} General\r\n"));
    assert!(text.contains("\r\nURL:https://discord.com/events/111/999\r\n"));
    assert!(text.contains("\r\nDESCRIPTION:https://discord.com/events/111/999\r\n"));
    assert!(!text.contains("interested"));
}

#[test]
fn publishing_no_events_writes_a_calendar_without_entries() {
    let action = publish_calendar(".", 111, &Some(String::from("Acme")), &Some(Vec::new()), now());
    assert_eq!(
        action,
        StoreAction::Write {
            guild_id: 111,
            path: String::from("./111"),
            text: String::from(
                "BEGIN:VCALENDAR\r\nVERSION:2.0\r\nPRODID:ICALENDAR-RS\r\nCALSCALE:GREGORIAN\r\nNAME:Acme\r\nX-WR-CALNAME:Acme\r\nEND:VCALENDAR\r\n"
            ),
        }
    );
}

#[test]
fn publishing_without_the_list_of_events_keeps_the_file() {
    let action = publish_calendar(".", 111, &Some(String::from("Acme")), &None, now());
    assert_eq!(action, StoreAction::Keep(PublishError::EventsUnavailable));
}

#[test]
fn publishing_without_a_known_name_uses_the_default() {
    let action = publish_calendar(".", 111, &None, &Some(Vec::new()), now());
    let StoreAction::Write { text, .. } = action else {
        panic!("expected a write, got {:?}", action);
    };
    assert!(text.contains("\r\nNAME:Discord\r\n"));
}

#[test]
fn written_text_goes_to_the_community_file() {
    assert_eq!(
        store_calendar("out", 7, Some(String::from("text"))),
        StoreAction::Write { guild_id: 7, path: String::from("out/7"), text: String::from("text") }
    );
    assert_eq!(store_calendar("out", 7, None), StoreAction::Keep(PublishError::NotWritten));
}

#[test]
fn leaving_a_community_deletes_its_file() {
    let actions = dispatch(&Notification::GuildDelete { guild_id: 111 });
    assert_eq!(actions, vec![Action::Delete(111)]);
    assert_eq!(
        delete_calendar("out", 111),
        StoreAction::Delete { guild_id: 111, path: String::from("out/111") }
    );
}

#[test]
fn deleting_names_the_same_file_as_publishing() {
    let written = publish_calendar("out/", 5, &None, &Some(Vec::new()), now());
    let StoreAction::Write { path, .. } = written else {
        panic!("expected a write, got {:?}", written);
    };
    assert_eq!(delete_calendar("out/", 5), StoreAction::Delete { guild_id: 5, path });
}

#[test]
fn a_calendar_that_cannot_be_written_safely_keeps_the_file() {
    let mut long = standup();
    long.event.name = "\u{a0}".repeat(150);
    let action =
        publish_calendar("out", 111, &Some(String::from("Acme")), &Some(vec![long]), now());
    assert_eq!(action, StoreAction::Keep(PublishError::NotWritten));
    let wide_name = "\u{a0}".repeat(150);
    let action = publish_calendar("out", 111, &Some(wide_name), &Some(Vec::new()), now());
    assert_eq!(action, StoreAction::Keep(PublishError::NotWritten));
}

#[test]
fn long_texts_in_any_script_are_published() {
    let mut long = standup();
    long.event.name = "\u{4f1a}\u{8b70}".repeat(40);
    long.event.description = Some("\u{65e5}\u{672c}\u{8a9e}\u{306e}\u{8aac}\u{660e}".repeat(60));
    let name = Some("\u{30b3}\u{30df}\u{30e5}\u{30cb}\u{30c6}\u{30a3}".repeat(10));
    let action = publish_calendar("out", 111, &name, &Some(vec![long]), now());
    let StoreAction::Write { text, .. } = action else {
        panic!("expected a write, got {:?}", action);
    };
    let parsed: icalendar::Calendar = text.parse().unwrap();
    assert_eq!(parsed.components.len(), 1);
    let wide = "\u{3000}".repeat(30);
    let action = publish_calendar("out", 111, &Some(wide), &Some(Vec::new()), now());
    assert!(matches!(action, StoreAction::Write { .. }));
}

#[test]
fn the_text_depends_on_nothing_but_what_is_handed_in() {
    let events = Some(vec![standup()]);
    let name = Some(String::from("Acme"));
    let first = publish_calendar("out", 111, &name, &events, now());
    let second = publish_calendar("out", 111, &name, &events, now());
    assert_eq!(first, second);
    let StoreAction::Write { text, .. } = first else {
        panic!("expected a write, got {:?}", first);
    };
    assert!(text.contains("\r\nDTSTAMP:20231114T221320Z\r\n"));
    assert_eq!(text.matches("DTSTAMP").count(), 1);
    let later = Instant::from_unix(1_700_000_001).unwrap();
    let third = publish_calendar("out", 111, &name, &events, later);
    assert_ne!(third, second);
}

#[test]
fn every_event_has_its_identifier_on_a_line_of_the_written_text() {
    let mut second = standup();
    second.event.id = u64::MAX;
    let events = vec![standup(), second];
    let action = publish_calendar("out", 111, &None, &Some(events), now());
    let StoreAction::Write { text, .. } = action else {
        panic!("expected a write, got {:?}", action);
    };
    assert!(text.contains("\r\nUID:999\r\n"));
    assert!(text.contains("\r\nUID:18446744073709551615\r\n"));
    assert!(text.contains("\r\nNAME:Discord\r\n"));
}
