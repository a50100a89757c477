use icaly::calendar::{
    assemble, build_calendar, build_event, events_lookup, AssemblyError, CalendarEntry,
    EventsQuery, FetchedEvent,
};
use icaly::model::{EventLocation, Instant, InterestedUser, ScheduledEvent};

fn at(secs: i64) -> Instant {
    Instant::from_unix(secs).unwrap()
}

fn fetched(id: u64, name: &str, start: i64, end: Option<i64>) -> FetchedEvent {
    FetchedEvent {
        event: ScheduledEvent {
            id,
            guild_id: 111,
            name: String::from(name),
            description: None,
            start: at(start),
            end: end.map(at),
            location: EventLocation::Unspecified,
            user_count: None,
        },
        users: Vec::new(),
        channel_name: None,
    }
}

#[test]
fn entry_without_an_end_ends_when_it_starts() {
    let entry = build_event(&fetched(999, "Standup", 1_704_099_600, None));
    assert_eq!(entry.start, at(1_704_099_600));
    assert_eq!(entry.end, at(1_704_099_600));
}

#[test]
fn entry_with_an_end_keeps_it() {
    let entry = build_event(&fetched(999, "Standup", 1_704_099_600, Some(1_704_103_200)));
    assert_eq!(entry.start, at(1_704_099_600));
    assert_eq!(entry.end, at(1_704_103_200));
}

#[test]
fn entry_copies_identifier_name_and_link() {
    let entry = build_event(&fetched(999, "Standup", 0, None));
    assert_eq!(
        entry,
        CalendarEntry {
            uid: String::from("999"),
            summary: String::from("Standup"),
            description: String::from("https://discord.com/events/111/999"),
            url: String::from("https://discord.com/events/111/999"),
            start: at(0),
            end: at(0),
            location: None,
        }
    );
}

#[test]
fn entry_is_enriched_with_users_and_channel() {
    let mut source = fetched(999, "Standup", 0, None);
    source.event.description = Some(String::from("Daily sync"));
    source.event.user_count = Some(4);
    source.event.location = EventLocation::Channel(5);
    source.users = vec![
        InterestedUser { nick: None, global_name: Some(String::from("Ann")), name: String::from("ann") },
        InterestedUser { nick: Some(String::from("Bobby")), global_name: None, name: String::from("bob") },
    ];
    source.channel_name = Some(String::from("General"));
    let entry = build_event(&source);
    assert_eq!(
        entry.description,
        "Daily sync\n\n4 people interested: Ann, Bobby, and others\n\nhttps://discord.com/events/111/999"
    );
    assert_eq!(entry.location, Some(String::from("\u{1F50A} General")));
}

#[test]
fn entry_ignores_a_channel_name_for_a_free_text_location() {
    let mut source = fetched(1, "Picnic", 0, None);
    source.event.location = EventLocation::External(String::from("Park"));
    source.channel_name = Some(String::from("General"));
    assert_eq!(build_event(&source).location, Some(String::from("Park")));
}

#[test]
fn calendar_keeps_the_order_of_the_events() {
    let events = vec![
        fetched(3, "Third", 300, None),
        fetched(1, "First", 100, None),
        fetched(2, "Second", 200, None),
    ];
    let document = build_calendar(&Some(String::from("Acme")), &events);
    assert_eq!(document.name, "Acme");
    let uids: Vec<&str> = document.entries.iter().map(|entry| entry.uid.as_str()).collect();
    assert_eq!(uids, vec!["3", "1", "2"]);
    assert_eq!(document.entries[1], build_event(&events[1]));
}

#[test]
fn calendar_without_a_known_name_is_called_discord() {
    let document = build_calendar(&None, &Vec::new());
    assert_eq!(document.name, "Discord");
}

#[test]
fn calendar_without_events_has_no_entries() {
    let document = build_calendar(&Some(String::from("Acme")), &Vec::new());
    assert_eq!(document.name, "Acme");
    assert!(document.entries.is_empty());
}

#[test]
fn assembly_fails_only_without_the_list_of_events() {
    assert_eq!(assemble(&Some(String::from("Acme")), &None), Err(AssemblyError::EventsUnavailable));
    let empty = assemble(&Some(String::from("Acme")), &Some(Vec::new()));
    assert_eq!(empty, Ok(build_calendar(&Some(String::from("Acme")), &Vec::new())));
    let events = vec![fetched(1, "First", 100, None)];
    let one = assemble(&None, &Some(events.clone()));
    assert_eq!(one, Ok(build_calendar(&None, &events)));
    assert_eq!(one.unwrap().entries.len(), 1);
}

#[test]
fn a_failed_lookup_of_users_counts_as_an_empty_sample() {
    let source = fetched(1, "First", 100, None);
    let failed = FetchedEvent::from_lookups(source.event.clone(), None, None);
    assert_eq!(failed, source);
    let users = vec![InterestedUser {
        nick: None,
        global_name: None,
        name: String::from("ann"),
    }];
    let found = FetchedEvent::from_lookups(
        source.event.clone(),
        Some(users.clone()),
        Some(String::from("General")),
    );
    assert_eq!(found.event, source.event);
    assert_eq!(found.users, users);
    assert_eq!(found.channel_name, Some(String::from("General")));
}

#[test]
fn a_failed_lookup_does_not_stop_the_entry() {
    let mut source = fetched(999, "Standup", 0, None);
    source.event.user_count = Some(3);
    source.event.location = EventLocation::Channel(5);
    let entry = build_event(&FetchedEvent::from_lookups(source.event, None, None));
    assert_eq!(
        entry.description,
        "3 people interested\n\nhttps://discord.com/events/111/999"
    );
    assert_eq!(entry.location, None);
}

#[test]
fn the_list_of_events_is_asked_for_with_the_counts() {
    assert_eq!(events_lookup(111), EventsQuery { guild_id: 111, with_user_count: true });
    assert_eq!(events_lookup(0), EventsQuery { guild_id: 0, with_user_count: true });
}
