use icaly::location::{channel_lookup, get_location};
use icaly::model::{EventLocation, Instant, ScheduledEvent};

fn event_at(location: EventLocation) -> ScheduledEvent {
    ScheduledEvent {
        id: 2,
        guild_id: 1,
        name: String::from("Talk"),
        description: None,
        start: Instant::from_unix(0).unwrap(),
        end: None,
        location,
        user_count: None,
    }
}

#[test]
fn free_text_location_is_passed_on_unchanged() {
    let location = EventLocation::External(String::from("Town hall, room 3"));
    assert_eq!(get_location(&location, &None), Some(String::from("Town hall, room 3")));
    assert_eq!(
        get_location(&location, &Some(String::from("General"))),
        Some(String::from("Town hall, room 3"))
    );
    let empty = EventLocation::External(String::new());
    assert_eq!(get_location(&empty, &None), Some(String::new()));
}

#[test]
fn channel_location_is_its_name_behind_the_sign() {
    let location = EventLocation::Channel(5);
    assert_eq!(
        get_location(&location, &Some(String::from("General"))),
        Some(String::from("\u{1F50A} General"))
    );
}

#[test]
fn channel_without_a_name_gives_no_location() {
    assert_eq!(get_location(&EventLocation::Channel(5), &None), None);
}

#[test]
fn no_source_gives_no_location() {
    assert_eq!(get_location(&EventLocation::Unspecified, &None), None);
    assert_eq!(get_location(&EventLocation::Unspecified, &Some(String::from("General"))), None);
}

#[test]
fn a_channel_wins_over_free_text() {
    assert_eq!(
        EventLocation::from_parts(Some(5), Some(String::from("Park"))),
        EventLocation::Channel(5)
    );
    assert_eq!(EventLocation::from_parts(Some(5), None), EventLocation::Channel(5));
    assert_eq!(
        EventLocation::from_parts(None, Some(String::from("Park"))),
        EventLocation::External(String::from("Park"))
    );
    assert_eq!(EventLocation::from_parts(None, None), EventLocation::Unspecified);
}

#[test]
fn channel_lookup_asks_only_for_channels() {
    assert_eq!(channel_lookup(&event_at(EventLocation::Channel(5))), Some(5));
    assert_eq!(channel_lookup(&event_at(EventLocation::External(String::from("Park")))), None);
    assert_eq!(channel_lookup(&event_at(EventLocation::Unspecified)), None);
}
