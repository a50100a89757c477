use icaly::links::{get_calendar_path, get_calendar_reply, get_calendar_url, get_event_url};
use icaly::model::Instant;

#[test]
fn event_url_names_community_then_event() {
    assert_eq!(get_event_url(111, 999), "https://discord.com/events/111/999");
    assert_eq!(
        get_event_url(0, u64::MAX),
        "https://discord.com/events/0/18446744073709551615"
    );
}

#[test]
fn calendar_url_ends_in_the_identifier() {
    assert_eq!(get_calendar_url(111), "https://icaly.xyz/111");
}

#[test]
fn calendar_path_lies_directly_below_the_directory() {
    assert_eq!(get_calendar_path(".", 111), "./111");
    assert_eq!(get_calendar_path("/srv/public", 42), "/srv/public/42");
}

#[test]
fn calendar_path_adds_no_second_separator() {
    assert_eq!(get_calendar_path("out/", 111), "out/111");
    assert_eq!(get_calendar_path("/", 7), "/7");
}

#[test]
fn calendar_path_below_the_empty_directory_is_the_identifier() {
    assert_eq!(get_calendar_path("", 111), "111");
}

#[test]
fn calendar_path_handles_names_beyond_ascii() {
    assert_eq!(get_calendar_path("öffentlich", 3), "öffentlich/3");
}

#[test]
fn reply_holds_the_link_and_the_instructions() {
    let reply = get_calendar_reply(111);
    assert!(reply.starts_with("1. Copy this link: https://icaly.xyz/111\n2. Add to your calendar: [Google]("));
    assert!(reply.ends_with("[Proton](<https://proton.me/support/subscribe-to-external-calendar#subscribe-external-link>)"));
    assert_eq!(reply.lines().count(), 2);
}

#[test]
fn instants_cover_the_years_one_to_9999() {
    assert_eq!(Instant::from_unix(0).map(|i| i.unix()), Some(0));
    assert_eq!(Instant::from_unix(-62_135_596_800).map(|i| i.unix()), Some(-62_135_596_800));
    assert_eq!(Instant::from_unix(253_402_300_799).map(|i| i.unix()), Some(253_402_300_799));
    assert_eq!(Instant::from_unix(-62_135_596_801), None);
    assert_eq!(Instant::from_unix(253_402_300_800), None);
    assert_eq!(Instant::from_unix(i64::MIN), None);
    assert_eq!(Instant::from_unix(i64::MAX), None);
}

#[test]
fn instant_bounds_are_the_first_and_last_second_of_the_range() {
    let first = chrono::DateTime::from_timestamp(-62_135_596_800, 0).unwrap();
    assert_eq!(first.to_rfc3339(), "0001-01-01T00:00:00+00:00");
    let last = chrono::DateTime::from_timestamp(253_402_300_799, 0).unwrap();
    assert_eq!(last.to_rfc3339(), "9999-12-31T23:59:59+00:00");
}

#[test]
fn instants_beyond_the_range_saturate_at_its_bounds() {
    assert_eq!(Instant::saturating_from_unix(1_704_099_600).unix(), 1_704_099_600);
    assert_eq!(Instant::saturating_from_unix(-62_135_596_800).unix(), -62_135_596_800);
    assert_eq!(Instant::saturating_from_unix(-62_135_596_801).unix(), -62_135_596_800);
    assert_eq!(Instant::saturating_from_unix(i64::MIN).unix(), -62_135_596_800);
    assert_eq!(Instant::saturating_from_unix(253_402_300_800).unix(), 253_402_300_799);
    assert_eq!(Instant::saturating_from_unix(i64::MAX).unix(), 253_402_300_799);
}

#[test]
fn different_communities_have_different_files() {
    assert_ne!(get_calendar_path("out", 1), get_calendar_path("out", 11));
    assert_ne!(get_calendar_path("out/1", 1), get_calendar_path("out/1", 11));
    assert_ne!(get_calendar_path("", 10), get_calendar_path("", 100));
}
