use icaly::description::{
    best_name, build_description, interest_line, user_lookup, UserQuery, EVENT_USER_LIMIT,
};
use icaly::model::{EventLocation, Instant, InterestedUser, ScheduledEvent};

fn event(description: Option<&str>, user_count: Option<u64>) -> ScheduledEvent {
    ScheduledEvent {
        id: 20,
        guild_id: 10,
        name: String::from("Game night"),
        description: description.map(String::from),
        start: Instant::from_unix(1_700_000_000).unwrap(),
        end: None,
        location: EventLocation::Unspecified,
        user_count,
    }
}

fn user(nick: Option<&str>, global_name: Option<&str>, name: &str) -> InterestedUser {
    InterestedUser {
        nick: nick.map(String::from),
        global_name: global_name.map(String::from),
        name: String::from(name),
    }
}

#[test]
fn description_without_text_or_interest_is_the_link() {
    let text = build_description(&event(None, Some(0)), &Vec::new());
    assert_eq!(text, "https://discord.com/events/10/20");
}

#[test]
fn description_without_a_count_has_no_interest_paragraph() {
    let users = vec![user(None, None, "ann")];
    let text = build_description(&event(None, None), &users);
    assert_eq!(text, "https://discord.com/events/10/20");
}

#[test]
fn description_skips_an_empty_text() {
    let text = build_description(&event(Some(""), None), &Vec::new());
    assert_eq!(text, "https://discord.com/events/10/20");
}

#[test]
fn description_joins_paragraphs_with_a_blank_line() {
    let users = vec![user(Some("Annie"), Some("Ann"), "ann")];
    let text = build_description(&event(Some("Bring snacks."), Some(1)), &users);
    assert_eq!(
        text,
        "Bring snacks.\n\n1 person interested: Annie\n\nhttps://discord.com/events/10/20"
    );
}

#[test]
fn description_keeps_line_breaks_of_the_text() {
    let text = build_description(&event(Some("One\n\nTwo"), None), &Vec::new());
    assert_eq!(text, "One\n\nTwo\n\nhttps://discord.com/events/10/20");
}

#[test]
fn interest_uses_person_for_one_and_people_otherwise() {
    assert_eq!(interest_line(1, &Vec::new()), "1 person interested");
    assert_eq!(interest_line(2, &Vec::new()), "2 people interested");
    assert_eq!(interest_line(0, &Vec::new()), "0 people interested");
    assert_eq!(interest_line(11, &Vec::new()), "11 people interested");
}

#[test]
fn interest_lists_a_complete_sample_without_a_marker() {
    let users = vec![user(None, None, "ann"), user(None, None, "bob")];
    assert_eq!(interest_line(2, &users), "2 people interested: ann, bob");
}

#[test]
fn interest_marks_a_partial_sample() {
    let users = vec![user(None, None, "ann"), user(None, None, "bob")];
    assert_eq!(interest_line(3, &users), "3 people interested: ann, bob, and others");
}

#[test]
fn interest_does_not_mark_a_sample_larger_than_the_count() {
    let users = vec![user(None, None, "ann"), user(None, None, "bob")];
    assert_eq!(interest_line(1, &users), "1 person interested: ann, bob");
}

#[test]
fn interest_without_a_sample_has_no_list() {
    let text = build_description(&event(None, Some(7)), &Vec::new());
    assert_eq!(text, "7 people interested\n\nhttps://discord.com/events/10/20");
}

#[test]
fn names_fall_back_from_nickname_to_display_name_to_account() {
    assert_eq!(best_name(&user(Some("Annie"), Some("Ann"), "ann")), "Annie");
    assert_eq!(best_name(&user(None, Some("Ann"), "ann")), "Ann");
    assert_eq!(best_name(&user(None, None, "ann")), "ann");
    assert_eq!(best_name(&user(Some("Annie"), None, "ann")), "Annie");
}

#[test]
fn user_lookup_asks_only_where_somebody_is_interested() {
    assert_eq!(user_lookup(&event(None, None)), None);
    assert_eq!(user_lookup(&event(None, Some(0))), None);
    assert_eq!(
        user_lookup(&event(None, Some(3))),
        Some(UserQuery { guild_id: 10, event_id: 20, limit: 5, with_member: true })
    );
    assert_eq!(EVENT_USER_LIMIT, 5);
}
