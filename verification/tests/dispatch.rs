use icaly::dispatch::{dispatch, message, setup_calendars, Action, Notification, STATUS};
use icaly::links::get_calendar_reply;

#[test]
fn ready_publishes_every_known_community_in_order() {
    let actions = dispatch(&Notification::Ready { guilds: vec![3, 1, 2] });
    assert_eq!(actions, vec![Action::Publish(3), Action::Publish(1), Action::Publish(2)]);
    assert_eq!(setup_calendars(&vec![3, 1, 2]), actions);
}

#[test]
fn ready_without_communities_asks_for_nothing() {
    assert_eq!(dispatch(&Notification::Ready { guilds: Vec::new() }), Vec::new());
}

#[test]
fn joining_publishes_and_leaving_deletes() {
    assert_eq!(dispatch(&Notification::GuildCreate { guild_id: 9 }), vec![Action::Publish(9)]);
    assert_eq!(dispatch(&Notification::GuildDelete { guild_id: 9 }), vec![Action::Delete(9)]);
}

#[test]
fn every_change_to_an_event_publishes_its_community() {
    let publish = vec![Action::Publish(9)];
    assert_eq!(dispatch(&Notification::ScheduledEventCreate { guild_id: 9 }), publish);
    assert_eq!(dispatch(&Notification::ScheduledEventUpdate { guild_id: 9 }), publish);
    assert_eq!(dispatch(&Notification::ScheduledEventDelete { guild_id: 9 }), publish);
    assert_eq!(dispatch(&Notification::ScheduledEventUserAdd { guild_id: 9 }), publish);
    assert_eq!(dispatch(&Notification::ScheduledEventUserRemove { guild_id: 9 }), publish);
}

#[test]
fn a_mention_in_a_community_is_answered_with_the_link() {
    let actions = dispatch(&Notification::Message { guild_id: Some(9), mentions_me: true });
    assert_eq!(actions, vec![Action::Reply(get_calendar_reply(9))]);
    assert_eq!(message(Some(9), true), Some(get_calendar_reply(9)));
}

#[test]
fn other_messages_are_not_answered() {
    assert_eq!(dispatch(&Notification::Message { guild_id: Some(9), mentions_me: false }), Vec::new());
    assert_eq!(dispatch(&Notification::Message { guild_id: None, mentions_me: true }), Vec::new());
    assert_eq!(dispatch(&Notification::Message { guild_id: None, mentions_me: false }), Vec::new());
    assert_eq!(message(None, true), None);
    assert_eq!(message(Some(9), false), None);
}

#[test]
fn status_invites_to_ping() {
    assert_eq!(STATUS, "Ping me for a calendar link");
}
