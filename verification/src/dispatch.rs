//! From what the platform reports to what has to be done about it.

use vstd::prelude::*;
use crate::links::{calendar_reply, get_calendar_reply};

verus! {

/// The line that the bot shows as its status.
pub const STATUS: &'static str = "Ping me for a calendar link";

/// Something the platform reported, reduced to what the pipeline needs to
/// know of it.
#[derive(Clone, Debug, PartialEq, Eq)]
#[allow(inconsistent_fields)]
pub enum Notification {
    /// The connection is up; `guilds` are the communities known so far.
    Ready { guilds: Vec<u64> },
    /// A community was joined or became available.
    GuildCreate { guild_id: u64 },
    /// A community was left or went away.
    GuildDelete { guild_id: u64 },
    ScheduledEventCreate { guild_id: u64 },
    ScheduledEventUpdate { guild_id: u64 },
    ScheduledEventDelete { guild_id: u64 },
    /// A user showed interest in an event of the community.
    ScheduledEventUserAdd { guild_id: u64 },
    /// A user withdrew their interest in an event of the community.
    ScheduledEventUserRemove { guild_id: u64 },
    /// A message was posted; `guild_id` is the community it was posted
    /// in, if any, and `mentions_me` says whether it addresses the bot.
    Message { guild_id: Option<u64>, mentions_me: bool },
}

/// One thing to do for one community.
#[derive(Clone, Debug, PartialEq, Eq)]
pub enum Action {
    /// Fetch the community's events and publish its calendar anew.
    Publish(u64),
    /// Remove the community's calendar.
    Delete(u64),
    /// Answer the message with this text.
    Reply(String),
}

/// The view of an [`Action`].
pub enum ActionView {
    Publish(u64),
    Delete(u64),
    Reply(Seq<char>),
}

impl View for Action {
    type V = ActionView;

    open spec fn view(&self) -> ActionView {
        match *self {
            Action::Publish(guild_id) => ActionView::Publish(guild_id),
            Action::Delete(guild_id) => ActionView::Delete(guild_id),
            Action::Reply(text) => ActionView::Reply(text@),
        }
    }
}

/// The views of a list of actions, in order.
pub open spec fn action_views(actions: Seq<Action>) -> Seq<ActionView> {
    Seq::new(actions.len(), |i: int| actions[i]@)
}

/// One publication for each of `guilds`, in the same order.
pub open spec fn publish_all(guilds: Seq<u64>) -> Seq<ActionView> {
    Seq::new(guilds.len(), |i: int| ActionView::Publish(guilds[i]))
}

/// What a notification asks for. Only the start asks for more than one
/// action; a message outside any community, or one that does not address
/// the bot, asks for none.
pub open spec fn actions_for(notification: Notification) -> Seq<ActionView> {
    match notification {
        Notification::Ready { guilds } => publish_all(guilds@),
        Notification::GuildCreate { guild_id } => seq![ActionView::Publish(guild_id)],
        Notification::GuildDelete { guild_id } => seq![ActionView::Delete(guild_id)],
        Notification::ScheduledEventCreate { guild_id } => seq![ActionView::Publish(guild_id)],
        Notification::ScheduledEventUpdate { guild_id } => seq![ActionView::Publish(guild_id)],
        Notification::ScheduledEventDelete { guild_id } => seq![ActionView::Publish(guild_id)],
        Notification::ScheduledEventUserAdd { guild_id } => seq![ActionView::Publish(guild_id)],
        Notification::ScheduledEventUserRemove { guild_id } => seq![ActionView::Publish(guild_id)],
        Notification::Message { guild_id, mentions_me } => match guild_id {
            Some(guild_id) => if mentions_me {
                seq![ActionView::Reply(calendar_reply(guild_id))]
            } else {
                Seq::empty()
            },
            None => Seq::empty(),
        },
    }
}

/// Asks for the calendar of every known community to be published, in
/// the order in which the communities are given.
pub fn setup_calendars(guilds: &Vec<u64>) -> (actions: Vec<Action>)
    ensures
        action_views(actions@) == publish_all(guilds@),
{
    let mut actions: Vec<Action> = Vec::new();
    let mut i: usize = 0;
    while i < guilds.len()
        invariant
            i <= guilds.len(),
            actions.len() == i,
            forall|j: int| 0 <= j < i ==> (#[trigger] actions@[j])@ == ActionView::Publish(guilds@[j]),
        decreases guilds.len() - i,
    {
        actions.push(Action::Publish(guilds[i]));
        i = i + 1;
    }
    assert(action_views(actions@) =~= publish_all(guilds@));
    actions
}

/// Answers a message: where it addresses the bot from within a community,
/// with the address of that community's feed and how to subscribe to it.
pub fn message(guild_id: Option<u64>, mentions_me: bool) -> (reply: Option<String>)
    ensures
        crate::text::opt_view(reply) == match guild_id {
            Some(guild_id) => if mentions_me {
                Some(calendar_reply(guild_id))
            } else {
                None
            },
            None => None,
        },
{
    if !mentions_me {
        return None;
    }
    match guild_id {
        Some(guild_id) => Some(get_calendar_reply(guild_id)),
        None => None,
    }
}

/// Resolves a notification to the actions it asks for.
pub fn dispatch(notification: &Notification) -> (actions: Vec<Action>)
    ensures
        action_views(actions@) == actions_for(*notification),
{
    let mut actions: Vec<Action> = Vec::new();
    match notification {
        Notification::Ready { guilds } => {
            actions = setup_calendars(guilds);
        },
        Notification::GuildCreate { guild_id } => {
            actions.push(Action::Publish(*guild_id));
        },
        Notification::GuildDelete { guild_id } => {
            actions.push(Action::Delete(*guild_id));
        },
        Notification::ScheduledEventCreate { guild_id } => {
            actions.push(Action::Publish(*guild_id));
        },
        Notification::ScheduledEventUpdate { guild_id } => {
            actions.push(Action::Publish(*guild_id));
        },
        Notification::ScheduledEventDelete { guild_id } => {
            actions.push(Action::Publish(*guild_id));
        },
        Notification::ScheduledEventUserAdd { guild_id } => {
            actions.push(Action::Publish(*guild_id));
        },
        Notification::ScheduledEventUserRemove { guild_id } => {
            actions.push(Action::Publish(*guild_id));
        },
        Notification::Message { guild_id, mentions_me } => {
            match message(*guild_id, *mentions_me) {
                Some(text) => {
                    actions.push(Action::Reply(text));
                },
                None => {},
            }
        },
    }
    assert(action_views(actions@) =~= actions_for(*notification));
    actions
}

} // verus!
