//! The description of a calendar entry: what the event says about itself,
//! who is interested, and where to find it on the platform.

use vstd::prelude::*;
use crate::links::{event_url, get_event_url};
use crate::model::{user_views, EventView, InterestedUser, ScheduledEvent, UserView};
use crate::text::{decimal, decimal_digits, join, joined, lemma_joined_ends, views};

verus! {

/// How many interested users are asked for at most, for one event.
pub const EVENT_USER_LIMIT: u64 = 5;

/// The name a user is shown by: the nickname in the community, else the
/// display name on the platform, else the account name.
pub open spec fn display_name(user: UserView) -> Seq<char> {
    match user.nick {
        Some(nick) => nick,
        None => match user.global_name {
            Some(global_name) => global_name,
            None => user.name,
        },
    }
}

/// The shown names of a list of users, in order.
pub open spec fn display_names(users: Seq<UserView>) -> Seq<Seq<char>> {
    Seq::new(users.len(), |i: int| display_name(users[i]))
}

/// "person" for one, "people" for any other number.
pub open spec fn interest_noun(count: nat) -> Seq<char> {
    if count == 1 {
        "person"@
    } else {
        "people"@
    }
}

/// The names as they are listed: the sample, followed by "and others"
/// where the sample is smaller than the number of interested users.
pub open spec fn listed_names(count: nat, names: Seq<Seq<char>>) -> Seq<Seq<char>> {
    if names.len() < count {
        names.push("and others"@)
    } else {
        names
    }
}

/// The paragraph on interest: the number, the noun, and, where a sample of
/// names is at hand, the listed names after a colon.
pub open spec fn interest_paragraph(count: nat, names: Seq<Seq<char>>) -> Seq<char> {
    let head = decimal_digits(count) + " "@ + interest_noun(count) + " interested"@;
    if names.len() > 0 {
        head + ": "@ + joined(listed_names(count, names), ", "@)
    } else {
        head
    }
}

/// The paragraphs a description is made of, each in its place.
pub struct DescriptionParts {
    /// The event's own description, where it has a non-empty one.
    pub about: Option<Seq<char>>,
    /// The paragraph on interest, where anyone is interested.
    pub interest: Option<Seq<char>>,
    /// The address of the event's page.
    pub link: Seq<char>,
}

impl DescriptionParts {
    /// The paragraphs that are present, in order.
    pub open spec fn paragraphs(self) -> Seq<Seq<char>> {
        let about = match self.about {
            Some(text) => seq![text],
            None => Seq::empty(),
        };
        let interest = match self.interest {
            Some(text) => seq![text],
            None => Seq::empty(),
        };
        about + interest + seq![self.link]
    }

    /// The paragraphs with a blank line between each two.
    pub open spec fn text(self) -> Seq<char> {
        joined(self.paragraphs(), "\n\n"@)
    }
}

/// The paragraphs of the description of `event`, given the sample `users`
/// of those interested in it.
pub open spec fn description_parts(event: EventView, users: Seq<UserView>) -> DescriptionParts {
    DescriptionParts {
        about: match event.description {
            Some(text) => if text.len() > 0 {
                Some(text)
            } else {
                None
            },
            None => None,
        },
        interest: if event.interested() > 0 {
            Some(interest_paragraph(event.interested(), display_names(users)))
        } else {
            None
        },
        link: event_url(event.guild_id, event.id),
    }
}

/// A request for a sample of the users interested in an event.
#[derive(Clone, Copy, Debug, PartialEq, Eq, Structural)]
pub struct UserQuery {
    pub guild_id: u64,
    pub event_id: u64,
    /// The largest number of users to return.
    pub limit: u64,
    /// Whether each user's membership in the community is wanted too: it
    /// holds the nickname.
    pub with_member: bool,
}

/// The sample of interested users that the description of `event` needs:
/// none where nobody is interested.
pub fn user_lookup(event: &ScheduledEvent) -> (query: Option<UserQuery>)
    ensures
        query == if event@.interested() > 0 {
            Some(
                UserQuery {
                    guild_id: event.guild_id,
                    event_id: event.id,
                    limit: EVENT_USER_LIMIT,
                    with_member: true,
                },
            )
        } else {
            None
        },
{
    let count = match event.user_count {
        Some(count) => count,
        None => 0,
    };
    if count > 0 {
        Some(
            UserQuery {
                guild_id: event.guild_id,
                event_id: event.id,
                limit: EVENT_USER_LIMIT,
                with_member: true,
            },
        )
    } else {
        None
    }
}

/// The name that `user` is shown by.
pub fn best_name(user: &InterestedUser) -> (name: String)
    ensures
        name@ == display_name(user@),
{
    match &user.nick {
        Some(nick) => nick.clone(),
        None => match &user.global_name {
            Some(global_name) => global_name.clone(),
            None => user.name.clone(),
        },
    }
}

/// The paragraph on interest in an event with `count` interested users, of
/// whom `users` is a sample.
pub fn interest_line(count: u64, users: &Vec<InterestedUser>) -> (line: String)
    ensures
        line@ == interest_paragraph(count as nat, display_names(user_views(users@))),
{
    let ghost names = display_names(user_views(users@));
    let mut line = decimal(count);
    line.append(" ");
    if count == 1 {
        line.append("person");
    } else {
        line.append("people");
    }
    line.append(" interested");
    if users.len() > 0 {
        let mut listed: Vec<String> = Vec::new();
        let mut i: usize = 0;
        while i < users.len()
            invariant
                i <= users.len(),
                names == display_names(user_views(users@)),
                names.len() == users.len(),
                listed.len() == i,
                forall|j: int| 0 <= j < i ==> (#[trigger] listed@[j])@ == names[j],
            decreases users.len() - i,
        {
            let name = best_name(&users[i]);
            assert(name@ == names[i as int]) by {
                assert(user_views(users@)[i as int] == users@[i as int]@);
            }
            listed.push(name);
            i = i + 1;
        }
        assert(views(listed@) =~= names);
        if (users.len() as u64) < count {
            listed.push(String::from_str("and others"));
        }
        assert(views(listed@) =~= listed_names(count as nat, names));
        line.append(": ");
        line.append(join(&listed, ", ").as_str());
    }
    line
}

/// Composes the description of `event`. `users` is the sample of those
/// interested in it; it is only looked at where the event reports anyone
/// as interested.
pub fn build_description(event: &ScheduledEvent, users: &Vec<InterestedUser>) -> (text: String)
    ensures
        text@ == description_parts(event@, user_views(users@)).text(),
{
    let ghost parts = description_parts(event@, user_views(users@));
    let mut paragraphs: Vec<String> = Vec::new();
    match &event.description {
        Some(description) => {
            if !description.as_str().is_empty() {
                paragraphs.push(description.clone());
            }
        },
        None => {},
    }
    let user_count = match event.user_count {
        Some(count) => count,
        None => 0,
    };
    if user_count > 0 {
        paragraphs.push(interest_line(user_count, users));
    }
    paragraphs.push(get_event_url(event.guild_id, event.id));
    assert(views(paragraphs@) =~= parts.paragraphs());
    join(&paragraphs, "\n\n")
}

/// The interest paragraph is there exactly where somebody is interested,
/// and the link to the event's page always closes the description.
pub proof fn lemma_interest_shown_iff_interested(event: EventView, users: Seq<UserView>)
    ensures
        description_parts(event, users).interest is Some <==> event.interested() > 0,
        description_parts(event, users).interest matches Some(text) ==> text == interest_paragraph(
            event.interested(),
            display_names(users),
        ),
        description_parts(event, users).paragraphs().last() == event_url(
            event.guild_id,
            event.id,
        ),
{
}

/// Every description closes with the link to the event's page, and one
/// of an event that describes itself opens with that description.
pub proof fn lemma_description_closes_with_the_link(event: EventView, users: Seq<UserView>)
    ensures
        event_url(event.guild_id, event.id).is_suffix_of(
            description_parts(event, users).text(),
        ),
        description_parts(event, users).about matches Some(about) ==> about.is_prefix_of(
            description_parts(event, users).text(),
        ),
{
    let parts = description_parts(event, users);
    lemma_joined_ends(parts.paragraphs(), "\n\n"@);
}

/// Where the sample is not empty and smaller than the number of
/// interested users, the interest paragraph closes with ", and others".
pub proof fn lemma_partial_sample_closes_with_and_others(count: nat, names: Seq<Seq<char>>)
    requires
        0 < names.len() < count,
    ensures
        ", and others"@.is_suffix_of(interest_paragraph(count, names)),
{
    reveal_strlit(", ");
    reveal_strlit("and others");
    reveal_strlit(", and others");
    let listed = listed_names(count, names);
    let list = joined(listed, ", "@);
    let whole = interest_paragraph(count, names);
    lemma_joined_ends(listed, ", "@);
    assert(", "@ + listed.last() =~= ", and others"@);
    assert(", and others"@.is_suffix_of(list));
    assert(list.is_suffix_of(whole)) by {
        assert(whole.subrange(whole.len() - list.len(), whole.len() as int) =~= list);
    }
    assert(whole.subrange(whole.len() - 12, whole.len() as int) =~= list.subrange(
        list.len() - 12,
        list.len() as int,
    ));
}

/// The interest paragraph opens with the number and the noun, and the
/// noun is "person" for exactly one interested user and "people" for any
/// other number. The two nouns differ.
pub proof fn lemma_interest_noun_follows_count(count: nat, names: Seq<Seq<char>>)
    ensures
        count == 1 ==> (decimal_digits(count) + " person interested"@).is_prefix_of(
            interest_paragraph(count, names),
        ),
        count != 1 ==> (decimal_digits(count) + " people interested"@).is_prefix_of(
            interest_paragraph(count, names),
        ),
        "person"@ != "people"@,
{
    reveal_strlit("person");
    reveal_strlit("people");
    reveal_strlit(" ");
    reveal_strlit(" interested");
    reveal_strlit(" person interested");
    reveal_strlit(" people interested");
    assert("person"@[2] != "people"@[2]);
    let head = decimal_digits(count) + " "@ + interest_noun(count) + " interested"@;
    if count == 1 {
        assert(head =~= decimal_digits(count) + " person interested"@);
    } else {
        assert(head =~= decimal_digits(count) + " people interested"@);
    }
    if names.len() > 0 {
        let tail = ": "@ + joined(listed_names(count, names), ", "@);
        assert(interest_paragraph(count, names) =~= head + tail);
        assert(head.is_prefix_of(head + tail));
    }
}

/// Where the sample is smaller than the number of interested users, the
/// listed names are the sample followed by "and others"; otherwise they
/// are the sample and nothing else, so that they end with "and others"
/// only where the last user of the sample goes by that name.
pub proof fn lemma_and_others_marks_a_partial_sample(count: nat, names: Seq<Seq<char>>)
    requires
        names.len() > 0,
    ensures
        names.len() < count ==> listed_names(count, names).last() == "and others"@,
        names.len() < count ==> listed_names(count, names).drop_last() == names,
        names.len() >= count ==> listed_names(count, names) == names,
        names.len() >= count && names.last() != "and others"@ ==> listed_names(
            count,
            names,
        ).last() != "and others"@,
{
    if names.len() < count {
        assert(names.push("and others"@).drop_last() =~= names);
    }
}

} // verus!
