//! The addresses that the pipeline derives from identifiers: the page of an
//! event, the public address of a community's feed, and the file that holds
//! the feed.

use vstd::prelude::*;
use crate::text::{decimal, decimal_digits, lemma_decimal_is_injective};

verus! {

/// The address of the platform's page for an event of a community.
pub open spec fn event_url(guild_id: u64, event_id: u64) -> Seq<char> {
    "https://discord.com/events/"@ + decimal_digits(guild_id as nat) + "/"@ + decimal_digits(
        event_id as nat,
    )
}

/// The public address of a community's feed.
pub open spec fn calendar_url(guild_id: u64) -> Seq<char> {
    "https://icaly.xyz/"@ + decimal_digits(guild_id as nat)
}

/// The file of a community's feed below the directory `dir`: the
/// identifier as a decimal numeral, directly below `dir`. An empty `dir`
/// stands for the current directory, and a `dir` that already ends in a
/// separator gets no second one.
pub open spec fn calendar_path(dir: Seq<char>, guild_id: u64) -> Seq<char> {
    if dir.len() == 0 || dir.last() == '/' {
        dir + decimal_digits(guild_id as nat)
    } else {
        dir + "/"@ + decimal_digits(guild_id as nat)
    }
}

/// How to subscribe to a feed from the common calendar programs.
pub open spec fn instructions() -> Seq<char> {
    "Add to your calendar: [Google](<https://calendar.google.com/calendar/r/settings/addbyurl>) | [Apple](<https://support.apple.com/102301>) | [Outlook](<https://support.microsoft.com/office/import-or-subscribe-to-a-calendar-in-outlook-com-or-outlook-on-the-web-cff1429c-5af6-41ec-a5b4-74f2c278e98c>) | [Proton](<https://proton.me/support/subscribe-to-external-calendar#subscribe-external-link>)"@
}

/// The answer to a member who addressed the bot in a community: the feed's
/// address, then the instructions.
pub open spec fn calendar_reply(guild_id: u64) -> Seq<char> {
    "1. Copy this link: "@ + calendar_url(guild_id) + "\n2. "@ + instructions()
}

/// The address of the platform's page for the event `event_id` of the
/// community `guild_id`.
pub fn get_event_url(guild_id: u64, event_id: u64) -> (url: String)
    ensures
        url@ == event_url(guild_id, event_id),
{
    let mut url = String::from_str("https://discord.com/events/");
    url.append(decimal(guild_id).as_str());
    url.append("/");
    url.append(decimal(event_id).as_str());
    url
}

/// The public address of the feed of the community `guild_id`.
pub fn get_calendar_url(guild_id: u64) -> (url: String)
    ensures
        url@ == calendar_url(guild_id),
{
    let mut url = String::from_str("https://icaly.xyz/");
    url.append(decimal(guild_id).as_str());
    url
}

/// The file that holds the feed of the community `guild_id` below the
/// directory `public_dir`.
pub fn get_calendar_path(public_dir: &str, guild_id: u64) -> (path: String)
    ensures
        path@ == calendar_path(public_dir@, guild_id),
{
    let mut path = String::from_str(public_dir);
    let len = public_dir.unicode_len();
    if len > 0 && public_dir.get_char(len - 1) != '/' {
        path.append("/");
    }
    path.append(decimal(guild_id).as_str());
    path
}

/// The answer to a member who addressed the bot in the community
/// `guild_id`.
pub fn get_calendar_reply(guild_id: u64) -> (reply: String)
    ensures
        reply@ == calendar_reply(guild_id),
{
    let mut reply = String::from_str("1. Copy this link: ");
    reply.append(get_calendar_url(guild_id).as_str());
    reply.append("\n2. ");
    reply.append(
        "Add to your calendar: [Google](<https://calendar.google.com/calendar/r/settings/addbyurl>) | [Apple](<https://support.apple.com/102301>) | [Outlook](<https://support.microsoft.com/office/import-or-subscribe-to-a-calendar-in-outlook-com-or-outlook-on-the-web-cff1429c-5af6-41ec-a5b4-74f2c278e98c>) | [Proton](<https://proton.me/support/subscribe-to-external-calendar#subscribe-external-link>)",
    );
    reply
}

/// Below one directory, different communities have different files.
pub proof fn lemma_communities_have_their_own_file(dir: Seq<char>, first: u64, second: u64)
    requires
        first != second,
    ensures
        calendar_path(dir, first) != calendar_path(dir, second),
{
    let stem = if dir.len() == 0 || dir.last() == '/' {
        dir
    } else {
        dir + "/"@
    };
    let a = decimal_digits(first as nat);
    let b = decimal_digits(second as nat);
    assert(calendar_path(dir, first) == stem + a);
    assert(calendar_path(dir, second) == stem + b);
    if stem + a == stem + b {
        assert(a =~= (stem + a).subrange(stem.len() as int, (stem + a).len() as int));
        assert(b =~= (stem + b).subrange(stem.len() as int, (stem + b).len() as int));
        lemma_decimal_is_injective(first as nat, second as nat);
    }
}

} // verus!
