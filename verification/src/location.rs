//! Where an entry takes place: the name of a channel, a place given as
//! free text, or nothing.

use vstd::prelude::*;
use crate::model::{location_of, EventLocation, LocationView, ScheduledEvent};
use crate::text::opt_view;

verus! {

/// The location of an entry. A channel is shown by its name behind a
/// loudspeaker sign, and not at all where its name could not be found; a
/// free text is shown as it is.
pub open spec fn resolved_location(location: LocationView, channel_name: Option<Seq<char>>) -> Option<
    Seq<char>,
> {
    match location {
        LocationView::Channel(_) => match channel_name {
            Some(name) => Some("🔊 "@ + name),
            None => None,
        },
        LocationView::External(text) => Some(text),
        LocationView::Unspecified => None,
    }
}

/// The channel whose name the location of `event` needs: none unless the
/// event takes place in a channel.
pub fn channel_lookup(event: &ScheduledEvent) -> (channel: Option<u64>)
    ensures
        channel == match event@.location {
            LocationView::Channel(id) => Some(id),
            _ => None,
        },
{
    match &event.location {
        EventLocation::Channel(id) => Some(*id),
        _ => None,
    }
}

/// Resolves the location of an event. `channel_name` is the name that was
/// found for the event's channel, if any; it is only looked at where the
/// event takes place in a channel.
pub fn get_location(location: &EventLocation, channel_name: &Option<String>) -> (resolved: Option<
    String,
>)
    ensures
        opt_view(resolved) == resolved_location(location@, opt_view(*channel_name)),
{
    match location {
        EventLocation::Channel(_) => match channel_name {
            Some(name) => {
                let mut text = String::from_str("🔊 ");
                text.append(name.as_str());
                Some(text)
            },
            None => None,
        },
        EventLocation::External(text) => Some(text.clone()),
        EventLocation::Unspecified => None,
    }
}

/// A location comes from one source only. Free text alone is passed on
/// unchanged; a channel alone is shown by its name behind the loudspeaker
/// sign, or not at all where the name is not known; without either there
/// is no location. Where a channel is given the free text plays no part,
/// and where none is given the channel name plays no part.
pub proof fn lemma_location_has_one_source(
    channel: Option<u64>,
    external: Option<Seq<char>>,
    channel_name: Option<Seq<char>>,
)
    ensures
        channel is None && external is Some ==> resolved_location(
            location_of(channel, external),
            channel_name,
        ) == external,
        channel is Some && external is None && channel_name is Some ==> resolved_location(
            location_of(channel, external),
            channel_name,
        ) == Some("🔊 "@ + channel_name->0),
        channel is Some && channel_name is None ==> resolved_location(
            location_of(channel, external),
            channel_name,
        ) is None,
        channel is None && external is None ==> resolved_location(
            location_of(channel, external),
            channel_name,
        ) is None,
        channel is Some ==> resolved_location(location_of(channel, external), channel_name)
            == resolved_location(location_of(channel, None), channel_name),
        channel is None ==> resolved_location(location_of(channel, external), channel_name)
            == resolved_location(location_of(channel, external), None),
{
}

} // verus!
