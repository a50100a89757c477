//! The data that flows through the pipeline, each type with its
//! mathematical view.

use vstd::prelude::*;
use crate::text::opt_view;

verus! {

/// The first second that a calendar date-time with a four-digit year can
/// name: the start of the year 1, counted from the start of 1970.
pub const INSTANT_MIN: i64 = -62_135_596_800;

/// The last second of the year 9999, counted from the start of 1970.
pub const INSTANT_MAX: i64 = 253_402_300_799;

/// Whether `secs` seconds after the start of 1970 (UTC) fall into a year
/// from 1 to 9999.
pub open spec fn instant_in_range(secs: int) -> bool {
    INSTANT_MIN <= secs <= INSTANT_MAX
}

/// `secs` itself where it is in range, else the bound that it lies beyond.
pub open spec fn nearest_in_range(secs: int) -> int {
    if secs < INSTANT_MIN {
        INSTANT_MIN as int
    } else if secs > INSTANT_MAX {
        INSTANT_MAX as int
    } else {
        secs
    }
}

/// An absolute point in time, in whole seconds, within the years 1 to
/// 9999. It carries no offset: it is always meant in UTC.
#[derive(Clone, Copy, Debug, PartialEq, Eq)]
pub struct Instant {
    secs: i64,
}

impl View for Instant {
    type V = int;

    /// The seconds since the start of 1970 (UTC).
    closed spec fn view(&self) -> int {
        self.secs as int
    }
}

impl Instant {
    #[verifier::type_invariant]
    spec fn in_range(&self) -> bool {
        instant_in_range(self.secs as int)
    }

    /// The instant `secs` seconds after the start of 1970 (UTC), if that
    /// lies within the years 1 to 9999.
    pub fn from_unix(secs: i64) -> (r: Option<Instant>)
        ensures
            r is Some <==> instant_in_range(secs as int),
            r matches Some(i) ==> i@ == secs,
    {
        if INSTANT_MIN <= secs && secs <= INSTANT_MAX {
            Some(Instant { secs })
        } else {
            None
        }
    }

    /// The instant `secs` seconds after the start of 1970 (UTC), or the
    /// nearest one within the years 1 to 9999 where that lies outside.
    pub fn saturating_from_unix(secs: i64) -> (r: Instant)
        ensures
            r@ == nearest_in_range(secs as int),
    {
        if secs < INSTANT_MIN {
            Instant { secs: INSTANT_MIN }
        } else if secs > INSTANT_MAX {
            Instant { secs: INSTANT_MAX }
        } else {
            Instant { secs }
        }
    }

    /// The seconds since the start of 1970 (UTC).
    pub fn unix(&self) -> (secs: i64)
        ensures
            secs == self@,
            instant_in_range(secs as int),
    {
        proof {
            use_type_invariant(self);
        }
        self.secs
    }
}

/// Where a scheduled event takes place. At most one source is ever set.
#[derive(Clone, Debug, PartialEq, Eq)]
pub enum EventLocation {
    /// A channel of the community, known by its identifier only.
    Channel(u64),
    /// A place outside the platform, as free text.
    External(String),
    /// No place was given.
    Unspecified,
}

/// The view of an [`EventLocation`].
pub enum LocationView {
    Channel(u64),
    External(Seq<char>),
    Unspecified,
}

impl View for EventLocation {
    type V = LocationView;

    open spec fn view(&self) -> LocationView {
        match *self {
            EventLocation::Channel(id) => LocationView::Channel(id),
            EventLocation::External(text) => LocationView::External(text@),
            EventLocation::Unspecified => LocationView::Unspecified,
        }
    }
}

impl EventLocation {
    /// Builds the location from the two places where the platform may have
    /// put one. A channel wins over free text; with neither there is no
    /// location.
    pub fn from_parts(channel: Option<u64>, external: Option<String>) -> (r: EventLocation)
        ensures
            r@ == location_of(channel, opt_view(external)),
    {
        match channel {
            Some(id) => EventLocation::Channel(id),
            None => match external {
                Some(text) => EventLocation::External(text),
                None => EventLocation::Unspecified,
            },
        }
    }
}

/// The location that a channel reference and a free text stand for.
pub open spec fn location_of(channel: Option<u64>, external: Option<Seq<char>>) -> LocationView {
    match channel {
        Some(id) => LocationView::Channel(id),
        None => match external {
            Some(text) => LocationView::External(text),
            None => LocationView::Unspecified,
        },
    }
}

/// One user who showed interest in an event, with the names they go by.
#[derive(Clone, Debug, PartialEq, Eq)]
pub struct InterestedUser {
    /// The nickname within the community.
    pub nick: Option<String>,
    /// The display name across the platform.
    pub global_name: Option<String>,
    /// The account name.
    pub name: String,
}

/// The view of an [`InterestedUser`].
pub struct UserView {
    pub nick: Option<Seq<char>>,
    pub global_name: Option<Seq<char>>,
    pub name: Seq<char>,
}

impl View for InterestedUser {
    type V = UserView;

    open spec fn view(&self) -> UserView {
        UserView {
            nick: opt_view(self.nick),
            global_name: opt_view(self.global_name),
            name: self.name@,
        }
    }
}

/// The views of a list of users, in order.
pub open spec fn user_views(users: Seq<InterestedUser>) -> Seq<UserView> {
    Seq::new(users.len(), |i: int| users[i]@)
}

/// A scheduled event as the platform reports it.
#[derive(Clone, Debug, PartialEq, Eq)]
pub struct ScheduledEvent {
    /// The event's identifier, unique within its community.
    pub id: u64,
    /// The identifier of the community that owns the event.
    pub guild_id: u64,
    pub name: String,
    pub description: Option<String>,
    pub start: Instant,
    /// The end, where the platform has one.
    pub end: Option<Instant>,
    pub location: EventLocation,
    /// How many users showed interest, where the platform reports it.
    pub user_count: Option<u64>,
}

/// The view of a [`ScheduledEvent`].
pub struct EventView {
    pub id: u64,
    pub guild_id: u64,
    pub name: Seq<char>,
    pub description: Option<Seq<char>>,
    pub start: int,
    pub end: Option<int>,
    pub location: LocationView,
    pub user_count: Option<u64>,
}

impl View for ScheduledEvent {
    type V = EventView;

    open spec fn view(&self) -> EventView {
        EventView {
            id: self.id,
            guild_id: self.guild_id,
            name: self.name@,
            description: opt_view(self.description),
            start: self.start@,
            end: match self.end {
                Some(end) => Some(end@),
                None => None,
            },
            location: self.location@,
            user_count: self.user_count,
        }
    }
}

impl EventView {
    /// The number of interested users, zero where none is reported.
    pub open spec fn interested(self) -> nat {
        match self.user_count {
            Some(count) => count as nat,
            None => 0,
        }
    }
}

} // verus!
