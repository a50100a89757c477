//! One publication at a time for each community.
//!
//! Notifications for one community may arrive while its calendar is still
//! being published. The registry admits the first request and remembers
//! that more came in; when the publication is finished it asks for one
//! more run, however many requests were waiting. Communities do not wait
//! for each other.

use vstd::prelude::*;
use std::collections::HashMap;

verus! {

broadcast use vstd::std_specs::hash::group_hash_axioms;

/// The answer to a request to publish.
#[derive(Clone, Copy, Debug, PartialEq, Eq, Structural)]
pub enum Admission {
    /// No publication is running for the community: run this one now.
    Start,
    /// A publication is running: it will be followed by one more.
    Coalesced,
}

/// What to do when a publication has finished.
#[derive(Clone, Copy, Debug, PartialEq, Eq, Structural)]
pub enum Followup {
    /// Nothing came in meanwhile.
    Idle,
    /// Requests came in meanwhile: publish once more.
    Again,
}

/// The answer to a request to publish for `guild_id`, given the
/// communities that are being published and, for each, whether more
/// requests are waiting.
pub open spec fn admission(running: Map<u64, bool>, guild_id: u64) -> Admission {
    if running.contains_key(guild_id) {
        Admission::Coalesced
    } else {
        Admission::Start
    }
}

/// The communities that are being published after a request for
/// `guild_id`.
pub open spec fn after_begin(running: Map<u64, bool>, guild_id: u64) -> Map<u64, bool> {
    running.insert(guild_id, running.contains_key(guild_id))
}

/// What to do when the publication for `guild_id` has finished.
pub open spec fn followup(running: Map<u64, bool>, guild_id: u64) -> Followup {
    if running.contains_key(guild_id) && running[guild_id] {
        Followup::Again
    } else {
        Followup::Idle
    }
}

/// The communities that are being published after the publication for
/// `guild_id` has finished: it goes on where requests were waiting.
pub open spec fn after_finish(running: Map<u64, bool>, guild_id: u64) -> Map<u64, bool> {
    if running.contains_key(guild_id) && running[guild_id] {
        running.insert(guild_id, false)
    } else {
        running.remove(guild_id)
    }
}

/// The communities whose calendar is being published.
pub struct PublishRegistry {
    running: HashMap<u64, bool>,
}

impl View for PublishRegistry {
    type V = Map<u64, bool>;

    /// For each community that is being published, whether more requests
    /// are waiting.
    closed spec fn view(&self) -> Map<u64, bool> {
        self.running@
    }
}

impl PublishRegistry {
    /// A registry in which nothing is being published.
    pub fn new() -> (registry: PublishRegistry)
        ensures
            registry@ == no_publication(),
    {
        PublishRegistry { running: HashMap::new() }
    }

    /// Whether the calendar of `guild_id` is being published.
    pub fn is_publishing(&self, guild_id: u64) -> (running: bool)
        ensures
            running == self@.contains_key(guild_id),
    {
        self.running.contains_key(&guild_id)
    }

    /// Asks to publish the calendar of `guild_id`.
    pub fn begin(&mut self, guild_id: u64) -> (answer: Admission)
        ensures
            answer == admission(old(self)@, guild_id),
            final(self)@ == after_begin(old(self)@, guild_id),
    {
        if self.running.contains_key(&guild_id) {
            self.running.insert(guild_id, true);
            Admission::Coalesced
        } else {
            self.running.insert(guild_id, false);
            Admission::Start
        }
    }

    /// Reports that the publication for `guild_id` has finished, whether
    /// it succeeded or not.
    pub fn finish(&mut self, guild_id: u64) -> (next: Followup)
        ensures
            next == followup(old(self)@, guild_id),
            final(self)@ == after_finish(old(self)@, guild_id),
    {
        let waiting = match self.running.get(&guild_id) {
            Some(waiting) => *waiting,
            None => false,
        };
        if waiting {
            self.running.insert(guild_id, false);
            Followup::Again
        } else {
            self.running.remove(&guild_id);
            Followup::Idle
        }
    }
}

/// No community is being published.
pub open spec fn no_publication() -> Map<u64, bool> {
    Map::empty()
}

/// While a publication runs for a community, no second one is started
/// for it: every further request is coalesced.
pub proof fn lemma_one_publication_at_a_time(running: Map<u64, bool>, guild_id: u64)
    ensures
        after_begin(running, guild_id).contains_key(guild_id),
        admission(after_begin(running, guild_id), guild_id) == Admission::Coalesced,
{
}

/// However many requests were coalesced, they lead to exactly one more
/// run: the first finish asks for it, and the finish of that run asks
/// for nothing more and leaves the community idle.
pub proof fn lemma_coalesced_requests_run_once(running: Map<u64, bool>, guild_id: u64)
    requires
        running.contains_key(guild_id),
    ensures
        followup(after_begin(running, guild_id), guild_id) == Followup::Again,
        after_begin(after_begin(running, guild_id), guild_id) == after_begin(running, guild_id),
        followup(after_finish(after_begin(running, guild_id), guild_id), guild_id)
            == Followup::Idle,
        !after_finish(
            after_finish(after_begin(running, guild_id), guild_id),
            guild_id,
        ).contains_key(guild_id),
{
    assert(after_begin(after_begin(running, guild_id), guild_id) =~= after_begin(
        running,
        guild_id,
    ));
}

/// A publication that nothing interrupted leaves the registry as it
/// found it.
pub proof fn lemma_undisturbed_publication(running: Map<u64, bool>, guild_id: u64)
    requires
        !running.contains_key(guild_id),
    ensures
        admission(running, guild_id) == Admission::Start,
        followup(after_begin(running, guild_id), guild_id) == Followup::Idle,
        after_finish(after_begin(running, guild_id), guild_id) == running,
{
    assert(after_finish(after_begin(running, guild_id), guild_id) =~= running);
}

/// Communities do not wait for each other: a request or a finish for one
/// changes nothing for another.
pub proof fn lemma_communities_are_independent(running: Map<u64, bool>, guild_id: u64, other: u64)
    requires
        other != guild_id,
    ensures
        admission(after_begin(running, guild_id), other) == admission(running, other),
        admission(after_finish(running, guild_id), other) == admission(running, other),
        followup(after_begin(running, guild_id), other) == followup(running, other),
        followup(after_finish(running, guild_id), other) == followup(running, other),
{
}

} // verus!
