use vstd::prelude::*;
use crate::events::{EventView, StatusEvent};

verus! {

/// The mathematical value of an [`EventHub`]: the event it holds, and how
/// many values it has held so far.
pub ghost struct HubView {
    pub current: EventView,
    pub version: nat,
}

impl HubView {
    /// This hub after a publish: the event replaces the held one.
    pub open spec fn published(self, event: EventView) -> HubView {
        HubView { current: event, version: self.version + 1 }
    }

    /// This hub after publishing each event in turn.
    pub open spec fn published_all(self, events: Seq<EventView>) -> HubView
        decreases events.len(),
    {
        if events.len() == 0 {
            self
        } else {
            self.published_all(events.drop_last()).published(events.last())
        }
    }

    /// What a subscriber that has seen version `seen` gets when it looks: the
    /// held event if it is newer than what it saw, nothing otherwise.
    pub open spec fn observed(self, seen: nat) -> Option<EventView> {
        if seen < self.version {
            Some(self.current)
        } else {
            None
        }
    }

    /// The version a subscriber has seen after it looked.
    pub open spec fn seen_after(self, seen: nat) -> nat {
        if seen < self.version {
            self.version
        } else {
            seen
        }
    }
}

/// A single-slot, latest-value broadcast cell for status events.
///
/// Publishing overwrites the held event and never waits for anyone; each
/// subscriber keeps its own [`Subscription`] and sees only the newest event
/// published since it last looked.
pub struct EventHub {
    current: StatusEvent,
    version: u64,
}

impl EventHub {
    /// Every hub has held at least its first value.
    #[verifier::type_invariant]
    spec fn has_held_a_value(&self) -> bool {
        self.version >= 1
    }
}

impl View for EventHub {
    type V = HubView;

    closed spec fn view(&self) -> HubView {
        HubView { current: self.current@, version: self.version as nat }
    }
}

/// A subscriber's cursor: the hub version it has seen.
pub struct Subscription {
    seen: u64,
}

impl View for Subscription {
    type V = nat;

    closed spec fn view(&self) -> nat {
        self.seen as nat
    }
}

impl EventHub {
    /// A hub holding `initial` as its first value.
    pub fn new(initial: StatusEvent) -> (r: EventHub)
        ensures
            r@ == (HubView { current: initial@, version: 1 }),
    {
        EventHub { current: initial, version: 1 }
    }

    /// How many values the hub has held.
    pub fn version(&self) -> (r: u64)
        ensures
            r == self@.version,
    {
        self.version
    }

    /// The event the hub holds now.
    pub fn current(&self) -> (r: &StatusEvent)
        ensures
            r@ == self@.current,
    {
        &self.current
    }

    /// Replaces the held event.
    pub fn publish(&mut self, event: StatusEvent)
        requires
            old(self)@.version < u64::MAX,
        ensures
            final(self)@ == old(self)@.published(event@),
    {
        proof {
            use_type_invariant(&*self);
        }
        let version = self.version + 1;
        *self = EventHub { current: event, version };
    }

    /// A fresh subscription, for which the event held now counts as new.
    pub fn subscribe(&self) -> (r: Subscription)
        ensures
            r@ == 0,
            self@.observed(r@) == Some(self@.current),
    {
        proof {
            use_type_invariant(self);
        }
        Subscription { seen: 0 }
    }
}

impl Subscription {
    /// Whether the hub holds an event newer than this subscriber has seen.
    pub fn has_changed(&self, hub: &EventHub) -> (r: bool)
        ensures
            r == hub@.observed(self@) is Some,
    {
        self.seen < hub.version
    }

    /// The held event, if it is newer than what this subscriber has seen; the
    /// subscriber then has seen it.
    pub fn take_change(&mut self, hub: &EventHub) -> (r: Option<StatusEvent>)
        ensures
            final(self)@ == hub@.seen_after(old(self)@),
            old(self)@ <= final(self)@,
            match r {
                Some(e) => hub@.observed(old(self)@) == Some(e@),
                None => hub@.observed(old(self)@) is None,
            },
    {
        if self.seen < hub.version {
            self.seen = hub.version;
            Some(hub.current.duplicate())
        } else {
            None
        }
    }
}

/// The version of a hub grows by one with each publish.
pub proof fn published_all_version(h: HubView, events: Seq<EventView>)
    ensures
        h.published_all(events).version == h.version + events.len(),
    decreases events.len(),
{
    if events.len() > 0 {
        published_all_version(h, events.drop_last());
    }
}

/// Latest wins: after several publishes with no look in between, a
/// subscriber that was up to date sees the last event published, and none
/// before it.
pub proof fn latest_wins(h: HubView, events: Seq<EventView>, seen: nat)
    requires
        events.len() > 0,
        seen <= h.version,
    ensures
        h.published_all(events).observed(seen) == Some(events.last()),
        h.published_all(events).seen_after(seen) == h.version + events.len(),
{
    published_all_version(h, events);
}

} // verus!
