//! The subscriptions to the widget's lifecycle events that a component holds.

use vstd::multiset::Multiset;
use vstd::prelude::*;
use crate::event::LifecycleEvent;

verus! {

/// The sequence that holds `event` where `wanted`, and nothing otherwise.
pub open spec fn only_if(wanted: bool, event: LifecycleEvent) -> Seq<LifecycleEvent> {
    if wanted {
        seq![event]
    } else {
        Seq::empty()
    }
}

/// The members of a set of events, in the order opening, opened, closing,
/// closed.
pub open spec fn events_in(events: Set<LifecycleEvent>) -> Seq<LifecycleEvent> {
    only_if(events.contains(LifecycleEvent::Opening), LifecycleEvent::Opening)
        + only_if(events.contains(LifecycleEvent::Opened), LifecycleEvent::Opened)
        + only_if(events.contains(LifecycleEvent::Closing), LifecycleEvent::Closing)
        + only_if(events.contains(LifecycleEvent::Closed), LifecycleEvent::Closed)
}

/// How often `event` occurs in `only_if(wanted, listed)`.
proof fn lemma_only_if_counts(wanted: bool, listed: LifecycleEvent, event: LifecycleEvent)
    ensures
        only_if(wanted, listed).to_multiset().count(event) == (if wanted && listed == event {
            1nat
        } else {
            0nat
        }),
{
    broadcast use vstd::seq_lib::group_to_multiset_ensures;
    broadcast use vstd::multiset::group_multiset_axioms;

    let nothing = Seq::<LifecycleEvent>::empty();
    assert(nothing.to_multiset().len() == 0);
    assert(nothing.to_multiset() =~= Multiset::<LifecycleEvent>::empty());
    if wanted {
        assert(seq![listed] =~= nothing.push(listed));
        assert(nothing.push(listed).to_multiset() =~= nothing.to_multiset().insert(listed));
    }
}

/// Each member of a set of events is listed once by [`events_in`], and no
/// other event is listed at all.
pub proof fn lemma_events_in_lists_once(events: Set<LifecycleEvent>, event: LifecycleEvent)
    ensures
        events_in(events).to_multiset().count(event) == (if events.contains(event) {
            1nat
        } else {
            0nat
        }),
{
    broadcast use vstd::multiset::group_multiset_axioms;

    let opening = only_if(events.contains(LifecycleEvent::Opening), LifecycleEvent::Opening);
    let opened = only_if(events.contains(LifecycleEvent::Opened), LifecycleEvent::Opened);
    let closing = only_if(events.contains(LifecycleEvent::Closing), LifecycleEvent::Closing);
    let closed = only_if(events.contains(LifecycleEvent::Closed), LifecycleEvent::Closed);
    vstd::seq_lib::lemma_multiset_commutative(opening, opened);
    vstd::seq_lib::lemma_multiset_commutative(opening + opened, closing);
    vstd::seq_lib::lemma_multiset_commutative(opening + opened + closing, closed);
    lemma_only_if_counts(events.contains(LifecycleEvent::Opening), LifecycleEvent::Opening, event);
    lemma_only_if_counts(events.contains(LifecycleEvent::Opened), LifecycleEvent::Opened, event);
    lemma_only_if_counts(events.contains(LifecycleEvent::Closing), LifecycleEvent::Closing, event);
    lemma_only_if_counts(events.contains(LifecycleEvent::Closed), LifecycleEvent::Closed, event);
}

/// Four subscriptions, one for each lifecycle event, each held or not held on
/// its own. No event can have two.
#[derive(Clone, Copy, Debug, PartialEq, Eq)]
pub struct ListenerSet {
    opening: bool,
    opened: bool,
    closing: bool,
    closed: bool,
}

impl ListenerSet {
    spec fn holds(self, event: LifecycleEvent) -> bool {
        match event {
            LifecycleEvent::Opening => self.opening,
            LifecycleEvent::Opened => self.opened,
            LifecycleEvent::Closing => self.closing,
            LifecycleEvent::Closed => self.closed,
        }
    }
}

impl View for ListenerSet {
    type V = Set<LifecycleEvent>;

    /// The events for which a subscription is held.
    closed spec fn view(&self) -> Set<LifecycleEvent> {
        Set::new(|event: LifecycleEvent| self.holds(event))
    }
}

impl ListenerSet {
    /// A set in which no subscription is held.
    pub fn new() -> (listeners: Self)
        ensures
            listeners@ == Set::<LifecycleEvent>::empty(),
    {
        let listeners = ListenerSet { opening: false, opened: false, closing: false, closed: false };
        assert(listeners@ =~= Set::<LifecycleEvent>::empty());
        listeners
    }

    /// Whether the subscription for `event` is held.
    pub fn is_subscribed(&self, event: LifecycleEvent) -> (held: bool)
        ensures
            held == self@.contains(event),
    {
        match event {
            LifecycleEvent::Opening => self.opening,
            LifecycleEvent::Opened => self.opened,
            LifecycleEvent::Closing => self.closing,
            LifecycleEvent::Closed => self.closed,
        }
    }

    /// Whether no subscription is held.
    pub fn is_empty(&self) -> (empty: bool)
        ensures
            empty == (self@ == Set::<LifecycleEvent>::empty()),
    {
        let empty = !self.opening && !self.opened && !self.closing && !self.closed;
        proof {
            if empty {
                assert(self@ =~= Set::<LifecycleEvent>::empty());
            } else {
                assert(self.holds(LifecycleEvent::Opening) || self.holds(LifecycleEvent::Opened)
                    || self.holds(LifecycleEvent::Closing) || self.holds(LifecycleEvent::Closed));
                assert(self@.contains(LifecycleEvent::Opening) || self@.contains(
                    LifecycleEvent::Opened,
                ) || self@.contains(LifecycleEvent::Closing) || self@.contains(
                    LifecycleEvent::Closed,
                ));
            }
        }
        empty
    }

    /// Takes the subscription for `event` unless it is held already. Returns
    /// whether the host has a listener to attach for it.
    pub fn subscribe(&mut self, event: LifecycleEvent) -> (created: bool)
        ensures
            created == !old(self)@.contains(event),
            final(self)@ == old(self)@.insert(event),
    {
        let created = !self.is_subscribed(event);
        match event {
            LifecycleEvent::Opening => { self.opening = true; },
            LifecycleEvent::Opened => { self.opened = true; },
            LifecycleEvent::Closing => { self.closing = true; },
            LifecycleEvent::Closed => { self.closed = true; },
        }
        assert(self@ =~= old(self)@.insert(event));
        created
    }

    /// Gives the subscription for `event` up. Returns whether one was held, so
    /// that the host has a listener to detach.
    pub fn release(&mut self, event: LifecycleEvent) -> (released: bool)
        ensures
            released == old(self)@.contains(event),
            final(self)@ == old(self)@.remove(event),
    {
        let released = self.is_subscribed(event);
        match event {
            LifecycleEvent::Opening => { self.opening = false; },
            LifecycleEvent::Opened => { self.opened = false; },
            LifecycleEvent::Closing => { self.closing = false; },
            LifecycleEvent::Closed => { self.closed = false; },
        }
        assert(self@ =~= old(self)@.remove(event));
        released
    }

    /// Takes every subscription that is not held yet. Returns the events for
    /// which the host has a listener to attach, in order; the events that were
    /// subscribed before are not among them.
    pub fn subscribe_missing(&mut self) -> (created: Vec<LifecycleEvent>)
        ensures
            created@ == events_in(old(self)@.complement()),
            final(self)@ == Set::<LifecycleEvent>::full(),
    {
        let mut created: Vec<LifecycleEvent> = Vec::new();
        if self.subscribe(LifecycleEvent::Opening) {
            created.push(LifecycleEvent::Opening);
        }
        if self.subscribe(LifecycleEvent::Opened) {
            created.push(LifecycleEvent::Opened);
        }
        if self.subscribe(LifecycleEvent::Closing) {
            created.push(LifecycleEvent::Closing);
        }
        if self.subscribe(LifecycleEvent::Closed) {
            created.push(LifecycleEvent::Closed);
        }
        assert(created@ =~= events_in(old(self)@.complement()));
        assert(self@ =~= Set::<LifecycleEvent>::full());
        created
    }

    /// Gives every subscription up. Returns the events for which the host has
    /// a listener to detach, in order. Releasing what was never taken is no
    /// fault: the events without a subscription are left out.
    pub fn release_all(&mut self) -> (released: Vec<LifecycleEvent>)
        ensures
            released@ == events_in(old(self)@),
            final(self)@ == Set::<LifecycleEvent>::empty(),
    {
        let mut released: Vec<LifecycleEvent> = Vec::new();
        if self.release(LifecycleEvent::Opening) {
            released.push(LifecycleEvent::Opening);
        }
        if self.release(LifecycleEvent::Opened) {
            released.push(LifecycleEvent::Opened);
        }
        if self.release(LifecycleEvent::Closing) {
            released.push(LifecycleEvent::Closing);
        }
        if self.release(LifecycleEvent::Closed) {
            released.push(LifecycleEvent::Closed);
        }
        assert(released@ =~= events_in(old(self)@));
        assert(self@ =~= Set::<LifecycleEvent>::empty());
        released
    }
}

} // verus!
