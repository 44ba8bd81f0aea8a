//! The event listeners that an instance sets up when it is initialized.

use crate::definition::ComponentDefinition;
use vstd::prelude::*;
use vstd::string::*;

verus! {

/// Where an instance listens for its observed events.
#[derive(Clone, Copy, Debug, PartialEq, Eq, Structural)]
pub enum ListenerTarget {
    /// The shadow root that is attached to the element.
    ShadowRoot,
    /// The element itself.
    Element,
}

/// One listener: where it listens and for which event.
pub struct Subscription {
    pub target: ListenerTarget,
    pub event_type: String,
}

/// A `Subscription` as mathematical data.
pub struct SubscriptionView {
    pub target: ListenerTarget,
    pub event_type: Seq<char>,
}

impl View for Subscription {
    type V = SubscriptionView;

    open spec fn view(&self) -> SubscriptionView {
        SubscriptionView { target: self.target, event_type: self.event_type@ }
    }
}

/// Where the listeners of an element go: on its shadow root if it has one,
/// else on the element itself.
pub open spec fn target_for(has_shadow_root: bool) -> ListenerTarget {
    if has_shadow_root {
        ListenerTarget::ShadowRoot
    } else {
        ListenerTarget::Element
    }
}

/// The listeners for a list of events: one for each event, in the order of
/// the list, all of them on the same target.
pub open spec fn subscriptions_of(events: Seq<Seq<char>>, has_shadow_root: bool) -> Seq<
    SubscriptionView,
> {
    events.map_values(
        |event_type: Seq<char>| SubscriptionView { target: target_for(has_shadow_root), event_type },
    )
}

/// The views of a list of subscriptions.
pub open spec fn views_of(subscriptions: Seq<Subscription>) -> Seq<SubscriptionView> {
    subscriptions.map_values(|subscription: Subscription| subscription@)
}

/// Where the listeners of an element go.
pub fn listener_target(has_shadow_root: bool) -> (target: ListenerTarget)
    ensures
        target == target_for(has_shadow_root),
{
    if has_shadow_root {
        ListenerTarget::ShadowRoot
    } else {
        ListenerTarget::Element
    }
}

/// The listeners that an instance of the definition sets up when it is
/// initialized.
pub fn subscriptions(definition: &ComponentDefinition, has_shadow_root: bool) -> (listeners: Vec<
    Subscription,
>)
    ensures
        views_of(listeners@) == subscriptions_of(definition@.observed_events, has_shadow_root),
{
    let events = definition.observed_events();
    let target = listener_target(has_shadow_root);
    let mut listeners: Vec<Subscription> = Vec::new();
    let mut at: usize = 0;
    while at < events.len()
        invariant
            at <= events.len(),
            target == target_for(has_shadow_root),
            listeners.len() == at,
            forall|i: int|
                0 <= i < at ==> listeners[i]@ == (SubscriptionView {
                    target,
                    event_type: events[i]@,
                }),
        decreases events.len() - at,
    {
        listeners.push(Subscription { target, event_type: events[at].clone() });
        at += 1;
    }
    assert(views_of(listeners@) =~= subscriptions_of(
        definition@.observed_events,
        has_shadow_root,
    ));
    listeners
}

/// Every observed event gets exactly one listener, and every listener is for
/// an observed event.
pub proof fn one_listener_per_event(events: Seq<Seq<char>>, has_shadow_root: bool)
    requires
        events.no_duplicates(),
    ensures
        subscriptions_of(events, has_shadow_root).len() == events.len(),
        subscriptions_of(events, has_shadow_root).no_duplicates(),
        forall|i: int|
            0 <= i < events.len() ==> (#[trigger] subscriptions_of(events, has_shadow_root)[i])
                == (SubscriptionView { target: target_for(has_shadow_root), event_type: events[i] }),
{
    let listeners = subscriptions_of(events, has_shadow_root);
    assert forall|i: int, j: int|
        0 <= i < listeners.len() && 0 <= j < listeners.len() && i != j implies listeners[i]
        != listeners[j] by {
        assert(listeners[i].event_type == events[i]);
        assert(listeners[j].event_type == events[j]);
    }
}

} // verus!
