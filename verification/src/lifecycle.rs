//! The life of a component instance as its host drives it, and the order in
//! which the handlers of one callback run.

use vstd::prelude::*;

verus! {

/// Where an instance stands between its construction and its release.
#[derive(Clone, Copy, Debug, PartialEq, Eq, Structural)]
pub enum LifecycleState {
    /// The factory has made the instance; no handler has run.
    Constructed,
    /// The `init` handlers have run and the event listeners are in place.
    Initialized,
    /// The element is part of a document.
    Connected,
    /// The element has left its document.
    Disconnected,
    /// The element has moved to another document.
    Adopted,
}

/// The kinds of callback that a host issues to an instance.
#[derive(Clone, Copy, Debug, PartialEq, Eq, Structural)]
pub enum Callback {
    /// Issued once, while the element is constructed.
    Init,
    /// The element has entered a document.
    Connected,
    /// The element has left its document.
    Disconnected,
    /// The element has moved to another document.
    Adopted,
    /// An observed attribute has changed.
    AttributeChanged,
    /// An observed event has reached the element.
    Event,
}

/// The two forms in which every handler is offered.
#[derive(Clone, Copy, Debug, PartialEq, Eq, Structural)]
pub enum Phase {
    /// The form that takes the component by shared reference.
    ReadOnly,
    /// The form that may change the component.
    Mutating,
}

/// A callback together with the values that its handlers receive.
pub enum Hook<V> {
    Init,
    Connected,
    Disconnected,
    Adopted,
    AttributeChanged { name: Seq<char>, old_value: Option<Seq<char>>, new_value: Option<Seq<char>> },
    Event { event: V },
}

/// One invocation of a handler: which form ran, on which element, for which
/// callback.
pub struct HandlerCall<E, V> {
    pub phase: Phase,
    pub element: E,
    pub hook: Hook<V>,
}

impl<V> Hook<V> {
    /// The kind of callback that this is.
    pub open spec fn callback(self) -> Callback {
        match self {
            Hook::Init => Callback::Init,
            Hook::Connected => Callback::Connected,
            Hook::Disconnected => Callback::Disconnected,
            Hook::Adopted => Callback::Adopted,
            Hook::AttributeChanged { .. } => Callback::AttributeChanged,
            Hook::Event { .. } => Callback::Event,
        }
    }
}

/// The order in which the two forms of a handler run.
pub open spec fn dispatch_order() -> Seq<Phase> {
    seq![Phase::ReadOnly, Phase::Mutating]
}

/// The handler invocations that one callback leads to: one per form, in
/// `dispatch_order`, each with the element and the values of the callback.
pub open spec fn dispatched<E, V>(element: E, hook: Hook<V>) -> Seq<HandlerCall<E, V>> {
    Seq::new(
        dispatch_order().len(),
        |i: int| HandlerCall { phase: dispatch_order()[i], element, hook },
    )
}

impl LifecycleState {
    /// The state that follows `self` when the host issues `callback`.
    ///
    /// An instance is initialized once, is first connected after that, then
    /// alternates between connected and disconnected, and can be adopted from
    /// either; an adopted instance can be connected again. Any other callback
    /// leaves the state as it is, as do attribute changes and events.
    pub open spec fn after(self, callback: Callback) -> LifecycleState {
        match callback {
            Callback::Init => if self is Constructed {
                LifecycleState::Initialized
            } else {
                self
            },
            Callback::Connected => if self is Initialized || self is Disconnected
                || self is Adopted {
                LifecycleState::Connected
            } else {
                self
            },
            Callback::Disconnected => if self is Connected {
                LifecycleState::Disconnected
            } else {
                self
            },
            Callback::Adopted => if self is Connected || self is Disconnected {
                LifecycleState::Adopted
            } else {
                self
            },
            Callback::AttributeChanged => self,
            Callback::Event => self,
        }
    }

    /// The state after a run of callbacks, taken in order.
    pub open spec fn after_all(self, callbacks: Seq<Callback>) -> LifecycleState
        decreases callbacks.len(),
    {
        if callbacks.len() == 0 {
            self
        } else {
            self.after_all(callbacks.drop_last()).after(callbacks.last())
        }
    }

    /// Whether the `init` handlers have run.
    pub open spec fn is_initialized(self) -> bool {
        !(self is Constructed)
    }

    /// The state that follows `self` when the host issues `callback`.
    pub fn advance(self, callback: Callback) -> (next: LifecycleState)
        ensures
            next == self.after(callback),
    {
        match callback {
            Callback::Init => match self {
                LifecycleState::Constructed => LifecycleState::Initialized,
                _ => self,
            },
            Callback::Connected => match self {
                LifecycleState::Initialized => LifecycleState::Connected,
                LifecycleState::Disconnected => LifecycleState::Connected,
                LifecycleState::Adopted => LifecycleState::Connected,
                _ => self,
            },
            Callback::Disconnected => match self {
                LifecycleState::Connected => LifecycleState::Disconnected,
                _ => self,
            },
            Callback::Adopted => match self {
                LifecycleState::Connected => LifecycleState::Adopted,
                LifecycleState::Disconnected => LifecycleState::Adopted,
                _ => self,
            },
            Callback::AttributeChanged => self,
            Callback::Event => self,
        }
    }
}

/// Every callback leads to exactly two handler invocations: the read-only form
/// first, the mutating form second, both on the same element and with the same
/// values.
pub proof fn dispatch_is_two_phase<E, V>(element: E, hook: Hook<V>)
    ensures
        dispatched(element, hook).len() == 2,
        dispatched(element, hook)[0] == (HandlerCall { phase: Phase::ReadOnly, element, hook }),
        dispatched(element, hook)[1] == (HandlerCall { phase: Phase::Mutating, element, hook }),
        dispatched(element, hook)[0].element == dispatched(element, hook)[1].element,
        dispatched(element, hook)[0].hook == dispatched(element, hook)[1].hook,
{
}

/// No run of callbacks takes an instance back to `Constructed`, and only
/// `Init` takes it out of that state.
pub proof fn initialization_is_final(state: LifecycleState, callbacks: Seq<Callback>)
    ensures
        state.is_initialized() ==> state.after_all(callbacks).is_initialized(),
        !callbacks.contains(Callback::Init) ==> (state.after_all(callbacks).is_initialized()
            == state.is_initialized()),
    decreases callbacks.len(),
{
    if callbacks.len() > 0 {
        let front = callbacks.drop_last();
        initialization_is_final(state, front);
        if !callbacks.contains(Callback::Init) {
            assert(callbacks[callbacks.len() - 1] != Callback::Init);
            assert forall|i: int| 0 <= i < front.len() implies front[i] != Callback::Init by {
                assert(callbacks[i] == front[i]);
            }
        }
    }
}

/// Attribute changes and events never move an instance to another state.
pub proof fn changes_and_events_keep_the_state(state: LifecycleState, callbacks: Seq<Callback>)
    requires
        forall|i: int|
            0 <= i < callbacks.len() ==> callbacks[i] == Callback::AttributeChanged
                || callbacks[i] == Callback::Event,
    ensures
        state.after_all(callbacks) == state,
    decreases callbacks.len(),
{
    if callbacks.len() > 0 {
        changes_and_events_keep_the_state(state, callbacks.drop_last());
    }
}

} // verus!
