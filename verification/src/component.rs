//! The capabilities that a component offers and the instance that routes the
//! host's callbacks to them.

use crate::lifecycle::{dispatched, Callback, HandlerCall, Hook, LifecycleState, Phase};
use crate::text::text_of;
use vstd::prelude::*;

verus! {

/// What every component type says of itself: how it is made and under which
/// names it is known to the host.
pub trait WebComponentDef: Default {
    /// The host's wrapper of an element, as the handlers receive it.
    type Element;

    /// The host's event object, as the event handlers receive it.
    type Event;

    /// Makes the native state of a new element: the value that the type has
    /// by default.
    fn new() -> (made: Self)
        ensures
            call_ensures(Self::default, (), made),
    {
        Self::default()
    }

    /// The tag under which the element is registered.
    fn element_name() -> &'static str;

    /// The name of the host-side class.
    fn class_name() -> &'static str;
}

/// The handlers of a component. Each callback of the host has a read-only and
/// a mutating form; a form that a component does not write does nothing.
pub trait WebComponentBinding: WebComponentDef {
    /// Called while the element is constructed.
    fn init(&self, _element: &Self::Element) {
    }

    /// Called while the element is constructed.
    fn init_mut(&mut self, _element: &Self::Element) {
    }

    /// Called when the element has entered a document.
    fn connected(&self, _element: &Self::Element) {
    }

    /// Called when the element has entered a document.
    fn connected_mut(&mut self, _element: &Self::Element) {
    }

    /// Called when the element has left its document.
    fn disconnected(&self, _element: &Self::Element) {
    }

    /// Called when the element has left its document.
    fn disconnected_mut(&mut self, _element: &Self::Element) {
    }

    /// Called when the element has moved to another document.
    fn adopted(&self, _element: &Self::Element) {
    }

    /// Called when the element has moved to another document.
    fn adopted_mut(&mut self, _element: &Self::Element) {
    }

    /// Called when an observed attribute has changed. A value that the
    /// attribute does not have is `None`.
    fn attribute_changed(
        &self,
        _element: &Self::Element,
        _name: String,
        _old_value: Option<String>,
        _new_value: Option<String>,
    ) {
    }

    /// Called when an observed attribute has changed. A value that the
    /// attribute does not have is `None`.
    fn attribute_changed_mut(
        &mut self,
        _element: &Self::Element,
        _name: String,
        _old_value: Option<String>,
        _new_value: Option<String>,
    ) {
    }

    /// Called when an observed event has reached the element.
    fn handle_event(&self, _element: &Self::Element, _event: &Self::Event) {
    }

    /// Called when an observed event has reached the element.
    fn handle_event_mut(&mut self, _element: &Self::Element, _event: &Self::Event) {
    }
}

/// Marks a type that has both its definition and its handlers.
pub trait WebComponent: WebComponentBinding {

}

fn copy_of(value: &Option<String>) -> (copy: Option<String>)
    ensures
        copy == *value,
{
    match value {
        Some(text) => Some(text.clone()),
        None => None,
    }
}

/// The native state of one element, with the state of its life and the
/// record of the handlers that have run on it.
pub struct ComponentInstance<T: WebComponent> {
    component: T,
    state: LifecycleState,
    delivered: Ghost<Seq<HandlerCall<T::Element, T::Event>>>,
}

impl<T: WebComponent> ComponentInstance<T> {
    /// Where the instance stands in its life.
    pub closed spec fn lifecycle(&self) -> LifecycleState {
        self.state
    }

    /// The component as the handlers have left it.
    pub closed spec fn native(&self) -> T {
        self.component
    }

    /// The handler invocations that the instance has made, oldest first.
    pub closed spec fn delivered(&self) -> Seq<HandlerCall<T::Element, T::Event>> {
        self.delivered@
    }

    /// Makes the native state of a new element through the component's own
    /// factory.
    pub fn new() -> (instance: Self)
        ensures
            call_ensures(T::default, (), instance.native()),
            instance.lifecycle() == LifecycleState::Constructed,
            instance.delivered() == Seq::<HandlerCall<T::Element, T::Event>>::empty(),
    {
        ComponentInstance {
            component: T::new(),
            state: LifecycleState::Constructed,
            delivered: Ghost(Seq::empty()),
        }
    }

    /// Where the instance stands in its life.
    pub fn state(&self) -> (state: LifecycleState)
        ensures
            state == self.lifecycle(),
    {
        self.state
    }

    /// The component that the handlers run on.
    pub fn component(&self) -> (component: &T)
        ensures
            *component == self.native(),
    {
        &self.component
    }

    /// Runs the `init` handlers: the read-only form, then the mutating one.
    pub fn init_impl(&mut self, element: &T::Element)
        ensures
            call_ensures(T::init, (&old(self).native(), element), ()),
            exists|component: &mut T|
                *component == old(self).native() && *final(component) == final(self).native()
                    && #[trigger] call_ensures(T::init_mut, (component, element), ()),
            final(self).lifecycle() == old(self).lifecycle().after(Callback::Init),
            final(self).delivered() == old(self).delivered() + dispatched(*element, Hook::Init),
    {
        self.component.init(element);
        self.record(Ghost(Phase::ReadOnly), Ghost(*element), Ghost(Hook::Init));
        self.component.init_mut(element);
        self.record(Ghost(Phase::Mutating), Ghost(*element), Ghost(Hook::Init));
        assert(self.delivered() =~= old(self).delivered() + dispatched(*element, Hook::Init));
        self.state = self.state.advance(Callback::Init);
    }

    /// Runs the `connected` handlers: the read-only form, then the mutating
    /// one.
    pub fn connected_impl(&mut self, element: &T::Element)
        ensures
            call_ensures(T::connected, (&old(self).native(), element), ()),
            exists|component: &mut T|
                *component == old(self).native() && *final(component) == final(self).native()
                    && #[trigger] call_ensures(T::connected_mut, (component, element), ()),
            final(self).lifecycle() == old(self).lifecycle().after(Callback::Connected),
            final(self).delivered() == old(self).delivered() + dispatched(
                *element,
                Hook::Connected,
            ),
    {
        self.component.connected(element);
        self.record(Ghost(Phase::ReadOnly), Ghost(*element), Ghost(Hook::Connected));
        self.component.connected_mut(element);
        self.record(Ghost(Phase::Mutating), Ghost(*element), Ghost(Hook::Connected));
        assert(self.delivered() =~= old(self).delivered() + dispatched(*element, Hook::Connected));
        self.state = self.state.advance(Callback::Connected);
    }

    /// Runs the `disconnected` handlers: the read-only form, then the
    /// mutating one.
    pub fn disconnected_impl(&mut self, element: &T::Element)
        ensures
            call_ensures(T::disconnected, (&old(self).native(), element), ()),
            exists|component: &mut T|
                *component == old(self).native() && *final(component) == final(self).native()
                    && #[trigger] call_ensures(T::disconnected_mut, (component, element), ()),
            final(self).lifecycle() == old(self).lifecycle().after(Callback::Disconnected),
            final(self).delivered() == old(self).delivered() + dispatched(
                *element,
                Hook::Disconnected,
            ),
    {
        self.component.disconnected(element);
        self.record(Ghost(Phase::ReadOnly), Ghost(*element), Ghost(Hook::Disconnected));
        self.component.disconnected_mut(element);
        self.record(Ghost(Phase::Mutating), Ghost(*element), Ghost(Hook::Disconnected));
        assert(self.delivered() =~= old(self).delivered() + dispatched(*element, Hook::Disconnected));
        self.state = self.state.advance(Callback::Disconnected);
    }

    /// Runs the `adopted` handlers: the read-only form, then the mutating
    /// one.
    pub fn adopted_impl(&mut self, element: &T::Element)
        ensures
            call_ensures(T::adopted, (&old(self).native(), element), ()),
            exists|component: &mut T|
                *component == old(self).native() && *final(component) == final(self).native()
                    && #[trigger] call_ensures(T::adopted_mut, (component, element), ()),
            final(self).lifecycle() == old(self).lifecycle().after(Callback::Adopted),
            final(self).delivered() == old(self).delivered() + dispatched(
                *element,
                Hook::Adopted,
            ),
    {
        self.component.adopted(element);
        self.record(Ghost(Phase::ReadOnly), Ghost(*element), Ghost(Hook::Adopted));
        self.component.adopted_mut(element);
        self.record(Ghost(Phase::Mutating), Ghost(*element), Ghost(Hook::Adopted));
        assert(self.delivered() =~= old(self).delivered() + dispatched(*element, Hook::Adopted));
        self.state = self.state.advance(Callback::Adopted);
    }

    /// Runs the `attribute_changed` handlers: the read-only form on copies of
    /// the values, then the mutating one on the values themselves.
    pub fn attribute_changed_impl(
        &mut self,
        element: &T::Element,
        name: String,
        old_value: Option<String>,
        new_value: Option<String>,
    )
        ensures
            call_ensures(
                T::attribute_changed,
                (&old(self).native(), element, name, old_value, new_value),
                (),
            ),
            exists|component: &mut T|
                *component == old(self).native() && *final(component) == final(self).native()
                    && #[trigger] call_ensures(
                    T::attribute_changed_mut,
                    (component, element, name, old_value, new_value),
                    (),
                ),
            final(self).lifecycle() == old(self).lifecycle(),
            final(self).delivered() == old(self).delivered() + dispatched(
                *element,
                Hook::AttributeChanged {
                    name: name@,
                    old_value: text_of(old_value),
                    new_value: text_of(new_value),
                },
            ),
    {
        let ghost hook = Hook::<T::Event>::AttributeChanged {
            name: name@,
            old_value: text_of(old_value),
            new_value: text_of(new_value),
        };
        let name_copy = name.clone();
        let old_copy = copy_of(&old_value);
        let new_copy = copy_of(&new_value);
        let ghost copied = Hook::<T::Event>::AttributeChanged {
            name: name_copy@,
            old_value: text_of(old_copy),
            new_value: text_of(new_copy),
        };
        self.component.attribute_changed(element, name_copy, old_copy, new_copy);
        self.record(Ghost(Phase::ReadOnly), Ghost(*element), Ghost(copied));
        self.component.attribute_changed_mut(element, name, old_value, new_value);
        self.record(Ghost(Phase::Mutating), Ghost(*element), Ghost(hook));
        assert(self.delivered() =~= old(self).delivered() + dispatched(*element, hook));
        self.state = self.state.advance(Callback::AttributeChanged);
    }

    /// Runs the event handlers: the read-only form, then the mutating one.
    pub fn handle_component_event_impl(&mut self, element: &T::Element, event: &T::Event)
        ensures
            call_ensures(T::handle_event, (&old(self).native(), element, event), ()),
            exists|component: &mut T|
                *component == old(self).native() && *final(component) == final(self).native()
                    && #[trigger] call_ensures(T::handle_event_mut, (component, element, event), ()),
            final(self).lifecycle() == old(self).lifecycle(),
            final(self).delivered() == old(self).delivered() + dispatched(
                *element,
                Hook::Event { event: *event },
            ),
    {
        self.component.handle_event(element, event);
        self.record(Ghost(Phase::ReadOnly), Ghost(*element), Ghost(Hook::Event { event: *event }));
        self.component.handle_event_mut(element, event);
        self.record(Ghost(Phase::Mutating), Ghost(*element), Ghost(Hook::Event { event: *event }));
        assert(self.delivered() =~= old(self).delivered() + dispatched(
            *element,
            Hook::Event { event: *event },
        ));
        self.state = self.state.advance(Callback::Event);
    }

    /// Notes one invocation of a handler at the end of the record.
    fn record(
        &mut self,
        phase: Ghost<Phase>,
        element: Ghost<T::Element>,
        hook: Ghost<Hook<T::Event>>,
    )
        ensures
            final(self).native() == old(self).native(),
            final(self).lifecycle() == old(self).lifecycle(),
            final(self).delivered() == old(self).delivered().push(
                HandlerCall { phase: phase@, element: element@, hook: hook@ },
            ),
    {
        self.delivered = Ghost(
            self.delivered@.push(HandlerCall { phase: phase@, element: element@, hook: hook@ }),
        );
    }
}

} // verus!
