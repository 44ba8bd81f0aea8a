//! Registration: what is handed to the host to define an element, the guard
//! that lets a component be registered once, and a registry that keeps the
//! definitions of one process.

use crate::definition::{ComponentDefinition, DefinitionView};
use crate::error::Error;
use crate::shim::{shim_source, shim_source_of, FACTORY_PARAMETER};
use crate::text::same_text;
use vstd::prelude::*;
use vstd::string::*;

verus! {

/// A handle of a registered component: the reference to the constructor
/// that the host has made for its element.
pub struct WebComponentHandle<F> {
    /// The host-side constructor of the element.
    pub element_constructor: F,
}

/// What the host is asked to run in order to register a component.
pub struct Registration {
    /// The tag under which the element is registered.
    pub element_name: String,
    /// The name of the host-side class.
    pub class_name: String,
    /// The name under which the source receives the factory of the native
    /// state.
    pub parameter: String,
    /// The source of the host-side class and of its registration.
    pub source: String,
}

/// A `Registration` as mathematical data.
pub struct RegistrationView {
    pub element_name: Seq<char>,
    pub class_name: Seq<char>,
    pub parameter: Seq<char>,
    pub source: Seq<char>,
}

impl View for Registration {
    type V = RegistrationView;

    open spec fn view(&self) -> RegistrationView {
        RegistrationView {
            element_name: self.element_name@,
            class_name: self.class_name@,
            parameter: self.parameter@,
            source: self.source@,
        }
    }
}

/// The registration that a definition asks for.
pub open spec fn registration_of(definition: DefinitionView) -> RegistrationView {
    RegistrationView {
        element_name: definition.element_name,
        class_name: definition.class_name,
        parameter: FACTORY_PARAMETER@,
        source: shim_source_of(definition),
    }
}

/// Decides the registration of a component from what the host's registry has
/// answered for its element name: a name that is registered already is
/// refused, any other is registered with the source of the definition.
pub fn define(definition: &ComponentDefinition, already_defined: bool) -> (outcome: Result<
    Registration,
    Error,
>)
    ensures
        match outcome {
            Ok(registration) => !already_defined && registration@ == registration_of(
                definition@,
            ),
            Err(error) => already_defined && error == Error::AlreadyDefined,
        },
{
    if already_defined {
        return Err(Error::AlreadyDefined);
    }
    Ok(
        Registration {
            element_name: String::from_str(definition.element_name()),
            class_name: String::from_str(definition.class_name()),
            parameter: String::from_str(FACTORY_PARAMETER),
            source: shim_source(definition),
        },
    )
}

/// The one-time flag of a component type. It is set by the first caller that
/// enters it and is never cleared.
pub struct RegistrationGuard {
    set: bool,
}

impl RegistrationGuard {
    /// Whether a caller has entered the guard.
    pub closed spec fn is_set(&self) -> bool {
        self.set
    }

    /// A guard that nobody has entered.
    pub fn new() -> (guard: RegistrationGuard)
        ensures
            !guard.is_set(),
    {
        RegistrationGuard { set: false }
    }

    /// Whether a caller has entered the guard.
    pub fn entered(&self) -> (set: bool)
        ensures
            set == self.is_set(),
    {
        self.set
    }

    /// Tests and sets the guard in one step. The answer is `true` for the
    /// first caller and `false` for every other one.
    pub fn enter(&mut self) -> (first: bool)
        ensures
            final(self).is_set(),
            first == !old(self).is_set(),
    {
        let first = !self.set;
        self.set = true;
        first
    }

    /// Runs `work` if nobody has entered the guard before, and hands back
    /// what it returned. The guard is set before `work` starts, so that
    /// whatever `work` leads to finds it set.
    pub fn call_once<R, F: FnOnce() -> R>(&mut self, work: F) -> (outcome: Option<R>)
        requires
            call_requires(work, ()),
        ensures
            final(self).is_set(),
            match outcome {
                Some(result) => !old(self).is_set() && call_ensures(work, (), result),
                None => old(self).is_set(),
            },
    {
        if self.enter() {
            Some(work())
        } else {
            None
        }
    }
}

/// The element names of a list of definitions.
pub open spec fn element_names(entries: Seq<DefinitionView>) -> Seq<Seq<char>> {
    entries.map_values(|entry: DefinitionView| entry.element_name)
}

/// Whether a list of definitions holds one of the given element name.
pub open spec fn defines(entries: Seq<DefinitionView>, element_name: Seq<char>) -> bool {
    element_names(entries).contains(element_name)
}

/// What `define` answers on a registry with the given entries: the place of
/// the new entry, or the refusal of a name that is registered already.
pub open spec fn define_outcome(entries: Seq<DefinitionView>, definition: DefinitionView) -> Result<
    nat,
    Error,
> {
    if defines(entries, definition.element_name) {
        Err(Error::AlreadyDefined)
    } else {
        Ok(entries.len())
    }
}

/// The entries of a registry after `define`: a definition whose name is new
/// is added at the end, any other changes nothing.
pub open spec fn defined_with(entries: Seq<DefinitionView>, definition: DefinitionView) -> Seq<
    DefinitionView,
> {
    if defines(entries, definition.element_name) {
        entries
    } else {
        entries.push(definition)
    }
}

/// The definitions that one process has registered, in the order of their
/// registration. No element name is registered twice.
pub struct Registry {
    entries: Vec<ComponentDefinition>,
}

impl View for Registry {
    type V = Seq<DefinitionView>;

    closed spec fn view(&self) -> Seq<DefinitionView> {
        self.entries@.map_values(|entry: ComponentDefinition| entry@)
    }
}

impl Registry {
    #[verifier::type_invariant]
    closed spec fn holds(&self) -> bool {
        element_names(self@).no_duplicates()
    }

    /// A registry without entries.
    pub fn new() -> (registry: Registry)
        ensures
            registry@ == Seq::<DefinitionView>::empty(),
    {
        let registry = Registry { entries: Vec::new() };
        assert(registry@ =~= Seq::<DefinitionView>::empty());
        registry
    }

    /// The number of registered definitions.
    pub fn len(&self) -> (count: usize)
        ensures
            count == self@.len(),
    {
        self.entries.len()
    }

    /// Looks an element name up: the handle of its constructor if the name is
    /// registered, nothing if it is not.
    pub fn get(&self, element_name: &str) -> (found: Option<WebComponentHandle<usize>>)
        ensures
            match found {
                Some(handle) => handle.element_constructor < self@.len()
                    && self@[handle.element_constructor as int].element_name == element_name@,
                None => !defines(self@, element_name@),
            },
    {
        let mut at: usize = 0;
        while at < self.entries.len()
            invariant
                at <= self.entries.len(),
                forall|i: int| 0 <= i < at ==> self@[i].element_name != element_name@,
            decreases self.entries.len() - at,
        {
            assert(self@[at as int] == self.entries[at as int]@);
            if same_text(self.entries[at].element_name(), element_name) {
                return Some(WebComponentHandle { element_constructor: at });
            }
            at += 1;
        }
        assert forall|i: int| 0 <= i < element_names(self@).len() implies element_names(
            self@,
        )[i] != element_name@ by {
            assert(element_names(self@)[i] == self@[i].element_name);
        }
        None
    }

    /// Whether the element name is registered.
    pub fn is_defined(&self, element_name: &str) -> (defined: bool)
        ensures
            defined == defines(self@, element_name@),
    {
        match self.get(element_name) {
            Some(handle) => {
                assert(element_names(self@)[handle.element_constructor as int] == element_name@);
                true
            },
            None => false,
        }
    }

    /// The definition that a handle refers to, if the handle is of this
    /// registry.
    pub fn constructor(&self, handle: &WebComponentHandle<usize>) -> (found: Option<
        &ComponentDefinition,
    >)
        ensures
            match found {
                Some(definition) => handle.element_constructor < self@.len() && definition@
                    == self@[handle.element_constructor as int],
                None => handle.element_constructor >= self@.len(),
            },
    {
        if handle.element_constructor < self.entries.len() {
            Some(&self.entries[handle.element_constructor])
        } else {
            None
        }
    }

    /// Registers a definition under its element name. A name that is
    /// registered already is refused and the registry stays as it is; any
    /// other is added, and the handle of its constructor comes back.
    pub fn define(&mut self, definition: &ComponentDefinition) -> (outcome: Result<
        WebComponentHandle<usize>,
        Error,
    >)
        ensures
            final(self)@ == defined_with(old(self)@, definition@),
            element_names(final(self)@).no_duplicates(),
            match outcome {
                Ok(handle) => define_outcome(old(self)@, definition@) == Ok::<nat, Error>(
                    handle.element_constructor as nat,
                ),
                Err(error) => define_outcome(old(self)@, definition@) == Err::<nat, Error>(error),
            },
    {
        proof {
            use_type_invariant(&*self);
        }
        let present = self.is_defined(definition.element_name());
        match crate::registry::define(definition, present) {
            Err(error) => Err(error),
            Ok(_) => {
                let place = self.entries.len();
                let ghost before = self@;
                let mut taken = Registry::new();
                core::mem::swap(self, &mut taken);
                let Registry { entries } = taken;
                let mut entries = entries;
                entries.push(definition.duplicate());
                proof {
                    assert(entries@.map_values(|entry: ComponentDefinition| entry@)
                        =~= before.push(definition@));
                    lemma_names_stay_distinct(before, definition@);
                }
                *self = Registry { entries };
                Ok(WebComponentHandle { element_constructor: place })
            },
        }
    }

    /// Registers a definition unless its guard has been entered before.
    /// Whatever the registration answers is dropped.
    pub fn define_once(&mut self, guard: &mut RegistrationGuard, definition: &ComponentDefinition)
        ensures
            final(guard).is_set(),
            element_names(final(self)@).no_duplicates(),
            (final(guard).is_set(), final(self)@) == define_once_model(
                old(guard).is_set(),
                old(self)@,
                definition@,
            ),
    {
        if guard.enter() {
            let _ = self.define(definition);
        } else {
            proof {
                use_type_invariant(&*self);
            }
        }
    }
}

/// What `define_once` makes of a guard and a registry: a guard that is set
/// keeps everything as it is; a guard that is not set is set, and the
/// definition is registered as `define` would do it.
pub open spec fn define_once_model(
    set: bool,
    entries: Seq<DefinitionView>,
    definition: DefinitionView,
) -> (bool, Seq<DefinitionView>) {
    if set {
        (true, entries)
    } else {
        (true, defined_with(entries, definition))
    }
}

/// Guard and registry after `calls` calls of `define_once` in a row.
pub open spec fn define_once_repeated(
    set: bool,
    entries: Seq<DefinitionView>,
    definition: DefinitionView,
    calls: nat,
) -> (bool, Seq<DefinitionView>)
    decreases calls,
{
    if calls == 0 {
        (set, entries)
    } else {
        let before = define_once_repeated(set, entries, definition, (calls - 1) as nat);
        define_once_model(before.0, before.1, definition)
    }
}

/// How many of `calls` calls of `define_once` in a row try to register:
/// those that find the guard not set.
pub open spec fn registration_attempts(
    set: bool,
    entries: Seq<DefinitionView>,
    definition: DefinitionView,
    calls: nat,
) -> nat
    decreases calls,
{
    if calls == 0 {
        0
    } else {
        let before = define_once_repeated(set, entries, definition, (calls - 1) as nat);
        registration_attempts(set, entries, definition, (calls - 1) as nat) + if before.0 {
            0nat
        } else {
            1nat
        }
    }
}

/// The entries of a registry after a run of `define` calls, taken in order.
pub open spec fn defined_with_all(entries: Seq<DefinitionView>, definitions: Seq<DefinitionView>) -> Seq<
    DefinitionView,
>
    decreases definitions.len(),
{
    if definitions.len() == 0 {
        entries
    } else {
        defined_with(defined_with_all(entries, definitions.drop_last()), definitions.last())
    }
}

/// How many `define` calls of a run succeed for the given element name.
pub open spec fn successes(
    entries: Seq<DefinitionView>,
    definitions: Seq<DefinitionView>,
    element_name: Seq<char>,
) -> nat
    decreases definitions.len(),
{
    if definitions.len() == 0 {
        0
    } else {
        let front = definitions.drop_last();
        successes(entries, front, element_name) + if definitions.last().element_name
            == element_name && define_outcome(
            defined_with_all(entries, front),
            definitions.last(),
        ) is Ok {
            1nat
        } else {
            0nat
        }
    }
}

proof fn lemma_names_stay_distinct(entries: Seq<DefinitionView>, definition: DefinitionView)
    requires
        element_names(entries).no_duplicates(),
        !defines(entries, definition.element_name),
    ensures
        element_names(entries.push(definition)).no_duplicates(),
{
    let names = element_names(entries);
    let after = element_names(entries.push(definition));
    assert(after =~= names.push(definition.element_name));
    assert forall|i: int, j: int| 0 <= i < after.len() && 0 <= j < after.len() && i != j implies after[i]
        != after[j] by {
        if i < names.len() && j < names.len() {
            assert(names[i] != names[j]);
        } else if i < names.len() {
            assert(names.contains(names[i]));
        } else {
            assert(names.contains(names[j]));
        }
    }
}

proof fn lemma_defined_after(entries: Seq<DefinitionView>, definition: DefinitionView, name: Seq<char>)
    ensures
        defines(defined_with(entries, definition), name) <==> defines(entries, name)
            || definition.element_name == name,
{
    let names = element_names(entries);
    if !defines(entries, definition.element_name) {
        let after = element_names(entries.push(definition));
        assert(after =~= names.push(definition.element_name));
        if names.contains(name) {
            let i = choose|i: int| 0 <= i < names.len() && names[i] == name;
            assert(after[i] == name);
        }
        if definition.element_name == name {
            assert(after[names.len() as int] == name);
        }
        if after.contains(name) {
            let i = choose|i: int| 0 <= i < after.len() && after[i] == name;
            if i < names.len() {
                assert(names[i] == name);
            }
        }
    }
}

/// `define` succeeds for a new element name, and a second `define` of the
/// same name is refused as defined already and changes nothing.
pub proof fn define_succeeds_once(
    entries: Seq<DefinitionView>,
    first: DefinitionView,
    second: DefinitionView,
)
    requires
        !defines(entries, first.element_name),
        second.element_name == first.element_name,
    ensures
        define_outcome(entries, first) is Ok,
        define_outcome(defined_with(entries, first), second) == Err::<nat, Error>(
            Error::AlreadyDefined,
        ),
        defined_with(defined_with(entries, first), second) == defined_with(entries, first),
{
    lemma_defined_after(entries, first, first.element_name);
}

/// A registry never forgets: an element name that is registered stays
/// registered through every run of `define` calls, and no element name is
/// ever registered twice.
pub proof fn registrations_are_kept(
    entries: Seq<DefinitionView>,
    definitions: Seq<DefinitionView>,
    element_name: Seq<char>,
)
    requires
        element_names(entries).no_duplicates(),
    ensures
        element_names(defined_with_all(entries, definitions)).no_duplicates(),
        defines(defined_with_all(entries, definitions), element_name) <==> defines(
            entries,
            element_name,
        ) || element_names(definitions).contains(element_name),
    decreases definitions.len(),
{
    if definitions.len() > 0 {
        let front = definitions.drop_last();
        let last = definitions.last();
        let before = defined_with_all(entries, front);
        registrations_are_kept(entries, front, element_name);
        if !defines(before, last.element_name) {
            lemma_names_stay_distinct(before, last);
        }
        lemma_defined_after(before, last, element_name);
        let names = element_names(definitions);
        let front_names = element_names(front);
        assert(front_names =~= names.drop_last());
        if names.contains(element_name) {
            let i = choose|i: int| 0 <= i < names.len() && names[i] == element_name;
            if i < front.len() {
                assert(front_names[i] == element_name);
            }
        }
        if front_names.contains(element_name) {
            let i = choose|i: int| 0 <= i < front_names.len() && front_names[i] == element_name;
            assert(names[i] == element_name);
        }
        if last.element_name == element_name {
            assert(names[names.len() - 1] == element_name);
        }
    } else {
        assert(!element_names(definitions).contains(element_name));
    }
}

/// In every run of `define` calls, exactly one call succeeds for each element
/// name that the run holds and that was not registered before, and none for
/// any other.
pub proof fn define_succeeds_once_per_name(
    entries: Seq<DefinitionView>,
    definitions: Seq<DefinitionView>,
    element_name: Seq<char>,
)
    requires
        element_names(entries).no_duplicates(),
    ensures
        successes(entries, definitions, element_name) == if !defines(entries, element_name)
            && element_names(definitions).contains(element_name) {
            1nat
        } else {
            0nat
        },
    decreases definitions.len(),
{
    if definitions.len() > 0 {
        let front = definitions.drop_last();
        let last = definitions.last();
        define_succeeds_once_per_name(entries, front, element_name);
        registrations_are_kept(entries, front, element_name);
        let names = element_names(definitions);
        let front_names = element_names(front);
        assert(front_names =~= names.drop_last());
        if names.contains(element_name) {
            let i = choose|i: int| 0 <= i < names.len() && names[i] == element_name;
            if i < front.len() {
                assert(front_names[i] == element_name);
            }
        }
        if front_names.contains(element_name) {
            let i = choose|i: int| 0 <= i < front_names.len() && front_names[i] == element_name;
            assert(names[i] == element_name);
        }
        if last.element_name == element_name {
            assert(names[names.len() - 1] == element_name);
        }
    } else {
        assert(!element_names(definitions).contains(element_name));
    }
}

/// One or more calls of `define_once` in a row leave guard and registry as
/// the first call leaves them, and exactly one of them tries to register
/// where the guard was not set: the first.
pub proof fn define_once_registers_once(
    set: bool,
    entries: Seq<DefinitionView>,
    definition: DefinitionView,
    calls: nat,
)
    requires
        calls >= 1,
    ensures
        define_once_repeated(set, entries, definition, calls) == define_once_model(
            set,
            entries,
            definition,
        ),
        registration_attempts(set, entries, definition, calls) == if set {
            0nat
        } else {
            1nat
        },
    decreases calls,
{
    if calls > 1 {
        define_once_registers_once(set, entries, definition, (calls - 1) as nat);
    } else {
        assert(define_once_repeated(set, entries, definition, 0) == (set, entries));
        assert(registration_attempts(set, entries, definition, 0) == 0);
    }
}

} // verus!
