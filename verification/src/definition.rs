//! The definition of a component: the names and the observed sets that its
//! registration is made with, fixed once they are resolved.

use crate::config::{
    args_of, copy_names, names_observed, observed_names, ComponentConfig, ConfigArg, ConfigView,
};
use crate::error::Error;
use crate::text::{
    contains_name, distinct, distinct_names, is_valid_element_name, kebab_case, kebab_case_of,
    lemma_distinct, lemma_distinct_of_distinct, lowercase, lowercase_of, names_of,
    valid_element_name,
};
use vstd::prelude::*;
use vstd::string::*;

verus! {

/// The class that a host-side class extends when the configuration names no
/// other.
pub const DEFAULT_BASE_CLASS: &'static str = "HTMLElement";

/// The resolved definition of one component type.
pub struct ComponentDefinition {
    class_name: String,
    element_name: String,
    observed_attributes: Vec<String>,
    observed_events: Vec<String>,
    base_class: String,
}

/// A `ComponentDefinition` as mathematical data.
pub struct DefinitionView {
    pub class_name: Seq<char>,
    pub element_name: Seq<char>,
    pub observed_attributes: Seq<Seq<char>>,
    pub observed_events: Seq<Seq<char>>,
    pub base_class: Seq<char>,
}

impl DefinitionView {
    /// What holds of every definition: the element name is valid, and no
    /// attribute and no event is observed twice.
    pub open spec fn well_formed(self) -> bool {
        &&& valid_element_name(self.element_name)
        &&& self.observed_attributes.no_duplicates()
        &&& self.observed_events.no_duplicates()
    }

    /// The definition made of the given parts: the observed names lose their
    /// repetitions, and an element name without a separator is refused.
    pub open spec fn checked(
        class_name: Seq<char>,
        element_name: Seq<char>,
        observed_attributes: Seq<Seq<char>>,
        observed_events: Seq<Seq<char>>,
        base_class: Seq<char>,
    ) -> Result<DefinitionView, Error> {
        if valid_element_name(element_name) {
            Ok(
                DefinitionView {
                    class_name,
                    element_name,
                    observed_attributes: distinct(observed_attributes),
                    observed_events: distinct(observed_events),
                    base_class,
                },
            )
        } else {
            Err(Error::InvalidConfiguration)
        }
    }

    /// The class name that a configuration resolves to: its override, else
    /// the name of the type.
    pub open spec fn resolved_class_name(config: ConfigView, struct_name: Seq<char>) -> Seq<char> {
        match config.class_name {
            Some(name) => name,
            None => struct_name,
        }
    }

    /// The definition that a configuration resolves to, given the element
    /// name that is derived from the class name. The derived name counts only
    /// where the configuration has no override of its own; the base class
    /// defaults to `DEFAULT_BASE_CLASS` and the observed sets to the empty
    /// set. A configuration whose observed attributes or events are a text
    /// that is not an array of quoted names is refused.
    pub open spec fn resolved_with(
        config: ConfigView,
        struct_name: Seq<char>,
        derived_element_name: Seq<char>,
    ) -> Result<DefinitionView, Error> {
        match (observed_names(config.observed_attrs), observed_names(config.observed_events)) {
            (Some(attributes), Some(events)) => DefinitionView::checked(
                DefinitionView::resolved_class_name(config, struct_name),
                match config.element_name {
                    Some(name) => name,
                    None => derived_element_name,
                },
                attributes,
                events,
                match config.base_class {
                    Some(name) => name,
                    None => DEFAULT_BASE_CLASS@,
                },
            ),
            _ => Err(Error::InvalidConfiguration),
        }
    }

    /// The element name that is derived from a class name: its kebab case,
    /// in lower case.
    pub open spec fn derived_element_name(class_name: Seq<char>) -> Seq<char> {
        lowercase_of(kebab_case_of(class_name))
    }

    /// The definition that a configuration resolves to for a type of the
    /// given name.
    pub open spec fn resolved(config: ConfigView, struct_name: Seq<char>) -> Result<
        DefinitionView,
        Error,
    > {
        DefinitionView::resolved_with(
            config,
            struct_name,
            DefinitionView::derived_element_name(
                DefinitionView::resolved_class_name(config, struct_name),
            ),
        )
    }
}

impl View for ComponentDefinition {
    type V = DefinitionView;

    closed spec fn view(&self) -> DefinitionView {
        DefinitionView {
            class_name: self.class_name@,
            element_name: self.element_name@,
            observed_attributes: names_of(self.observed_attributes@),
            observed_events: names_of(self.observed_events@),
            base_class: self.base_class@,
        }
    }
}

/// Whether an outcome is the one that the model gives.
pub open spec fn matches_outcome(
    outcome: Result<ComponentDefinition, Error>,
    model: Result<DefinitionView, Error>,
) -> bool {
    match outcome {
        Ok(definition) => model == Ok::<DefinitionView, Error>(definition@),
        Err(error) => model == Err::<DefinitionView, Error>(error),
    }
}

impl ComponentDefinition {
    #[verifier::type_invariant]
    closed spec fn holds(&self) -> bool {
        self@.well_formed()
    }

    /// Makes a definition of the given parts.
    pub fn new(
        class_name: String,
        element_name: String,
        observed_attributes: &Vec<String>,
        observed_events: &Vec<String>,
        base_class: String,
    ) -> (outcome: Result<ComponentDefinition, Error>)
        ensures
            matches_outcome(
                outcome,
                DefinitionView::checked(
                    class_name@,
                    element_name@,
                    names_of(observed_attributes@),
                    names_of(observed_events@),
                    base_class@,
                ),
            ),
    {
        if !is_valid_element_name(element_name.as_str()) {
            return Err(Error::InvalidConfiguration);
        }
        let attributes = distinct_names(observed_attributes);
        let events = distinct_names(observed_events);
        proof {
            lemma_distinct(names_of(observed_attributes@));
            lemma_distinct(names_of(observed_events@));
        }
        Ok(
            ComponentDefinition {
                class_name,
                element_name,
                observed_attributes: attributes,
                observed_events: events,
                base_class,
            },
        )
    }

    /// Resolves a configuration for a type of the given name, with the
    /// element name that is derived from the class name handed in.
    pub fn resolve_with(config: &ComponentConfig, struct_name: &str, derived_element_name: &str) -> (outcome:
        Result<ComponentDefinition, Error>)
        ensures
            matches_outcome(
                outcome,
                DefinitionView::resolved_with(config@, struct_name@, derived_element_name@),
            ),
    {
        let class_name = match &config.class_name {
            Some(name) => name.clone(),
            None => String::from_str(struct_name),
        };
        let element_name = match &config.element_name {
            Some(name) => name.clone(),
            None => String::from_str(derived_element_name),
        };
        let base_class = match &config.base_class {
            Some(name) => name.clone(),
            None => String::from_str(DEFAULT_BASE_CLASS),
        };
        let attributes = match names_observed(&config.observed_attrs) {
            Some(names) => names,
            None => return Err(Error::InvalidConfiguration),
        };
        let events = match names_observed(&config.observed_events) {
            Some(names) => names,
            None => return Err(Error::InvalidConfiguration),
        };
        ComponentDefinition::new(class_name, element_name, &attributes, &events, base_class)
    }

    /// Resolves a configuration for a type of the given name: the class name
    /// is the override or the name of the type; the element name is the
    /// override or the kebab case of the class name, in lower case.
    pub fn resolve(config: &ComponentConfig, struct_name: &str) -> (outcome: Result<
        ComponentDefinition,
        Error,
    >)
        ensures
            matches_outcome(outcome, DefinitionView::resolved(config@, struct_name@)),
    {
        let derived = match &config.element_name {
            Some(_) => String::new(),
            None => match &config.class_name {
                Some(name) => lowercase(kebab_case(name.as_str()).as_str()),
                None => lowercase(kebab_case(struct_name).as_str()),
            },
        };
        ComponentDefinition::resolve_with(config, struct_name, derived.as_str())
    }

    /// The name of the host-side class.
    pub fn class_name(&self) -> (name: &str)
        ensures
            name@ == self@.class_name,
    {
        self.class_name.as_str()
    }

    /// The tag under which the element is registered.
    pub fn element_name(&self) -> (name: &str)
        ensures
            name@ == self@.element_name,
            valid_element_name(name@),
    {
        proof {
            use_type_invariant(self);
        }
        self.element_name.as_str()
    }

    /// The class that the host-side class extends.
    pub fn base_class(&self) -> (name: &str)
        ensures
            name@ == self@.base_class,
    {
        self.base_class.as_str()
    }

    /// The attributes whose changes the host reports, none of them twice.
    pub fn observed_attributes(&self) -> (names: &Vec<String>)
        ensures
            names_of(names@) == self@.observed_attributes,
            names_of(names@).no_duplicates(),
    {
        proof {
            use_type_invariant(self);
        }
        &self.observed_attributes
    }

    /// The events that the element listens for, none of them twice.
    pub fn observed_events(&self) -> (names: &Vec<String>)
        ensures
            names_of(names@) == self@.observed_events,
            names_of(names@).no_duplicates(),
    {
        proof {
            use_type_invariant(self);
        }
        &self.observed_events
    }

    /// Whether the host reports changes of the attribute.
    pub fn observes_attribute(&self, name: &str) -> (observed: bool)
        ensures
            observed == self@.observed_attributes.contains(name@),
    {
        contains_name(&self.observed_attributes, name)
    }

    /// Whether the element listens for the event.
    pub fn observes_event(&self, name: &str) -> (observed: bool)
        ensures
            observed == self@.observed_events.contains(name@),
    {
        contains_name(&self.observed_events, name)
    }

    /// A copy of the definition.
    pub fn duplicate(&self) -> (copy: ComponentDefinition)
        ensures
            copy@ == self@,
    {
        proof {
            use_type_invariant(self);
        }
        ComponentDefinition {
            class_name: self.class_name.clone(),
            element_name: self.element_name.clone(),
            observed_attributes: copy_names(&self.observed_attributes),
            observed_events: copy_names(&self.observed_events),
            base_class: self.base_class.clone(),
        }
    }
}

/// Resolves the configuration that a list of arguments amounts to, for a type
/// of the given name.
pub fn get_class_and_element_names(args: &Vec<ConfigArg>, struct_name: &str) -> (outcome: Result<
    ComponentDefinition,
    Error,
>)
    ensures
        matches_outcome(
            outcome,
            DefinitionView::resolved(ConfigView::of(args_of(args@)), struct_name@),
        ),
{
    let config = ComponentConfig::from_args(args);
    ComponentDefinition::resolve(&config, struct_name)
}

/// A configuration without overrides of the observed sets resolves to a
/// definition that observes no attribute and no event.
pub proof fn nothing_is_observed_by_default(
    config: ConfigView,
    struct_name: Seq<char>,
    derived_element_name: Seq<char>,
)
    requires
        config.observed_attrs is None,
        config.observed_events is None,
    ensures
        match DefinitionView::resolved_with(config, struct_name, derived_element_name) {
            Ok(definition) => definition.observed_attributes == Seq::<Seq<char>>::empty()
                && definition.observed_events == Seq::<Seq<char>>::empty(),
            Err(_) => true,
        },
        match DefinitionView::resolved(config, struct_name) {
            Ok(definition) => definition.observed_attributes.to_set() == Set::<Seq<char>>::empty()
                && definition.observed_events.to_set() == Set::<Seq<char>>::empty(),
            Err(_) => true,
        },
{
    assert(distinct(Seq::<Seq<char>>::empty()) == Seq::<Seq<char>>::empty());
    assert(Seq::<Seq<char>>::empty().to_set() =~= Set::<Seq<char>>::empty());
}

/// A well-formed definition is the definition that is made of its own parts.
pub proof fn a_definition_is_made_of_its_parts(definition: DefinitionView)
    requires
        definition.well_formed(),
    ensures
        DefinitionView::checked(
            definition.class_name,
            definition.element_name,
            definition.observed_attributes,
            definition.observed_events,
            definition.base_class,
        ) == Ok::<DefinitionView, Error>(definition),
{
    lemma_distinct_of_distinct(definition.observed_attributes);
    lemma_distinct_of_distinct(definition.observed_events);
}

/// Every definition that a configuration resolves to is well formed, keeps
/// the overrides of the names as they are, and observes exactly the names
/// that the configuration lists.
pub proof fn resolution_keeps_the_overrides(
    config: ConfigView,
    struct_name: Seq<char>,
    derived_element_name: Seq<char>,
)
    ensures
        match DefinitionView::resolved_with(config, struct_name, derived_element_name) {
            Ok(definition) => {
                &&& definition.well_formed()
                &&& config.class_name is Some ==> definition.class_name == config.class_name->0
                &&& config.class_name is None ==> definition.class_name == struct_name
                &&& config.element_name is Some ==> definition.element_name
                    == config.element_name->0
                &&& config.element_name is None ==> definition.element_name
                    == derived_element_name
                &&& config.base_class is Some ==> definition.base_class == config.base_class->0
                &&& observed_names(config.observed_attrs) is Some
                &&& definition.observed_attributes.to_set() == observed_names(
                    config.observed_attrs,
                )->0.to_set()
                &&& observed_names(config.observed_events) is Some
                &&& definition.observed_events.to_set() == observed_names(
                    config.observed_events,
                )->0.to_set()
            },
            Err(_) => true,
        },
{
    if observed_names(config.observed_attrs) is Some {
        let names = observed_names(config.observed_attrs)->0;
        lemma_distinct(names);
        assert(distinct(names).to_set() =~= names.to_set());
    }
    if observed_names(config.observed_events) is Some {
        let names = observed_names(config.observed_events)->0;
        lemma_distinct(names);
        assert(distinct(names).to_set() =~= names.to_set());
    }
}

} // verus!
