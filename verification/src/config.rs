//! The configuration that a component type carries: a list of arguments,
//! and the overrides that the list amounts to.

use crate::reader::{names_in, read_names};
use crate::text::{names_of, same_text};
use vstd::prelude::*;
use vstd::string::*;

verus! {

/// The argument that sets the name of the host-side class.
pub const CLASS_NAME: &'static str = "class_name";

/// The argument that sets the tag of the element.
pub const ELEMENT_NAME: &'static str = "element_name";

/// The argument that lists the observed attributes.
pub const OBSERVED_ATTRS: &'static str = "observed_attrs";

/// The argument that lists the observed events.
pub const OBSERVED_EVENTS: &'static str = "observed_events";

/// The argument that sets the class that the host-side class extends.
pub const BASE_CLASS: &'static str = "base_class";

/// One argument of a component's configuration.
pub enum ConfigArg {
    /// A name with a text: `class_name = "MyElement"`.
    Text { name: String, value: String },
    /// A name with a list of names: `observed_attrs("class", "title")`.
    Names { name: String, values: Vec<String> },
    /// An argument of any other form. It configures nothing.
    Other,
}

/// A `ConfigArg` as mathematical data.
pub enum ConfigArgView {
    Text { name: Seq<char>, value: Seq<char> },
    Names { name: Seq<char>, values: Seq<Seq<char>> },
    Other,
}

impl View for ConfigArg {
    type V = ConfigArgView;

    open spec fn view(&self) -> ConfigArgView {
        match *self {
            ConfigArg::Text { name, value } => ConfigArgView::Text { name: name@, value: value@ },
            ConfigArg::Names { name, values } => ConfigArgView::Names {
                name: name@,
                values: names_of(values@),
            },
            ConfigArg::Other => ConfigArgView::Other,
        }
    }
}

/// How a configuration lists the names that a component observes.
pub enum Observed {
    /// The names themselves.
    Names(Vec<String>),
    /// The text of an array of quoted names: `['class', 'title']`.
    Text(String),
}

/// An `Observed` as mathematical data.
pub enum ObservedView {
    Names(Seq<Seq<char>>),
    Text(Seq<char>),
}

impl View for Observed {
    type V = ObservedView;

    open spec fn view(&self) -> ObservedView {
        match *self {
            Observed::Names(names) => ObservedView::Names(names_of(names@)),
            Observed::Text(text) => ObservedView::Text(text@),
        }
    }
}

/// The view of an optional listing.
pub open spec fn observed_of(observed: Option<Observed>) -> Option<ObservedView> {
    match observed {
        Some(listing) => Some(listing@),
        None => None,
    }
}

/// The names of an optional listing: none where there is no listing, the
/// names themselves, or the names that the text of an array lists. The
/// answer is `None` where a text is not an array of quoted names.
pub open spec fn observed_names(observed: Option<ObservedView>) -> Option<Seq<Seq<char>>> {
    match observed {
        None => Some(Seq::empty()),
        Some(ObservedView::Names(names)) => Some(names),
        Some(ObservedView::Text(text)) => names_in(text),
    }
}

/// The optional overrides of a component's configuration.
pub struct ComponentConfig {
    pub class_name: Option<String>,
    pub element_name: Option<String>,
    pub observed_attrs: Option<Observed>,
    pub observed_events: Option<Observed>,
    pub base_class: Option<String>,
}

/// A `ComponentConfig` as mathematical data.
pub struct ConfigView {
    pub class_name: Option<Seq<char>>,
    pub element_name: Option<Seq<char>>,
    pub observed_attrs: Option<ObservedView>,
    pub observed_events: Option<ObservedView>,
    pub base_class: Option<Seq<char>>,
}

impl View for ComponentConfig {
    type V = ConfigView;

    open spec fn view(&self) -> ConfigView {
        ConfigView {
            class_name: match self.class_name {
                Some(name) => Some(name@),
                None => None,
            },
            element_name: match self.element_name {
                Some(name) => Some(name@),
                None => None,
            },
            observed_attrs: observed_of(self.observed_attrs),
            observed_events: observed_of(self.observed_events),
            base_class: match self.base_class {
                Some(name) => Some(name@),
                None => None,
            },
        }
    }
}

/// The views of a list of arguments.
pub open spec fn args_of(args: Seq<ConfigArg>) -> Seq<ConfigArgView> {
    args.map_values(|arg: ConfigArg| arg@)
}

impl ConfigView {
    /// The configuration without any override.
    pub open spec fn empty() -> ConfigView {
        ConfigView {
            class_name: None,
            element_name: None,
            observed_attrs: None,
            observed_events: None,
            base_class: None,
        }
    }

    /// The configuration after one more argument. A text sets the class
    /// name, the element name or the base class, or lists the observed
    /// attributes or the observed events as an array; a list of names sets
    /// the observed attributes or the observed events. An argument under any
    /// other name changes nothing, nor does a list of names under the name
    /// of a text.
    pub open spec fn with(self, arg: ConfigArgView) -> ConfigView {
        match arg {
            ConfigArgView::Text { name, value } => {
                if name == CLASS_NAME@ {
                    ConfigView { class_name: Some(value), ..self }
                } else if name == ELEMENT_NAME@ {
                    ConfigView { element_name: Some(value), ..self }
                } else if name == BASE_CLASS@ {
                    ConfigView { base_class: Some(value), ..self }
                } else if name == OBSERVED_ATTRS@ {
                    ConfigView { observed_attrs: Some(ObservedView::Text(value)), ..self }
                } else if name == OBSERVED_EVENTS@ {
                    ConfigView { observed_events: Some(ObservedView::Text(value)), ..self }
                } else {
                    self
                }
            },
            ConfigArgView::Names { name, values } => {
                if name == OBSERVED_ATTRS@ {
                    ConfigView { observed_attrs: Some(ObservedView::Names(values)), ..self }
                } else if name == OBSERVED_EVENTS@ {
                    ConfigView { observed_events: Some(ObservedView::Names(values)), ..self }
                } else {
                    self
                }
            },
            ConfigArgView::Other => self,
        }
    }

    /// The configuration that a list of arguments amounts to: the arguments
    /// apply in order, so the last one of a name decides.
    pub open spec fn of(args: Seq<ConfigArgView>) -> ConfigView
        decreases args.len(),
    {
        if args.len() == 0 {
            ConfigView::empty()
        } else {
            ConfigView::of(args.drop_last()).with(args.last())
        }
    }
}

impl ComponentConfig {
    /// The configuration without any override.
    pub fn new() -> (config: ComponentConfig)
        ensures
            config@ == ConfigView::empty(),
    {
        ComponentConfig {
            class_name: None,
            element_name: None,
            observed_attrs: None,
            observed_events: None,
            base_class: None,
        }
    }

    /// Takes one more argument into the configuration.
    pub fn apply(&mut self, arg: &ConfigArg)
        ensures
            final(self)@ == old(self)@.with(arg@),
    {
        match arg {
            ConfigArg::Text { name, value } => {
                if same_text(name.as_str(), CLASS_NAME) {
                    self.class_name = Some(value.clone());
                } else if same_text(name.as_str(), ELEMENT_NAME) {
                    self.element_name = Some(value.clone());
                } else if same_text(name.as_str(), BASE_CLASS) {
                    self.base_class = Some(value.clone());
                } else if same_text(name.as_str(), OBSERVED_ATTRS) {
                    self.observed_attrs = Some(Observed::Text(value.clone()));
                } else if same_text(name.as_str(), OBSERVED_EVENTS) {
                    self.observed_events = Some(Observed::Text(value.clone()));
                }
            },
            ConfigArg::Names { name, values } => {
                if same_text(name.as_str(), OBSERVED_ATTRS) {
                    self.observed_attrs = Some(Observed::Names(copy_names(values)));
                } else if same_text(name.as_str(), OBSERVED_EVENTS) {
                    self.observed_events = Some(Observed::Names(copy_names(values)));
                }
            },
            ConfigArg::Other => {},
        }
    }

    /// Reads the overrides out of a list of arguments.
    pub fn from_args(args: &Vec<ConfigArg>) -> (config: ComponentConfig)
        ensures
            config@ == ConfigView::of(args_of(args@)),
    {
        let mut config = ComponentConfig::new();
        let mut at: usize = 0;
        assert(args_of(args@).take(0) =~= Seq::<ConfigArgView>::empty());
        while at < args.len()
            invariant
                at <= args.len(),
                config@ == ConfigView::of(args_of(args@).take(at as int)),
            decreases args.len() - at,
        {
            assert(args_of(args@).take(at + 1).drop_last() =~= args_of(args@).take(at as int));
            config.apply(&args[at]);
            at += 1;
        }
        assert(args_of(args@).take(at as int) =~= args_of(args@));
        config
    }
}

/// The names of an optional listing; `None` where a text is not an array of
/// quoted names.
pub fn names_observed(observed: &Option<Observed>) -> (names: Option<Vec<String>>)
    ensures
        match names {
            Some(list) => observed_names(observed_of(*observed)) == Some(names_of(list@)),
            None => observed_names(observed_of(*observed)) is None,
        },
{
    match observed {
        None => {
            let none: Vec<String> = Vec::new();
            assert(names_of(none@) =~= Seq::<Seq<char>>::empty());
            Some(none)
        },
        Some(Observed::Names(names)) => Some(copy_names(names)),
        Some(Observed::Text(text)) => read_names(text.as_str()),
    }
}

/// Copies a list of names.
pub fn copy_names(names: &Vec<String>) -> (copy: Vec<String>)
    ensures
        names_of(copy@) == names_of(names@),
{
    let mut copy: Vec<String> = Vec::new();
    let mut at: usize = 0;
    while at < names.len()
        invariant
            at <= names.len(),
            copy.len() == at,
            forall|i: int| 0 <= i < at ==> copy[i]@ == names[i]@,
        decreases names.len() - at,
    {
        copy.push(names[at].clone());
        at += 1;
    }
    assert(names_of(copy@) =~= names_of(names@));
    copy
}

} // verus!
