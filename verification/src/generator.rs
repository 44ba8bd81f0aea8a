//! What is generated for a component type or a template type from its name
//! and its configuration.

use crate::config::{args_of, ConfigArg, ConfigView};
use crate::definition::{get_class_and_element_names, ComponentDefinition, DefinitionView};
use crate::error::Error;
use crate::shim::{shim_source, shim_source_of};
use crate::text::{snake_case, snake_case_of, uppercase, uppercase_of};
use vstd::prelude::*;
use vstd::string::*;

verus! {

/// What follows the name of a type in the name of its guard.
pub const GUARD_SUFFIX: &'static str = "_ONCE";

/// The path that stands for the crate in which a reference is written.
pub const OWN_CRATE: &'static str = "crate";

/// What stands between the parts of a path.
pub const PATH_SEPARATOR: &'static str = "::";

/// The name of the guard of a type: the snake case of the name of the type,
/// in upper case, followed by `GUARD_SUFFIX`.
pub open spec fn guard_name_of(struct_name: Seq<char>) -> Seq<char> {
    uppercase_of(snake_case_of(struct_name)) + GUARD_SUFFIX@
}

/// The name of a guard, made of the name of the type as it stands in guard
/// names.
pub fn guard_name_from(screaming_name: &str) -> (name: String)
    ensures
        name@ == screaming_name@ + GUARD_SUFFIX@,
{
    let mut name = String::from_str(screaming_name);
    name.append(GUARD_SUFFIX);
    name
}

/// The name of the guard of a type.
pub fn guard_name(struct_name: &str) -> (name: String)
    ensures
        name@ == guard_name_of(struct_name@),
{
    let screaming = uppercase(snake_case(struct_name).as_str());
    guard_name_from(screaming.as_str())
}

/// Under which name a crate is known where a reference to it is written.
pub enum FoundCrate {
    /// The reference is written in the crate itself.
    Itself,
    /// The crate is known under the given name.
    Name(String),
}

/// The path of an item of a crate, seen from where the crate was found.
pub open spec fn crate_ref_of(found: FoundCrate, path: Seq<char>) -> Seq<char> {
    match found {
        FoundCrate::Itself => OWN_CRATE@ + PATH_SEPARATOR@ + path,
        FoundCrate::Name(name) => name@ + PATH_SEPARATOR@ + path,
    }
}

/// Writes the path of an item of a crate, seen from where the crate was
/// found.
pub fn expand_crate_ref(found: &FoundCrate, path: &str) -> (full: String)
    ensures
        full@ == crate_ref_of(*found, path@),
{
    let mut full = match found {
        FoundCrate::Itself => String::from_str(OWN_CRATE),
        FoundCrate::Name(name) => name.clone(),
    };
    full.append(PATH_SEPARATOR);
    full.append(path);
    full
}

/// What is generated for a component type.
pub struct GeneratedComponent {
    /// The resolved definition.
    pub definition: ComponentDefinition,
    /// The name of the guard that lets the component be registered once.
    pub guard_name: String,
    /// The source of the host-side class.
    pub shim_source: String,
}

/// What is generated for a template type.
pub struct GeneratedTemplate {
    /// The name of the cell that keeps the identifier of the template.
    pub guard_name: String,
}

/// Generates what a component type needs: its definition, resolved from the
/// arguments of its configuration, the name of its guard, and the source of
/// its host-side class. An element name without a separator is refused
/// before anything is generated.
pub fn web_component(args: &Vec<ConfigArg>, struct_name: &str) -> (outcome: Result<
    GeneratedComponent,
    Error,
>)
    ensures
        match outcome {
            Ok(generated) => {
                &&& DefinitionView::resolved(ConfigView::of(args_of(args@)), struct_name@) == Ok::<
                    DefinitionView,
                    Error,
                >(generated.definition@)
                &&& generated.guard_name@ == guard_name_of(struct_name@)
                &&& generated.shim_source@ == shim_source_of(generated.definition@)
            },
            Err(error) => DefinitionView::resolved(ConfigView::of(args_of(args@)), struct_name@)
                == Err::<DefinitionView, Error>(error),
        },
{
    match get_class_and_element_names(args, struct_name) {
        Err(error) => Err(error),
        Ok(definition) => {
            let source = shim_source(&definition);
            Ok(
                GeneratedComponent {
                    definition,
                    guard_name: guard_name(struct_name),
                    shim_source: source,
                },
            )
        },
    }
}

/// Generates what a template type needs: the name of the cell that keeps its
/// identifier.
pub fn template_element(struct_name: &str) -> (generated: GeneratedTemplate)
    ensures
        generated.guard_name@ == guard_name_of(struct_name@),
{
    GeneratedTemplate { guard_name: guard_name(struct_name) }
}

} // verus!
