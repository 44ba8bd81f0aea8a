use wasm_web_component::config::{names_observed, ComponentConfig, ConfigArg, Observed};
use wasm_web_component::definition::{get_class_and_element_names, ComponentDefinition};
use wasm_web_component::error::Error;
use wasm_web_component::text::{contains_char, is_valid_element_name, same_text};

fn text(name: &str, value: &str) -> ConfigArg {
    ConfigArg::Text { name: name.to_string(), value: value.to_string() }
}

fn names(name: &str, values: &[&str]) -> ConfigArg {
    ConfigArg::Names {
        name: name.to_string(),
        values: values.iter().map(|value| value.to_string()).collect(),
    }
}

fn strings(values: &[&str]) -> Vec<String> {
    values.iter().map(|value| value.to_string()).collect()
}

#[test]
fn test_component_no_element_name() {
    let definition =
        get_class_and_element_names(&vec![text("class_name", "AnElement")], "AnElement").unwrap();
    assert_eq!(definition.element_name(), "an-element");
}

#[test]
fn test_component_no_class_name() {
    let definition = get_class_and_element_names(&Vec::new(), "AnotherElement").unwrap();
    assert_eq!(definition.class_name(), "AnotherElement");
    assert_eq!(definition.element_name(), "another-element");
}

#[test]
fn test_component_no_class_name_with_element_name() {
    let definition =
        get_class_and_element_names(&vec![text("element_name", "this-old-element")], "ThisElement")
            .unwrap();
    assert_eq!(definition.class_name(), "ThisElement");
    assert_eq!(definition.element_name(), "this-old-element");
}

#[test]
fn nothing_is_observed_without_overrides() {
    let definition = get_class_and_element_names(&Vec::new(), "AnotherElement").unwrap();
    assert!(definition.observed_attributes().is_empty());
    assert!(definition.observed_events().is_empty());
    assert!(!definition.observes_attribute("class"));
    assert!(!definition.observes_event("click"));
}

#[test]
fn base_class_defaults_to_the_generic_element() {
    let definition = get_class_and_element_names(&Vec::new(), "AnotherElement").unwrap();
    assert_eq!(definition.base_class(), "HTMLElement");
    let definition = get_class_and_element_names(
        &vec![text("base_class", "HTMLInputElement")],
        "AnotherElement",
    )
    .unwrap();
    assert_eq!(definition.base_class(), "HTMLInputElement");
}

#[test]
fn all_overrides_are_taken() {
    let definition = get_class_and_element_names(
        &vec![
            text("class_name", "MyElement"),
            text("element_name", "my-element"),
            names("observed_attrs", &["class"]),
            names("observed_events", &["click", "change"]),
            text("base_class", "HTMLElement"),
        ],
        "MyElementImpl",
    )
    .unwrap();
    assert_eq!(definition.class_name(), "MyElement");
    assert_eq!(definition.element_name(), "my-element");
    assert_eq!(definition.observed_attributes(), &strings(&["class"]));
    assert_eq!(definition.observed_events(), &strings(&["click", "change"]));
    assert!(definition.observes_attribute("class"));
    assert!(!definition.observes_attribute("id"));
    assert!(definition.observes_event("change"));
    assert!(!definition.observes_event("class"));
}

#[test]
fn element_name_follows_the_class_name_override() {
    let definition =
        get_class_and_element_names(&vec![text("class_name", "FancyButton")], "Plain").unwrap();
    assert_eq!(definition.class_name(), "FancyButton");
    assert_eq!(definition.element_name(), "fancy-button");
}

#[test]
fn the_last_argument_of_a_name_decides() {
    let definition = get_class_and_element_names(
        &vec![
            text("element_name", "first-name"),
            names("observed_attrs", &["a"]),
            text("element_name", "second-name"),
            names("observed_attrs", &["b", "c"]),
        ],
        "SomeElement",
    )
    .unwrap();
    assert_eq!(definition.element_name(), "second-name");
    assert_eq!(definition.observed_attributes(), &strings(&["b", "c"]));
}

#[test]
fn arguments_of_another_form_or_name_change_nothing() {
    let definition = get_class_and_element_names(
        &vec![
            ConfigArg::Other,
            names("class_name", &["Wrong"]),
            names("element_name", &["wrong-name"]),
            text("colour", "red"),
            names("observed", &["class"]),
        ],
        "SomeElement",
    )
    .unwrap();
    assert_eq!(definition.class_name(), "SomeElement");
    assert_eq!(definition.element_name(), "some-element");
    assert_eq!(definition.base_class(), "HTMLElement");
    assert!(definition.observed_attributes().is_empty());
    assert!(definition.observed_events().is_empty());
}

#[test]
fn config_reads_each_override() {
    let config = ComponentConfig::from_args(&vec![
        text("class_name", "A"),
        text("element_name", "b-c"),
        text("base_class", "D"),
        names("observed_attrs", &["e"]),
        names("observed_events", &["f"]),
    ]);
    assert_eq!(config.class_name, Some("A".to_string()));
    assert_eq!(config.element_name, Some("b-c".to_string()));
    assert_eq!(config.base_class, Some("D".to_string()));
    assert!(matches!(config.observed_attrs, Some(Observed::Names(ref list)) if list == &strings(&["e"])));
    assert!(matches!(config.observed_events, Some(Observed::Names(ref list)) if list == &strings(&["f"])));
    let empty = ComponentConfig::from_args(&Vec::new());
    assert_eq!(empty.class_name, None);
    assert_eq!(empty.element_name, None);
    assert_eq!(empty.base_class, None);
    assert!(empty.observed_attrs.is_none());
    assert!(empty.observed_events.is_none());
    let written = ComponentConfig::from_args(&vec![
        text("observed_attrs", "['class']"),
        text("observed_events", "no array"),
    ]);
    assert!(matches!(written.observed_attrs, Some(Observed::Text(ref array)) if array == "['class']"));
    assert!(matches!(written.observed_events, Some(Observed::Text(ref array)) if array == "no array"));
}

#[test]
fn observed_names_are_read_from_the_text_of_an_array() {
    let definition = get_class_and_element_names(
        &vec![
            text("class_name", "MyElement"),
            text("element_name", "my-element"),
            text("observed_attrs", "['class']"),
            text("observed_events", "['click', 'change']"),
            text("base_class", "HTMLElement"),
        ],
        "MyElementImpl",
    )
    .unwrap();
    assert_eq!(definition.observed_attributes(), &strings(&["class"]));
    assert_eq!(definition.observed_events(), &strings(&["click", "change"]));
    assert!(definition.observes_attribute("class"));
    assert!(definition.observes_event("change"));
    let definition = get_class_and_element_names(
        &vec![text("observed_attrs", "[]"), text("observed_events", " [ \"a\" , 'b', 'a', ] ")],
        "BenchElement",
    )
    .unwrap();
    assert!(definition.observed_attributes().is_empty());
    assert_eq!(definition.observed_events(), &strings(&["a", "b"]));
}

#[test]
fn a_text_that_is_no_array_of_names_is_refused() {
    for unreadable in ["", "class", "['class'", "'class']", "[class]", "['a' 'b']", "[,]", "['a\\'b']", "['a'] x", "[['a']]", "['a', 1]"] {
        let outcome =
            get_class_and_element_names(&vec![text("observed_attrs", unreadable)], "AnotherElement");
        assert!(matches!(outcome, Err(Error::InvalidConfiguration)), "{}", unreadable);
        let outcome =
            get_class_and_element_names(&vec![text("observed_events", unreadable)], "AnotherElement");
        assert!(matches!(outcome, Err(Error::InvalidConfiguration)), "{}", unreadable);
    }
    let outcome = get_class_and_element_names(
        &vec![text("observed_attrs", "class"), names("observed_attrs", &["class"])],
        "AnotherElement",
    );
    assert_eq!(outcome.unwrap().observed_attributes(), &strings(&["class"]));
}

#[test]
fn a_listing_gives_its_names() {
    assert_eq!(names_observed(&None), Some(Vec::new()));
    assert_eq!(
        names_observed(&Some(Observed::Names(strings(&["a", "a"])))),
        Some(strings(&["a", "a"]))
    );
    assert_eq!(
        names_observed(&Some(Observed::Text("['a', \"b\"]".to_string()))),
        Some(strings(&["a", "b"]))
    );
    assert_eq!(names_observed(&Some(Observed::Text("a, b".to_string()))), None);
}

#[test]
fn an_element_name_without_separator_is_refused() {
    let outcome = get_class_and_element_names(&Vec::new(), "Plain");
    assert!(matches!(outcome, Err(Error::InvalidConfiguration)));
    let outcome =
        get_class_and_element_names(&vec![text("element_name", "plain")], "AnotherElement");
    assert!(matches!(outcome, Err(Error::InvalidConfiguration)));
    let outcome = get_class_and_element_names(&vec![text("element_name", "")], "AnotherElement");
    assert!(matches!(outcome, Err(Error::InvalidConfiguration)));
}

#[test]
fn a_definition_is_made_of_its_parts() {
    let definition = ComponentDefinition::new(
        "MyElement".to_string(),
        "my-element".to_string(),
        &strings(&["class", "title", "class"]),
        &strings(&["click", "click", "input", "click"]),
        "HTMLElement".to_string(),
    )
    .unwrap();
    assert_eq!(definition.observed_attributes(), &strings(&["class", "title"]));
    assert_eq!(definition.observed_events(), &strings(&["click", "input"]));
    let copy = definition.duplicate();
    assert_eq!(copy.class_name(), "MyElement");
    assert_eq!(copy.element_name(), "my-element");
    assert_eq!(copy.base_class(), "HTMLElement");
    assert_eq!(copy.observed_attributes(), &strings(&["class", "title"]));
    assert_eq!(copy.observed_events(), &strings(&["click", "input"]));
    let refused = ComponentDefinition::new(
        "MyElement".to_string(),
        "myelement".to_string(),
        &Vec::new(),
        &Vec::new(),
        "HTMLElement".to_string(),
    );
    assert!(matches!(refused, Err(Error::InvalidConfiguration)));
}

#[test]
fn resolve_with_uses_the_derived_name_only_without_override() {
    let mut config = ComponentConfig::new();
    let definition = ComponentDefinition::resolve_with(&config, "SomeType", "derived-name").unwrap();
    assert_eq!(definition.class_name(), "SomeType");
    assert_eq!(definition.element_name(), "derived-name");
    config.element_name = Some("own-name".to_string());
    let definition = ComponentDefinition::resolve_with(&config, "SomeType", "derived-name").unwrap();
    assert_eq!(definition.element_name(), "own-name");
    let definition = ComponentDefinition::resolve(&config, "SomeType").unwrap();
    assert_eq!(definition.element_name(), "own-name");
}

#[test]
fn derived_names_are_lower_case_throughout() {
    let definition = get_class_and_element_names(&Vec::new(), "ÉcoleElement").unwrap();
    assert_eq!(definition.element_name(), "école-element");
    let definition = get_class_and_element_names(&Vec::new(), "HTTPServerElement").unwrap();
    assert_eq!(definition.element_name(), "http-server-element");
    let definition = get_class_and_element_names(&Vec::new(), "my_old_element").unwrap();
    assert_eq!(definition.element_name(), "my-old-element");
}

#[test]
fn element_names_need_a_separator() {
    assert!(is_valid_element_name("my-element"));
    assert!(is_valid_element_name("-"));
    assert!(!is_valid_element_name("myelement"));
    assert!(!is_valid_element_name(""));
    assert!(!is_valid_element_name("my_element"));
}

#[test]
fn texts_are_compared_by_their_characters() {
    assert!(same_text("", ""));
    assert!(same_text("élan", "élan"));
    assert!(!same_text("elan", "élan"));
    assert!(!same_text("abc", "abd"));
    assert!(!same_text("abc", "ab"));
    assert!(contains_char("a-b", '-'));
    assert!(!contains_char("ab", '-'));
    assert!(contains_char("aé", 'é'));
}

#[test]
fn failures_have_a_text() {
    assert_eq!(Error::AlreadyDefined.message(), "Custom Element has already been defined");
    assert_eq!(Error::InvalidConfiguration.message(), "Custom Element configuration is not valid");
    assert_ne!(Error::AlreadyDefined, Error::InvalidConfiguration);
}
