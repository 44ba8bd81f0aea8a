use wasm_web_component::definition::ComponentDefinition;
use wasm_web_component::shim::{array, quote, shim_source};

fn strings(values: &[&str]) -> Vec<String> {
    values.iter().map(|value| value.to_string()).collect()
}

fn expected(
    name: &str,
    base_class: &str,
    observed_attributes: &str,
    observed_events: &str,
    element_name: &str,
) -> String {
    format!(
        "class {name} extends {base_class} {{
    constructor() {{
        super();
        this._impl = impl();
        this._impl.init_impl(this);
        var self = this;
        if (self.shadowRoot) {{
            for (const t of this.observedEvents()) {{
                self.shadowRoot.addEventListener(t, function(evt) {{ self.handleComponentEvent(evt); }} );
            }}
        }} else {{
            for (const t of self.observedEvents()) {{
                self.addEventListener(t, function(evt) {{ self.handleComponentEvent(evt); }} );
            }}
        }}
    }}

    connectedCallback() {{
        this._impl.connected_impl(this);
    }}
    
    disconnectedCallback() {{
        this._impl.disconnected_impl(this);
    }}

    static get observedAttributes() {{
        return {observed_attributes};
    }}

    observedEvents() {{
        return {observed_events};
    }}

    adoptedCallback() {{
        this._impl.adopted_impl(this);
    }}
    
    attributeChangedCallback(name, oldValue, newValue) {{
        this._impl.attribute_changed_impl(this, name, oldValue, newValue);
    }}

    handleComponentEvent(evt) {{
        this._impl.handle_component_event_impl(this, evt);
    }}
}}
customElements.define({element_name}, {name});
var element = customElements.get({element_name});
return element;",
        name = name,
        element_name = element_name,
        observed_attributes = observed_attributes,
        observed_events = observed_events,
        base_class = base_class,
    )
}

#[test]
fn the_source_holds_every_part_of_the_definition() {
    let definition = ComponentDefinition::new(
        "MyElement".to_string(),
        "my-element".to_string(),
        &strings(&["class"]),
        &strings(&["click", "change"]),
        "HTMLElement".to_string(),
    )
    .unwrap();
    assert_eq!(
        shim_source(&definition),
        expected("MyElement", "HTMLElement", "[\"class\"]", "[\"click\", \"change\"]", "\"my-element\"")
    );
}

#[test]
fn the_source_of_a_definition_that_observes_nothing() {
    let definition = ComponentDefinition::new(
        "AnotherElement".to_string(),
        "another-element".to_string(),
        &Vec::new(),
        &Vec::new(),
        "HTMLInputElement".to_string(),
    )
    .unwrap();
    let source = shim_source(&definition);
    assert_eq!(
        source,
        expected("AnotherElement", "HTMLInputElement", "[]", "[]", "\"another-element\"")
    );
    assert!(source.starts_with("class AnotherElement extends HTMLInputElement {\n    constructor() {\n"));
    assert!(source.contains("static get observedAttributes() {\n        return [];\n    }"));
    assert!(source.contains("observedEvents() {\n        return [];\n    }"));
    assert!(source.ends_with(
        "customElements.define(\"another-element\", AnotherElement);\nvar element = customElements.get(\"another-element\");\nreturn element;"
    ));
}

#[test]
fn the_source_escapes_what_it_quotes() {
    let definition = ComponentDefinition::new(
        "MyElement".to_string(),
        "my-\"element\"".to_string(),
        &strings(&["a\\b", "line\nbreak"]),
        &strings(&["re\rturn"]),
        "HTMLElement".to_string(),
    )
    .unwrap();
    assert_eq!(
        shim_source(&definition),
        expected(
            "MyElement",
            "HTMLElement",
            "[\"a\\\\b\", \"line\\nbreak\"]",
            "[\"re\\rturn\"]",
            "\"my-\\\"element\\\"\""
        )
    );
}

#[test]
fn texts_are_quoted_and_escaped() {
    assert_eq!(quote(""), "\"\"");
    assert_eq!(quote("class"), "\"class\"");
    assert_eq!(quote("a\"b"), "\"a\\\"b\"");
    assert_eq!(quote("a\\b"), "\"a\\\\b\"");
    assert_eq!(quote("a\nb\rc"), "\"a\\nb\\rc\"");
    assert_eq!(quote("é'x"), "\"é'x\"");
}

#[test]
fn names_are_listed_as_an_array() {
    assert_eq!(array(&Vec::new()), "[]");
    assert_eq!(array(&strings(&["class"])), "[\"class\"]");
    assert_eq!(array(&strings(&["a", "b", "c"])), "[\"a\", \"b\", \"c\"]");
    assert_eq!(array(&strings(&["", "x\"y"])), "[\"\", \"x\\\"y\"]");
}
