[package]
name = "wasm_web_component"
version = "0.3.0"
edition = "2021"
publish = false

[dependencies]
Inflector = "0.11"
js-sys = "0.3"
proc-macro-crate = "1"
proc-macro2 = "1"
quote = "1"
syn = { version = "1", features = ["full"] }
wasm-bindgen = "0.2"
web-sys = { version = "0.3", features = ["CustomElementRegistry", "CustomEvent", "Document", "Element", "Event", "EventTarget", "HtmlElement", "HtmlTemplateElement", "Node", "ShadowRoot", "ShadowRootInit", "ShadowRootMode", "Window"] }
