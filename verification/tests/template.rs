use std::cell::RefCell;
use wasm_web_component::error::Error;
use wasm_web_component::generator::template_element;
use wasm_web_component::template::{TemplateElement, TemplateElementRender, TemplateSingleton};

/// Stands for a template node of the host.
#[derive(Debug, PartialEq)]
struct Fragment {
    id: Option<String>,
}

struct MyTemplate();

impl TemplateElementRender for MyTemplate {
    type Fragment = Fragment;

    fn render() -> Option<Fragment> {
        Some(Fragment { id: Some("template-id".to_string()) })
    }
}

impl TemplateElement for MyTemplate {}

struct Anonymous();

impl TemplateElementRender for Anonymous {
    type Fragment = Fragment;

    fn render() -> Option<Fragment> {
        Some(Fragment { id: None })
    }
}

impl TemplateElement for Anonymous {}

struct Absent();

impl TemplateElementRender for Absent {
    type Fragment = Fragment;

    fn render() -> Option<Fragment> {
        None
    }
}

impl TemplateElement for Absent {}

#[test]
fn test_template_element_render_once() {
    let body: RefCell<Vec<Option<String>>> = RefCell::new(Vec::new());
    let mut template = TemplateSingleton::new();
    assert!(body.borrow().last().is_none());
    let id = template.define_once::<MyTemplate, _>(|fragment| {
        body.borrow_mut().push(fragment.id.clone());
        fragment.id.clone()
    });
    assert_eq!(id.unwrap(), Some(String::from("template-id")));
    assert_eq!(body.borrow().last().unwrap(), &Some(String::from("template-id")));
    assert_eq!(body.borrow().len(), 1);
}

#[test]
fn a_template_is_rendered_and_mounted_once() {
    let body: RefCell<Vec<Option<String>>> = RefCell::new(Vec::new());
    let mut template = TemplateSingleton::new();
    assert!(!template.is_defined());
    assert_eq!(template.get_id(), None);
    assert_eq!(template.fragment(), None);
    for _ in 0..4 {
        let id = template.define_once::<MyTemplate, _>(|fragment| {
            body.borrow_mut().push(fragment.id.clone());
            fragment.id.clone()
        });
        assert_eq!(id, Ok(Some("template-id".to_string())));
        assert!(template.is_defined());
        assert_eq!(template.get_id(), Some(&Some("template-id".to_string())));
        assert_eq!(template.fragment(), Some(&Fragment { id: Some("template-id".to_string()) }));
        assert_eq!(body.borrow().len(), 1);
    }
}

#[test]
fn the_first_rendered_fragment_decides() {
    let mut template = TemplateSingleton::new();
    let mut mounted = 0;
    let first = template.define_once::<MyTemplate, _>(|fragment| {
        mounted += 1;
        fragment.id.clone()
    });
    assert_eq!(first, Ok(Some("template-id".to_string())));
    let second = template.define_once::<Anonymous, _>(|fragment| {
        mounted += 1;
        fragment.id.clone()
    });
    assert_eq!(second, Ok(Some("template-id".to_string())));
    let third = template.define_once::<Absent, _>(|fragment| {
        mounted += 1;
        fragment.id.clone()
    });
    assert_eq!(third, Ok(Some("template-id".to_string())));
    assert_eq!(mounted, 1);
}

#[test]
fn the_three_states_of_an_identifier_differ() {
    let mut template = TemplateSingleton::new();
    assert_eq!(template.get_id(), None);
    let id = template.define_once::<Anonymous, _>(|fragment| fragment.id.clone());
    assert_eq!(id, Ok(None));
    assert_eq!(template.get_id(), Some(&None));
    let mut named = TemplateSingleton::new();
    named.define_once::<MyTemplate, _>(|fragment| fragment.id.clone()).unwrap();
    assert_eq!(named.get_id(), Some(&Some("template-id".to_string())));
    assert_ne!(template.get_id(), named.get_id());
}

#[test]
fn a_template_that_renders_nothing_is_refused() {
    let mut template = TemplateSingleton::new();
    let mut mounted = 0;
    let outcome = template.define_once::<Absent, _>(|fragment| {
        mounted += 1;
        fragment.id.clone()
    });
    assert_eq!(outcome, Err(Error::InvalidConfiguration));
    assert_eq!(mounted, 0);
    assert!(!template.is_defined());
    assert_eq!(template.get_id(), None);
    assert_eq!(template.fragment(), None);
    let later = template.define_once::<MyTemplate, _>(|fragment| fragment.id.clone());
    assert_eq!(later, Ok(Some("template-id".to_string())));
    assert_eq!(template.get_id(), Some(&Some("template-id".to_string())));
}

#[test]
fn define_once_with_keeps_the_first_fragment() {
    let mut template: TemplateSingleton<u8> = TemplateSingleton::new();
    assert_eq!(template.define_once_with(None), Err(Error::InvalidConfiguration));
    assert_eq!(template.get_id(), None);
    assert_eq!(template.define_once_with(Some((1, None))), Ok(None));
    assert_eq!(template.get_id(), Some(&None));
    assert_eq!(template.fragment(), Some(&1));
    assert_eq!(template.define_once_with(Some((2, Some("late".to_string())))), Ok(None));
    assert_eq!(template.define_once_with(None), Ok(None));
    assert_eq!(template.get_id(), Some(&None));
    assert_eq!(template.fragment(), Some(&1));
    let mut named: TemplateSingleton<u8> = TemplateSingleton::new();
    assert_eq!(
        named.define_once_with(Some((3, Some("first".to_string())))),
        Ok(Some("first".to_string()))
    );
    assert_eq!(
        named.define_once_with(Some((4, Some("second".to_string())))),
        Ok(Some("first".to_string()))
    );
    assert_eq!(named.get_id(), Some(&Some("first".to_string())));
    assert_eq!(named.fragment(), Some(&3));
}

#[test]
fn a_template_type_gets_the_name_of_its_cell() {
    assert_eq!(template_element("MyTemplate").guard_name, "MY_TEMPLATE_ONCE");
}
