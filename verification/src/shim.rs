//! The source of the host-side class that forwards the host's callbacks to
//! the native component.

use crate::definition::{ComponentDefinition, DefinitionView};
use crate::text::names_of;
use vstd::prelude::*;
use vstd::string::*;

verus! {

/// Opens the declaration of the host-side class.
pub const CLASS_KEYWORD: &'static str =
    "class ";

/// Stands between the name of the class and the class that it extends.
pub const EXTENDS_KEYWORD: &'static str =
    " extends ";

/// The constructor, which makes the native state, runs its `init` handlers and
/// listens for the observed events on the shadow root where there is one and on
/// the element where there is none, and the callbacks of connection, up to the
/// value of the observed attributes.
pub const CONSTRUCTOR_AND_CONNECTION: &'static str =
    " {\n    constructor() {\n        super();\n        this._impl = impl();\n        this._impl.init_impl(this);\n        var self = this;\n        if (self.shadowRoot) {\n            for (const t of this.observedEvents()) {\n                self.shadowRoot.addEventListener(t, function(evt) { self.handleComponentEvent(evt); } );\n            }\n        } else {\n            for (const t of self.observedEvents()) {\n                self.addEventListener(t, function(evt) { self.handleComponentEvent(evt); } );\n            }\n        }\n    }\n\n    connectedCallback() {\n        this._impl.connected_impl(this);\n    }\n    \n    disconnectedCallback() {\n        this._impl.disconnected_impl(this);\n    }\n\n    static get observedAttributes() {\n        return ";

/// Closes the accessor of the observed attributes and opens that of the
/// observed events.
pub const OBSERVED_EVENTS_ACCESSOR: &'static str =
    ";\n    }\n\n    observedEvents() {\n        return ";

/// The callbacks of adoption, of attribute changes and of events, the end of
/// the class, and the start of its registration.
pub const REMAINING_CALLBACKS: &'static str =
    ";\n    }\n\n    adoptedCallback() {\n        this._impl.adopted_impl(this);\n    }\n    \n    attributeChangedCallback(name, oldValue, newValue) {\n        this._impl.attribute_changed_impl(this, name, oldValue, newValue);\n    }\n\n    handleComponentEvent(evt) {\n        this._impl.handle_component_event_impl(this, evt);\n    }\n}\ncustomElements.define(";

/// Stands between the tag and the class in the registration.
pub const BETWEEN_TAG_AND_CLASS: &'static str =
    ", ";

/// Ends the registration and starts the lookup of the constructor.
pub const LOOKUP_OF_CONSTRUCTOR: &'static str =
    ");\nvar element = customElements.get(";

/// Ends the lookup and returns the constructor.
pub const RETURN_OF_CONSTRUCTOR: &'static str =
    ");\nreturn element;";

/// The name under which the source receives the factory of the native state.
pub const FACTORY_PARAMETER: &'static str = "impl";

/// How one character stands inside a quoted text of the host's language:
/// the quote, the backslash and the two line breaks are escaped, every other
/// character stands for itself.
pub open spec fn escaped_char(c: char) -> Seq<char> {
    if c == '"' {
        seq!['\\', '"']
    } else if c == '\\' {
        seq!['\\', '\\']
    } else if c == '\n' {
        seq!['\\', 'n']
    } else if c == '\r' {
        seq!['\\', 'r']
    } else {
        seq![c]
    }
}

/// The characters of a text, each as `escaped_char` writes it.
pub open spec fn escaped(text: Seq<char>) -> Seq<char>
    decreases text.len(),
{
    if text.len() == 0 {
        Seq::empty()
    } else {
        escaped(text.drop_last()) + escaped_char(text.last())
    }
}

/// A text as a quoted text of the host's language.
pub open spec fn quoted(text: Seq<char>) -> Seq<char> {
    seq!['"'] + escaped(text) + seq!['"']
}

/// The quoted names of a list, with a comma and a space between two of them.
pub open spec fn listed(names: Seq<Seq<char>>) -> Seq<char>
    decreases names.len(),
{
    if names.len() == 0 {
        Seq::empty()
    } else if names.len() == 1 {
        quoted(names[0])
    } else {
        listed(names.drop_last()) + seq![',', ' '] + quoted(names.last())
    }
}

/// A list of names as an array of the host's language.
pub open spec fn array_of(names: Seq<Seq<char>>) -> Seq<char> {
    seq!['['] + listed(names) + seq![']']
}

/// The source of the host-side class of a definition, followed by its
/// registration under the element name and the lookup of the constructor that
/// the host has made of it.
pub open spec fn shim_source_of(definition: DefinitionView) -> Seq<char> {
    CLASS_KEYWORD@ + definition.class_name + EXTENDS_KEYWORD@ + definition.base_class
        + CONSTRUCTOR_AND_CONNECTION@ + array_of(definition.observed_attributes)
        + OBSERVED_EVENTS_ACCESSOR@ + array_of(definition.observed_events) + REMAINING_CALLBACKS@
        + quoted(definition.element_name) + BETWEEN_TAG_AND_CLASS@ + definition.class_name
        + LOOKUP_OF_CONSTRUCTOR@ + quoted(definition.element_name) + RETURN_OF_CONSTRUCTOR@
}

/// Appends a text to a source, escaped.
fn append_escaped(source: &mut String, text: &str)
    ensures
        final(source)@ == old(source)@ + escaped(text@),
{
    let length = text.unicode_len();
    let mut at: usize = 0;
    assert(text@.take(0) =~= Seq::<char>::empty());
    assert(source@ =~= old(source)@ + escaped(text@.take(0)));
    while at < length
        invariant
            length == text@.len(),
            at <= length,
            source@ == old(source)@ + escaped(text@.take(at as int)),
        decreases length - at,
    {
        let c = text.get_char(at);
        let ghost before = source@;
        assert(text@.take(at + 1).drop_last() =~= text@.take(at as int));
        assert(text@.take(at + 1).last() == c);
        if c == '"' {
            proof {
                reveal_strlit("\\\"");
            }
            source.append("\\\"");
            assert(source@ =~= before + escaped_char(c));
        } else if c == '\\' {
            proof {
                reveal_strlit("\\\\");
            }
            source.append("\\\\");
            assert(source@ =~= before + escaped_char(c));
        } else if c == '\n' {
            proof {
                reveal_strlit("\\n");
            }
            source.append("\\n");
            assert(source@ =~= before + escaped_char(c));
        } else if c == '\r' {
            proof {
                reveal_strlit("\\r");
            }
            source.append("\\r");
            assert(source@ =~= before + escaped_char(c));
        } else {
            source.append(text.substring_char(at, at + 1));
            assert(text@.subrange(at as int, at + 1) =~= seq![c]);
            assert(source@ =~= before + escaped_char(c));
        }
        assert(source@ =~= old(source)@ + escaped(text@.take(at + 1)));
        at += 1;
    }
    assert(text@.take(at as int) =~= text@);
}

/// Appends a text to a source, quoted.
fn append_quoted(source: &mut String, text: &str)
    ensures
        final(source)@ == old(source)@ + quoted(text@),
{
    proof {
        reveal_strlit("\"");
    }
    source.append("\"");
    append_escaped(source, text);
    source.append("\"");
    assert(source@ =~= old(source)@ + quoted(text@));
}

/// Appends a list of names to a source, as an array.
fn append_array(source: &mut String, names: &Vec<String>)
    ensures
        final(source)@ == old(source)@ + array_of(names_of(names@)),
{
    proof {
        reveal_strlit("[");
        reveal_strlit("]");
    }
    let ghost all = names_of(names@);
    source.append("[");
    let ghost opened = source@;
    let mut at: usize = 0;
    assert(all.take(0) =~= Seq::<Seq<char>>::empty());
    assert(source@ =~= opened + listed(all.take(0)));
    while at < names.len()
        invariant
            at <= names.len(),
            all == names_of(names@),
            source@ == opened + listed(all.take(at as int)),
        decreases names.len() - at,
    {
        let ghost before = source@;
        assert(all.take(at + 1).drop_last() =~= all.take(at as int));
        assert(all.take(at + 1).last() == names[at as int]@);
        if at > 0 {
            proof {
                reveal_strlit(", ");
            }
            source.append(", ");
            assert(all.take(at + 1).len() == at + 1);
            assert(listed(all.take(at + 1)) == listed(all.take(at as int)) + seq![',', ' ']
                + quoted(names[at as int]@));
        } else {
            assert(all.take(1).len() == 1);
            assert(all.take(1)[0] == names[0]@);
            assert(listed(all.take(0)) =~= Seq::<char>::empty());
            assert(listed(all.take(1)) == quoted(names[0]@));
        }
        let ghost separated = source@;
        assert(separated =~= before + if at > 0 {
            seq![',', ' ']
        } else {
            Seq::<char>::empty()
        });
        append_quoted(source, names[at].as_str());
        assert(source@ == separated + quoted(names[at as int]@));
        assert(source@ =~= opened + listed(all.take(at + 1)));
        at += 1;
    }
    assert(all.take(at as int) =~= all);
    source.append("]");
    assert(source@ =~= old(source)@ + array_of(all));
}

/// A text as a quoted text of the host's language.
pub fn quote(text: &str) -> (source: String)
    ensures
        source@ == quoted(text@),
{
    let mut source = String::new();
    append_quoted(&mut source, text);
    assert(source@ =~= quoted(text@));
    source
}

/// A list of names as an array of the host's language.
pub fn array(names: &Vec<String>) -> (source: String)
    ensures
        source@ == array_of(names_of(names@)),
{
    let mut source = String::new();
    append_array(&mut source, names);
    assert(source@ =~= array_of(names_of(names@)));
    source
}

/// Writes the source of the host-side class of a definition.
pub fn shim_source(definition: &ComponentDefinition) -> (source: String)
    ensures
        source@ == shim_source_of(definition@),
{
    let mut source = String::from_str(CLASS_KEYWORD);
    source.append(definition.class_name());
    source.append(EXTENDS_KEYWORD);
    source.append(definition.base_class());
    source.append(CONSTRUCTOR_AND_CONNECTION);
    append_array(&mut source, definition.observed_attributes());
    source.append(OBSERVED_EVENTS_ACCESSOR);
    append_array(&mut source, definition.observed_events());
    source.append(REMAINING_CALLBACKS);
    append_quoted(&mut source, definition.element_name());
    source.append(BETWEEN_TAG_AND_CLASS);
    source.append(definition.class_name());
    source.append(LOOKUP_OF_CONSTRUCTOR);
    append_quoted(&mut source, definition.element_name());
    source.append(RETURN_OF_CONSTRUCTOR);
    source
}

} // verus!
