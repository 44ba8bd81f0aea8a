//! Text helpers: the case conversions that names are derived with, and the
//! searches over names that the rest of the crate is built on.

use vstd::prelude::*;
use vstd::string::*;

verus! {

/// What `inflector::cases::kebabcase::to_kebab_case` returns for a text.
pub uninterp spec fn kebab_case_of(text: Seq<char>) -> Seq<char>;

/// What `inflector::cases::snakecase::to_snake_case` returns for a text.
pub uninterp spec fn snake_case_of(text: Seq<char>) -> Seq<char>;

/// What `str::to_lowercase` returns for a text.
pub uninterp spec fn lowercase_of(text: Seq<char>) -> Seq<char>;

/// What `str::to_uppercase` returns for a text.
pub uninterp spec fn uppercase_of(text: Seq<char>) -> Seq<char>;

/// Calls `inflector::cases::kebabcase::to_kebab_case`. The conversion reads
/// nothing but the characters of its argument, so its result is named by
/// `kebab_case_of`; nothing else is claimed of it.
#[verifier::external_body]
pub(crate) fn kebab_case(text: &str) -> (out: String)
    ensures
        out@ == kebab_case_of(text@),
{
    inflector::cases::kebabcase::to_kebab_case(text)
}

/// Calls `inflector::cases::snakecase::to_snake_case`. The conversion reads
/// nothing but the characters of its argument, so its result is named by
/// `snake_case_of`; nothing else is claimed of it.
#[verifier::external_body]
pub(crate) fn snake_case(text: &str) -> (out: String)
    ensures
        out@ == snake_case_of(text@),
{
    inflector::cases::snakecase::to_snake_case(text)
}

/// Calls `str::to_lowercase`, which maps the characters by the Unicode
/// tables that the standard library carries; its result is named by
/// `lowercase_of`.
#[verifier::external_body]
pub(crate) fn lowercase(text: &str) -> (out: String)
    ensures
        out@ == lowercase_of(text@),
{
    text.to_lowercase()
}

/// Calls `str::to_uppercase`, which maps the characters by the Unicode
/// tables that the standard library carries; its result is named by
/// `uppercase_of`.
#[verifier::external_body]
pub(crate) fn uppercase(text: &str) -> (out: String)
    ensures
        out@ == uppercase_of(text@),
{
    text.to_uppercase()
}

/// The separator that every custom element name must hold.
pub const SEPARATOR: char = '-';

/// A custom element name is valid when it holds the separator (and is
/// therefore not empty).
pub open spec fn valid_element_name(name: Seq<char>) -> bool {
    name.len() > 0 && name.contains(SEPARATOR)
}

/// An optional text as the sequence of its characters, if there is one.
pub open spec fn text_of(value: Option<String>) -> Option<Seq<char>> {
    match value {
        Some(text) => Some(text@),
        None => None,
    }
}

/// The names of a list, each as the sequence of its characters.
pub open spec fn names_of(names: Seq<String>) -> Seq<Seq<char>> {
    names.map_values(|name: String| name@)
}

/// The list without its repetitions: of equal names the first one stays, and
/// the names that stay keep their order.
pub open spec fn distinct(names: Seq<Seq<char>>) -> Seq<Seq<char>>
    decreases names.len(),
{
    if names.len() == 0 {
        Seq::empty()
    } else {
        let front = distinct(names.drop_last());
        if front.contains(names.last()) {
            front
        } else {
            front.push(names.last())
        }
    }
}

/// `distinct` holds every name of the list, no other, and none twice.
pub proof fn lemma_distinct(names: Seq<Seq<char>>)
    ensures
        distinct(names).no_duplicates(),
        distinct(names).len() <= names.len(),
        forall|name: Seq<char>| distinct(names).contains(name) <==> names.contains(name),
    decreases names.len(),
{
    if names.len() > 0 {
        let init = names.drop_last();
        let last = names.last();
        lemma_distinct(init);
        let front = distinct(init);
        assert forall|name: Seq<char>| distinct(names).contains(name) <==> names.contains(
            name,
        ) by {
            if names.contains(name) {
                let i = choose|i: int| 0 <= i < names.len() && names[i] == name;
                if i < init.len() {
                    assert(init[i] == name);
                    assert(init.contains(name));
                    lemma_contains_after_push(front, last, name);
                } else {
                    assert(name == last);
                    if !front.contains(last) {
                        assert(front.push(last)[front.len() as int] == last);
                    }
                }
            }
            if distinct(names).contains(name) {
                if front.contains(name) {
                    assert(init.contains(name));
                    let i = choose|i: int| 0 <= i < init.len() && init[i] == name;
                    assert(names[i] == name);
                } else {
                    let i = choose|i: int|
                        0 <= i < distinct(names).len() && distinct(names)[i] == name;
                    assert(distinct(names) == front.push(last));
                    if i < front.len() {
                        assert(front[i] == name);
                    }
                    assert(name == last);
                    assert(names[names.len() - 1] == name);
                }
            }
        }
    }
}

/// A list that has no repetitions is its own `distinct`.
pub proof fn lemma_distinct_of_distinct(names: Seq<Seq<char>>)
    requires
        names.no_duplicates(),
    ensures
        distinct(names) == names,
    decreases names.len(),
{
    if names.len() > 0 {
        let init = names.drop_last();
        assert forall|i: int, j: int| 0 <= i < init.len() && 0 <= j < init.len() && i != j implies init[i]
            != init[j] by {
            assert(init[i] == names[i] && init[j] == names[j]);
        }
        lemma_distinct_of_distinct(init);
        if init.contains(names.last()) {
            let i = choose|i: int| 0 <= i < init.len() && init[i] == names.last();
            assert(names[i] == names[names.len() - 1]);
        }
        assert(init.push(names.last()) =~= names);
    }
}

proof fn lemma_contains_after_push(list: Seq<Seq<char>>, added: Seq<char>, name: Seq<char>)
    requires
        list.contains(name),
    ensures
        list.push(added).contains(name),
{
    let i = choose|i: int| 0 <= i < list.len() && list[i] == name;
    assert(list.push(added)[i] == name);
}

/// Whether the text holds the character.
pub fn contains_char(text: &str, wanted: char) -> (found: bool)
    ensures
        found == text@.contains(wanted),
{
    let length = text.unicode_len();
    let mut at: usize = 0;
    while at < length
        invariant
            length == text@.len(),
            at <= length,
            forall|i: int| 0 <= i < at ==> text@[i] != wanted,
        decreases length - at,
    {
        if text.get_char(at) == wanted {
            return true;
        }
        at += 1;
    }
    false
}

/// Whether the text can name a custom element.
pub fn is_valid_element_name(name: &str) -> (valid: bool)
    ensures
        valid == valid_element_name(name@),
{
    contains_char(name, SEPARATOR)
}

/// Whether two texts hold the same characters.
pub fn same_text(left: &str, right: &str) -> (same: bool)
    ensures
        same == (left@ == right@),
{
    let length = left.unicode_len();
    if right.unicode_len() != length {
        return false;
    }
    let mut at: usize = 0;
    while at < length
        invariant
            length == left@.len(),
            length == right@.len(),
            at <= length,
            forall|i: int| 0 <= i < at ==> left@[i] == right@[i],
        decreases length - at,
    {
        if left.get_char(at) != right.get_char(at) {
            return false;
        }
        at += 1;
    }
    assert(left@ =~= right@);
    true
}

/// The place of the first name of the list that equals `wanted`, if there is
/// one.
pub fn position_of(names: &Vec<String>, wanted: &str) -> (found: Option<usize>)
    ensures
        match found {
            Some(at) => {
                &&& at < names.len()
                &&& names[at as int]@ == wanted@
                &&& forall|i: int| 0 <= i < at ==> names[i]@ != wanted@
            },
            None => !names_of(names@).contains(wanted@),
        },
{
    let mut at: usize = 0;
    while at < names.len()
        invariant
            at <= names.len(),
            forall|i: int| 0 <= i < at ==> names[i]@ != wanted@,
        decreases names.len() - at,
    {
        if same_text(names[at].as_str(), wanted) {
            return Some(at);
        }
        at += 1;
    }
    assert forall|i: int| 0 <= i < names_of(names@).len() implies names_of(names@)[i]
        != wanted@ by {
        assert(names_of(names@)[i] == names[i]@);
    }
    None
}

/// Whether the list holds the name.
pub fn contains_name(names: &Vec<String>, wanted: &str) -> (found: bool)
    ensures
        found == names_of(names@).contains(wanted@),
{
    match position_of(names, wanted) {
        Some(at) => {
            assert(names_of(names@)[at as int] == wanted@);
            true
        },
        None => false,
    }
}

/// Copies the list without its repetitions.
pub fn distinct_names(names: &Vec<String>) -> (kept: Vec<String>)
    ensures
        names_of(kept@) == distinct(names_of(names@)),
{
    let mut kept: Vec<String> = Vec::new();
    let mut at: usize = 0;
    assert(names_of(names@).take(0) =~= Seq::<Seq<char>>::empty());
    assert(names_of(kept@) =~= Seq::<Seq<char>>::empty());
    while at < names.len()
        invariant
            at <= names.len(),
            names_of(kept@) == distinct(names_of(names@).take(at as int)),
        decreases names.len() - at,
    {
        let ghost seen = names_of(names@).take(at as int);
        let ghost next = names_of(names@).take(at + 1);
        assert(next.drop_last() =~= seen);
        assert(next.last() == names[at as int]@);
        if !contains_name(&kept, names[at].as_str()) {
            let ghost before = names_of(kept@);
            kept.push(names[at].clone());
            assert(names_of(kept@) =~= before.push(names[at as int]@));
        }
        at += 1;
    }
    assert(names_of(names@).take(at as int) =~= names_of(names@));
    kept
}

} // verus!
