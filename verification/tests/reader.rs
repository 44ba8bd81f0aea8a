use wasm_web_component::reader::read_names;
use wasm_web_component::shim::array;

fn strings(values: &[&str]) -> Vec<String> {
    values.iter().map(|value| value.to_string()).collect()
}

#[test]
fn an_array_of_quoted_names_is_read() {
    assert_eq!(read_names("[]"), Some(Vec::new()));
    assert_eq!(read_names("['class']"), Some(strings(&["class"])));
    assert_eq!(read_names("['attr1', 'attr2']"), Some(strings(&["attr1", "attr2"])));
    assert_eq!(read_names("[\"click\",\"change\"]"), Some(strings(&["click", "change"])));
    assert_eq!(read_names("['a', \"b\", 'c']"), Some(strings(&["a", "b", "c"])));
}

#[test]
fn white_space_and_a_last_comma_are_passed_over() {
    assert_eq!(read_names("  [ ]\n"), Some(Vec::new()));
    assert_eq!(read_names("\t[\n  'a' ,\r\n  'b',\n]\n"), Some(strings(&["a", "b"])));
    assert_eq!(read_names("['a',]"), Some(strings(&["a"])));
}

#[test]
fn a_name_holds_every_character_between_its_quotes() {
    assert_eq!(read_names("['']"), Some(strings(&[""])));
    assert_eq!(read_names("[' a, b ']"), Some(strings(&[" a, b "])));
    assert_eq!(read_names("['say \"hi\"']"), Some(strings(&["say \"hi\""])));
    assert_eq!(read_names("[\"it's\"]"), Some(strings(&["it's"])));
    assert_eq!(read_names("['[x]']"), Some(strings(&["[x]"])));
    assert_eq!(read_names("['é', 'ß']"), Some(strings(&["é", "ß"])));
    assert_eq!(read_names("['a', 'a']"), Some(strings(&["a", "a"])));
}

#[test]
fn what_is_no_array_of_quoted_names_is_refused() {
    assert_eq!(read_names(""), None);
    assert_eq!(read_names("   "), None);
    assert_eq!(read_names("["), None);
    assert_eq!(read_names("]"), None);
    assert_eq!(read_names("['a'"), None);
    assert_eq!(read_names("['a"), None);
    assert_eq!(read_names("'a']"), None);
    assert_eq!(read_names("[a]"), None);
    assert_eq!(read_names("[1, 2]"), None);
    assert_eq!(read_names("['a' 'b']"), None);
    assert_eq!(read_names("['a',, 'b']"), None);
    assert_eq!(read_names("[,]"), None);
    assert_eq!(read_names("[,'a']"), None);
    assert_eq!(read_names("['a']]"), None);
    assert_eq!(read_names("['a'] ['b']"), None);
    assert_eq!(read_names("[['a']]"), None);
    assert_eq!(read_names("['a\\'b']"), None);
    assert_eq!(read_names("['a\\\\']"), None);
    assert_eq!(read_names("['a'].concat(others)"), None);
    assert_eq!(read_names("x['a']"), None);
}

#[test]
fn what_the_shim_writes_is_read_back() {
    for names in [strings(&[]), strings(&["class"]), strings(&["a", "b c", "it's", "é"])] {
        assert_eq!(read_names(&array(&names)), Some(names));
    }
    assert_eq!(read_names(&array(&strings(&["a\"b"]))), None);
}
