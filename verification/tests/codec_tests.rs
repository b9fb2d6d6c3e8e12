use eth::codec::{decode_list, sort_strings_ci};

fn strings(items: &[&str]) -> Vec<String> {
    items.iter().map(|s| s.to_string()).collect()
}

#[test]
fn decode_space_list() {
    let r = decode_list("(foo bar baz)", ' ').unwrap();
    assert_eq!(r, strings(&["foo", "bar", "baz"]));
}

#[test]
fn decode_empty_list() {
    let r = decode_list("()", ' ').unwrap();
    assert_eq!(r, Vec::<String>::new());
}

#[test]
fn decode_single_token() {
    let r = decode_list("(a)", ' ').unwrap();
    assert_eq!(r, strings(&["a"]));
}

#[test]
fn decode_semicolon_list() {
    let r = decode_list("(a;b c;d)", ';').unwrap();
    assert_eq!(r, strings(&["a", "b c", "d"]));
}

#[test]
fn decode_keeps_empty_tokens_between_separators() {
    let r = decode_list("(a  b)", ' ').unwrap();
    assert_eq!(r, strings(&["a", "", "b"]));
}

#[test]
fn decode_lone_separator() {
    let r = decode_list("( )", ' ').unwrap();
    assert_eq!(r, strings(&["", ""]));
}

#[test]
fn decode_too_short_fails() {
    assert!(decode_list("", ' ').is_none());
    assert!(decode_list(")", ' ').is_none());
}

#[test]
fn sort_is_case_insensitive() {
    let r = sort_strings_ci(strings(&["delta", "Alpha", "charlie", "Bravo"]));
    assert_eq!(r, strings(&["Alpha", "Bravo", "charlie", "delta"]));
}

#[test]
fn sort_is_stable_on_equal_keys() {
    let r = sort_strings_ci(strings(&["b", "A", "a", "B"]));
    assert_eq!(r, strings(&["A", "a", "b", "B"]));
}

#[test]
fn sort_empty_and_singleton() {
    assert_eq!(sort_strings_ci(Vec::new()), Vec::<String>::new());
    assert_eq!(sort_strings_ci(strings(&["x"])), strings(&["x"]));
}

#[test]
fn sort_non_letters_by_code_point() {
    let r = sort_strings_ci(strings(&["b2", "a10", "a2"]));
    assert_eq!(r, strings(&["a10", "a2", "b2"]));
}
