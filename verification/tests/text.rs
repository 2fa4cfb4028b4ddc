use wasefire_tools::text::{contains, decimal_string, join, replace_char, signed_decimal_string};

fn words(words: &[&str]) -> Vec<String> {
    words.iter().map(|x| x.to_string()).collect()
}

#[test]
fn numbers_are_written_in_decimal() {
    for n in [0u128, 1, 9, 10, 99, 100, 16384, u64::MAX as u128, u128::MAX] {
        assert_eq!(decimal_string(n), format!("{n}"));
    }
}

#[test]
fn signed_numbers_are_written_in_decimal() {
    for n in [0isize, 7, -1, -10, isize::MAX, isize::MIN] {
        assert_eq!(signed_decimal_string(n), format!("{n}"));
    }
}

#[test]
fn characters_are_replaced() {
    assert_eq!(replace_char("my-cool-applet", '-', '_'), "my_cool_applet");
    assert_eq!(replace_char("--", '-', '_'), "__");
    assert_eq!(replace_char("caf\u{e9}-x", '-', '_'), "caf\u{e9}_x");
    assert_eq!(replace_char("", '-', '_'), "");
}

#[test]
fn words_are_joined() {
    assert_eq!(join(&words(&[]), " "), "");
    assert_eq!(join(&words(&["a"]), " "), "a");
    assert_eq!(join(&words(&["a", "", "c"]), ", "), "a, , c");
}

#[test]
fn words_are_found() {
    let list = words(&["default", "wasm"]);
    assert!(contains(&list, "wasm"));
    assert!(!contains(&list, "was"));
    assert!(!contains(&words(&[]), ""));
}
