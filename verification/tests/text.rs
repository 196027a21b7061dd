use lo_wasm::text::{append_decimal, is_char, is_char_pair, join_texts, split_text};

#[test]
fn decimal_is_written_as_the_formatter_writes_it() {
    let numbers = [
        0,
        1,
        9,
        10,
        11,
        99,
        100,
        101,
        1000,
        65535,
        4294967295,
        4294967296,
        9007199254740993,
        u64::MAX - 1,
        u64::MAX,
    ];
    for n in numbers {
        let mut text = String::from("n=");
        append_decimal(&mut text, n);
        assert_eq!(text, format!("n={}", n));
    }
    let mut text = String::new();
    append_decimal(&mut text, 1203);
    assert_eq!(text, "1203");
}

#[test]
fn split_cuts_at_every_separator() {
    assert_eq!(split_text("a/b/c", '/'), vec!["a", "b", "c"]);
    assert_eq!(split_text("", '/'), vec![""]);
    assert_eq!(split_text("/", '/'), vec!["", ""]);
    assert_eq!(split_text("abc", '/'), vec!["abc"]);
    assert_eq!(split_text("/a//b/", '/'), vec!["", "a", "", "b", ""]);
    assert_eq!(split_text("\u{fc}/\u{e9}\u{e9}", '/'), vec!["\u{fc}", "\u{e9}\u{e9}"]);
    assert_eq!(split_text("a,b", ','), vec!["a", "b"]);
    let samples = ["", "/", "//", "a", "a/", "/a", "a/b", "../x/./y", "\u{1f600}/z"];
    for sample in samples {
        let expected: Vec<&str> = sample.split('/').collect();
        assert_eq!(split_text(sample, '/'), expected);
    }
}

#[test]
fn join_puts_the_separator_between_pieces() {
    assert_eq!(join_texts(&vec![], "/"), "");
    assert_eq!(join_texts(&vec!["a"], "/"), "a");
    assert_eq!(join_texts(&vec![""], "/"), "");
    assert_eq!(join_texts(&vec!["", ""], "/"), "/");
    assert_eq!(join_texts(&vec!["a", "b", "c"], "/"), "a/b/c");
    assert_eq!(join_texts(&vec!["a", "b"], ", "), "a, b");
    assert_eq!(join_texts(&vec!["a", "", "b"], ""), "ab");
}

#[test]
fn join_undoes_split() {
    let samples = ["", "/", "a//b", "/x/y/", "\u{e9}/\u{fc}", "no separator"];
    for sample in samples {
        assert_eq!(join_texts(&split_text(sample, '/'), "/"), sample);
    }
}

#[test]
fn single_and_double_characters_are_recognised() {
    assert!(is_char(".", '.'));
    assert!(!is_char("", '.'));
    assert!(!is_char("..", '.'));
    assert!(!is_char("a", '.'));
    assert!(is_char("\u{e9}", '\u{e9}'));
    assert!(is_char_pair("..", '.'));
    assert!(!is_char_pair(".", '.'));
    assert!(!is_char_pair("...", '.'));
    assert!(!is_char_pair(".a", '.'));
    assert!(!is_char_pair("a.", '.'));
}
