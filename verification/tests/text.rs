use corerunner::path::join;
use corerunner::text::{chars_of, is_whitespace, precedes_or_equals, split_whitespace};

#[test]
fn whitespace_is_the_unicode_property() {
    for code in 0u32..=0x3100 {
        if let Some(c) = char::from_u32(code) {
            assert_eq!(is_whitespace(c), c.is_whitespace(), "U+{:04X}", code);
        }
    }
    assert!(is_whitespace(' '));
    assert!(is_whitespace('\t'));
    assert!(is_whitespace('\n'));
    assert!(is_whitespace('\u{3000}'));
    assert!(!is_whitespace('a'));
    assert!(!is_whitespace('\u{200b}'));
    assert!(!is_whitespace('\u{10ffff}'));
}

#[test]
fn chars_of_lists_every_character() {
    assert_eq!(chars_of(""), Vec::<char>::new());
    assert_eq!(chars_of("aé\u{1F600}z"), vec!['a', 'é', '\u{1F600}', 'z']);
}

#[test]
fn split_whitespace_yields_the_words() {
    assert_eq!(split_whitespace(""), Vec::<String>::new());
    assert_eq!(split_whitespace(" \t\n "), Vec::<String>::new());
    assert_eq!(split_whitespace("one"), vec!["one"]);
    assert_eq!(split_whitespace("  a  bb\tccc\n"), vec!["a", "bb", "ccc"]);
    assert_eq!(split_whitespace("é\u{a0}ü"), vec!["é", "ü"]);
}

#[test]
fn split_whitespace_matches_std() {
    for text in ["-a -b", "x", "  lead", "trail  ", "a\u{2003}b\u{85}c", "\"quoted arg\" next"] {
        let expected: Vec<String> = text.split_whitespace().map(|w| w.to_string()).collect();
        assert_eq!(split_whitespace(text), expected);
    }
}

#[test]
fn text_order_is_the_order_of_strings() {
    let samples = ["", "a", "A", "ab", "abc", "b", "GE-Proton9-10", "GE-Proton9-2", "é", "z", "\u{1F600}"];
    for a in samples {
        for b in samples {
            assert_eq!(precedes_or_equals(a, b), a <= b, "{:?} <= {:?}", a, b);
        }
    }
}

#[test]
fn join_puts_a_separator_where_one_is_needed() {
    assert_eq!(join("/home/u", ".steam"), "/home/u/.steam");
    assert_eq!(join("/home/u/", ".steam"), "/home/u/.steam");
    assert_eq!(join("", "rel"), "rel");
    assert_eq!(join("/home/u", ""), "/home/u/");
    assert_eq!(join("/", "x"), "/x");
}

#[test]
fn join_lets_a_rooted_part_stand_alone() {
    assert_eq!(join("/home/u", "/etc"), "/etc");
    assert_eq!(join("", "/"), "/");
}

#[test]
fn join_matches_std_paths() {
    for base in ["", "/", "/a", "/a/", "a/b", "relative"] {
        for part in ["", "x", "x/y", "/abs", ".config", "proton"] {
            let expected = std::path::PathBuf::from(base).join(part);
            assert_eq!(join(base, part), expected.to_string_lossy(), "{:?} + {:?}", base, part);
        }
    }
}
