use build_target::text::{is_space_char, same_text, split, trim};

fn owned(parts: &[&str]) -> Vec<String> {
    parts.iter().map(|p| p.to_string()).collect()
}

#[test]
fn split_cuts_at_every_dash() {
    assert_eq!(split("x86_64-apple-darwin", "-"), owned(&["x86_64", "apple", "darwin"]));
    assert_eq!(split("a-b-c-d", "-"), owned(&["a", "b", "c", "d"]));
    assert_eq!(split("abc", "-"), owned(&["abc"]));
    assert_eq!(split("", "-"), owned(&[""]));
    assert_eq!(split("-", "-"), owned(&["", ""]));
    assert_eq!(split("-a--b-", "-"), owned(&["", "a", "", "b", ""]));
}

#[test]
fn split_takes_occurrences_from_the_left_without_overlap() {
    assert_eq!(split("a&&&b", "&&"), owned(&["a", "&b"]));
    assert_eq!(split("a&&&&b", "&&"), owned(&["a", "", "b"]));
    assert_eq!(split("a&b", "&&"), owned(&["a&b"]));
    assert_eq!(split("&&", "&&"), owned(&["", ""]));
    assert_eq!(split("a&", "&&"), owned(&["a&"]));
    assert_eq!(split("aaa", "aa"), owned(&["", "a"]));
}

#[test]
fn split_on_nothing_cuts_nowhere() {
    assert_eq!(split("abc", ""), owned(&["abc"]));
    assert_eq!(split("", ""), owned(&[""]));
}

#[test]
fn split_counts_characters_not_bytes() {
    assert_eq!(split("é-ü-ß", "-"), owned(&["é", "ü", "ß"]));
    assert_eq!(split("日本→語→", "→"), owned(&["日本", "語", ""]));
}

#[test]
fn split_agrees_with_std_on_non_empty_separators() {
    let inputs = ["", "a", "-", "--", "a-b", "a--b", "-a-", "x&&y && z", "&&&", "&&&&&", "ab&&"];
    let seps = ["-", "&&", "a", "&", "&&&"];
    for s in inputs {
        for sep in seps {
            let expected: Vec<String> = s.split(sep).map(|p| p.to_string()).collect();
            assert_eq!(split(s, sep), expected, "{:?} by {:?}", s, sep);
        }
    }
}

#[test]
fn trim_removes_white_space_at_both_ends_only() {
    assert_eq!(trim("  a b  "), "a b");
    assert_eq!(trim("a b"), "a b");
    assert_eq!(trim("\t\n a\r\n"), "a");
    assert_eq!(trim(""), "");
    assert_eq!(trim("   "), "");
    assert_eq!(trim(" \u{a0}\u{3000}x\u{2003}\u{85}"), "x");
    assert_eq!(trim("\u{200b}x "), "\u{200b}x");
}

#[test]
fn white_space_is_what_std_calls_white_space() {
    let mut c: u32 = 0;
    while c < 0x11000 {
        if let Some(ch) = char::from_u32(c) {
            assert_eq!(is_space_char(ch), ch.is_whitespace(), "U+{:04X}", c);
        }
        c += 1;
    }
}

#[test]
fn trim_agrees_with_std() {
    for s in ["", " ", "a", " a", "a ", " a b ", "\u{2028}é \u{1680}", "\n\n", " x\u{feff} "] {
        assert_eq!(trim(s), s.trim(), "{:?}", s);
    }
}

#[test]
fn same_text_compares_characters() {
    assert!(same_text("", ""));
    assert!(same_text("darwin", "darwin"));
    assert!(!same_text("darwin", "Darwin"));
    assert!(!same_text("darwin", "darwin "));
    assert!(!same_text("a", ""));
}
