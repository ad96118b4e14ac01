//! Reading and building text.
use armature_azure::names::{NameMap, NameSet};
use armature_azure::text::{
    decimal_text, is_white_space, is_word, same_text, split, split_once, starts_with,
    text_after_separator, text_before, trim, trim_end_slashes, truncate_at_char_boundary,
};

#[test]
fn white_space_is_that_of_unicode() {
    for n in 0..=0x10ffffu32 {
        if let Some(c) = char::from_u32(n) {
            assert_eq!(is_white_space(c), c.is_whitespace(), "{n:x}");
        }
    }
}

#[test]
fn texts_are_trimmed_and_split() {
    for text in ["", " ", "a", " a ", "\u{3000}a b\t", "a//", "///", "a;b;;c", ";"] {
        assert_eq!(trim(text), text.trim());
        assert_eq!(trim_end_slashes(text), text.trim_end_matches('/'));
        assert_eq!(split(text, ';'), text.split(';').collect::<Vec<&str>>());
        assert_eq!(split_once(text, ';'), text.split_once(';'));
        assert_eq!(text_before(text, ';'), text.split(';').next().unwrap());
    }
    assert_eq!(text_after_separator("a://b://c"), "c");
    assert_eq!(text_after_separator("a:/b"), "a:/b");
    assert_eq!(text_after_separator("a://"), "");
    assert!(is_word("EndPoint", "endpoint"));
    assert!(!is_word("endpoint", "EndPoint"));
    assert!(!is_word("ENDPOİNT", "endpoint"));
    assert!(starts_with("abc", "ab") && starts_with("", "") && !starts_with("a", "ab"));
    assert!(same_text("ü", "ü") && !same_text("a", "b") && !same_text("a", "ab"));
}

#[test]
fn numbers_are_written_in_decimal() {
    for n in [0u64, 7, 10, 99, 100, 1_700_003_600, u64::MAX] {
        assert_eq!(decimal_text(n), n.to_string());
    }
}

#[test]
fn truncation_keeps_what_fits() {
    let cut = |text: &str, limit: usize| {
        let mut text = text.to_string();
        truncate_at_char_boundary(&mut text, limit);
        text
    };
    assert_eq!(cut("abc", 3), "abc");
    assert_eq!(cut("abc", 2), "ab");
    assert_eq!(cut("abc", 0), "");
    assert_eq!(cut("a€b", 3), "a");
    assert_eq!(cut("a€b", 4), "a€");
    assert_eq!(cut("ü𝄞x", 5), "ü");
    assert_eq!(cut("ü𝄞x", 6), "ü𝄞");
    assert_eq!(cut("", 5), "");
    assert_eq!(cut(&cut("a€b", 3), 3), "a");
    for text in ["", "abc", "a€b", "ü𝄞x", "€€"] {
        for first in 0..8 {
            for second in 0..8 {
                assert_eq!(cut(&cut(text, first), second), cut(text, first.min(second)));
            }
        }
    }
}

#[test]
fn names_are_kept_once() {
    let set = NameSet::new().with("b").with("a").with("b");
    assert_eq!(set.len(), 2);
    assert_eq!((set.name_at(0), set.name_at(1)), ("b", "a"));
    assert!(set.contains("a") && !set.contains("c"));
    assert_eq!(set.clone().len(), 2);
    let map = NameMap::new().with("b", 1u8).with("a", 2).with("b", 3);
    assert_eq!(map.len(), 2);
    assert_eq!(map.get("b"), Some(&3));
    assert_eq!((map.name_at(0), *map.value_at(0)), ("b", 3));
    assert_eq!(map.get("c"), None);
    assert_eq!(map.clone().get("a"), Some(&2));
}
