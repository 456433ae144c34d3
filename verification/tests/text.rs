//! Operations on text, and the order of texts.

use mini_chat_llm::order::{check_text_le, sort_texts};
use mini_chat_llm::text::{
    decimal, join, parse_u64, starts_with, str_eq, take_chars, trim, truncate_for_log,
};

#[test]
fn white_space_is_what_std_takes_for_it() {
    for code in 0..=0x10ffff_u32 {
        if let Some(c) = char::from_u32(code) {
            let text = c.to_string();
            assert_eq!(trim(&text).is_empty(), c.is_whitespace(), "{code:x}");
        }
    }
    for text in ["", " ", " a ", "a b", "\u{3000}é\t\n", "x\u{200b}"] {
        assert_eq!(trim(text), text.trim());
    }
}

#[test]
fn texts_compare_as_std_compares_them() {
    let samples = ["", "a", "b", "ab", "B", "é", "z", "\u{ffff}", "\u{10000}", "a\u{0}", "request-id=1"];
    for a in samples {
        for b in samples {
            assert_eq!(str_eq(a, b), a == b);
            assert_eq!(check_text_le(a, b), a <= b);
            assert_eq!(starts_with(a, b), a.starts_with(b));
        }
    }
    let mut expected: Vec<String> = samples.iter().map(|s| (*s).to_owned()).collect();
    expected.push("b".to_owned());
    let sorted = sort_texts(expected.clone());
    expected.sort();
    assert_eq!(sorted, expected);
}

#[test]
fn truncation_counts_characters() {
    assert_eq!(truncate_for_log("héllo", 5), "héllo");
    assert_eq!(truncate_for_log("héllo", 2), "hé…[truncated]");
    assert_eq!(truncate_for_log("", 0), "");
    assert_eq!(truncate_for_log("x", 0), "…[truncated]");
    assert_eq!(take_chars("héllo", 3), "hél");
    assert_eq!(take_chars("hé", 3), "hé");
}

#[test]
fn numbers_are_written_and_read() {
    for n in [0, 7, 10, 99, 100, 200, 404, 65535_u16] {
        assert_eq!(decimal(n), n.to_string());
        assert_eq!(parse_u64(&n.to_string()), Some(u64::from(n)));
    }
    for text in ["", "+", "-0", "00012", "1_0", "١", "1844674407370955161500"] {
        assert_eq!(parse_u64(text), text.parse::<u64>().ok());
    }
}

#[test]
fn joined_texts() {
    let parts = |items: &[&str]| items.iter().map(|s| (*s).to_owned()).collect::<Vec<String>>();
    assert_eq!(join(&parts(&[]), "+"), "");
    assert_eq!(join(&parts(&["a"]), "+"), "a");
    assert_eq!(join(&parts(&["a", "", "b"]), "+"), "a++b");
}
