use cpp_bridge::text::{
    decimal_string, digit_str, join_from, join_strings, push_hex8, push_word, push_words, sanitize,
};

fn strings(parts: &[&str]) -> Vec<String> {
    parts.iter().map(|s| s.to_string()).collect()
}

#[test]
fn join_of_nothing_is_empty() {
    assert_eq!(join_strings(&Vec::new(), "::"), "");
}

#[test]
fn join_of_one_is_that_one() {
    assert_eq!(join_strings(&strings(&["a"]), "::"), "a");
}

#[test]
fn join_puts_separator_between() {
    assert_eq!(join_strings(&strings(&["a", "b", "c"]), "::"), "a::b::c");
    assert_eq!(join_strings(&strings(&["a", "", "c"]), "_"), "a__c");
    assert_eq!(join_strings(&strings(&["", ""]), "_"), "_");
}

#[test]
fn join_from_skips_the_first_entries() {
    let parts = strings(&["a", "b", "c"]);
    assert_eq!(join_from(&parts, 0, "::"), "a::b::c");
    assert_eq!(join_from(&parts, 1, "::"), "b::c");
    assert_eq!(join_from(&parts, 2, "::"), "c");
    assert_eq!(join_from(&parts, 3, "::"), "");
}

#[test]
fn digits_are_hexadecimal() {
    let expected = "0123456789abcdef";
    for d in 0..16u8 {
        assert_eq!(digit_str(d), &expected[d as usize..d as usize + 1]);
    }
}

#[test]
fn decimal_of_numbers() {
    assert_eq!(decimal_string(0), "0");
    assert_eq!(decimal_string(7), "7");
    assert_eq!(decimal_string(10), "10");
    assert_eq!(decimal_string(1234567890), "1234567890");
    assert_eq!(decimal_string(u64::MAX), "18446744073709551615");
}

#[test]
fn decimal_agrees_with_the_standard_library() {
    for n in 0..2000u64 {
        assert_eq!(decimal_string(n), n.to_string());
    }
}

#[test]
fn sanitize_keeps_letters_and_digits() {
    assert_eq!(sanitize("new"), "new");
    assert_eq!(sanitize("aZ09"), "aZ09");
    assert_eq!(sanitize(""), "");
}

#[test]
fn sanitize_escapes_ascii_punctuation() {
    assert_eq!(sanitize("+"), "_2b");
    assert_eq!(sanitize("<<="), "_3c_3c_3d");
    assert_eq!(sanitize("new[]"), "new_5b_5d");
    assert_eq!(sanitize("a_b"), "a_5fb");
    assert_eq!(sanitize(" "), "_20");
    assert_eq!(sanitize("\u{0}"), "_00");
    assert_eq!(sanitize("\u{7f}"), "_7f");
}

#[test]
fn sanitize_escapes_other_characters_with_six_digits() {
    assert_eq!(sanitize("\u{80}"), "_u000080");
    assert_eq!(sanitize("\u{e9}"), "_u0000e9");
    assert_eq!(sanitize("\u{20ac}"), "_u0020ac");
    assert_eq!(sanitize("\u{10ffff}"), "_u10ffff");
    assert_eq!(sanitize("a\u{e9}b"), "a_u0000e9b");
}

#[test]
fn sanitize_tells_texts_apart() {
    let texts = ["", "a", "_", "_2b", "+", "2b", "u", "\u{2b}\u{2b}", "_u00002b", "\u{e9}"];
    for i in 0..texts.len() {
        for j in 0..texts.len() {
            assert_eq!(sanitize(texts[i]) == sanitize(texts[j]), texts[i] == texts[j]);
        }
    }
}

#[test]
fn word_is_sanitized_and_closed() {
    let mut text = "x".to_string();
    push_word(&mut text, "a+b");
    assert_eq!(text, "xa_2bb__");
    push_word(&mut text, "");
    assert_eq!(text, "xa_2bb____");
}

#[test]
fn words_are_closed_by_an_end_mark() {
    let mut text = String::new();
    push_words(&mut text, &strings(&["std", "c_int"]));
    assert_eq!(text, "std__c_5fint___E");
    let mut empty = "x".to_string();
    push_words(&mut empty, &Vec::new());
    assert_eq!(empty, "x_E");
}

#[test]
fn words_tell_lists_apart() {
    let lists = [
        strings(&[]),
        strings(&[""]),
        strings(&["", ""]),
        strings(&["a"]),
        strings(&["a", ""]),
        strings(&["", "a"]),
        strings(&["a", "b"]),
        strings(&["ab"]),
        strings(&["a__b"]),
        strings(&["a_", "b"]),
        strings(&["_E"]),
        strings(&["E"]),
    ];
    for i in 0..lists.len() {
        for j in 0..lists.len() {
            let mut a = String::new();
            let mut b = String::new();
            push_words(&mut a, &lists[i]);
            push_words(&mut b, &lists[j]);
            assert_eq!(a == b, i == j);
        }
    }
}

#[test]
fn hex8_has_eight_digits() {
    let mut text = String::new();
    push_hex8(&mut text, 0);
    assert_eq!(text, "00000000");
    push_hex8(&mut text, 0x1a2b3c4d);
    assert_eq!(text, "000000001a2b3c4d");
    let mut max = String::new();
    push_hex8(&mut max, u32::MAX);
    assert_eq!(max, "ffffffff");
    let mut some = String::new();
    push_hex8(&mut some, 4096);
    assert_eq!(some, format!("{:08x}", 4096));
}
