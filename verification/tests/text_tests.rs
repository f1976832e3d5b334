use quiz_engine::text::{find_char, trim_str, trim_substring};

#[test]
fn trim_removes_surrounding_whitespace() {
    assert_eq!(trim_str("  a b\t\r\n"), "a b");
    assert_eq!(trim_str("plain"), "plain");
    assert_eq!(trim_str("   \t  "), "");
    assert_eq!(trim_str(""), "");
}

#[test]
fn trim_keeps_inner_whitespace() {
    assert_eq!(trim_str(" one  two "), "one  two");
}

#[test]
fn trim_substring_works_on_a_region() {
    let s = "xx  mid  yy";
    assert_eq!(trim_substring(s, 2, 9), "mid");
}

#[test]
fn find_char_first_occurrence() {
    assert_eq!(find_char("a:b:c", ':', 0), 1);
    assert_eq!(find_char("a:b:c", ':', 2), 3);
    // A missing character yields the length.
    assert_eq!(find_char("abc", ':', 0), 3);
}

#[test]
fn find_char_counts_characters_not_bytes() {
    // Two-byte characters before the colon: positions are in characters.
    assert_eq!(find_char("дом: x", ':', 0), 3);
}
