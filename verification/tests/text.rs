use cloudflare_ddns::text::{same_address, trim};

#[test]
fn trim_removes_whitespace_at_both_ends() {
    assert_eq!(trim("  1.2.3.4\t"), "1.2.3.4");
    assert_eq!(trim("\r\n1.2.3.4\r\n"), "1.2.3.4");
}

#[test]
fn trim_keeps_text_without_surrounding_whitespace() {
    assert_eq!(trim("1.2.3.4"), "1.2.3.4");
}

#[test]
fn trim_keeps_inner_whitespace() {
    assert_eq!(trim(" a b  c "), "a b  c");
}

#[test]
fn trim_of_empty_text_is_empty() {
    assert_eq!(trim(""), "");
}

#[test]
fn trim_of_whitespace_alone_is_empty() {
    assert_eq!(trim(" \t\r\n"), "");
}

#[test]
fn trim_knows_unicode_whitespace() {
    assert_eq!(trim("\u{a0}\u{2003}x\u{3000}\u{85}"), "x");
}

#[test]
fn trim_leaves_non_whitespace_controls() {
    assert_eq!(trim("\u{0}x\u{200b}"), "\u{0}x\u{200b}");
}

#[test]
fn trim_counts_characters_not_bytes() {
    assert_eq!(trim(" \u{e9}t\u{e9} "), "\u{e9}t\u{e9}");
}

#[test]
fn trim_agrees_with_std() {
    let samples = [
        "",
        " ",
        "a",
        " a",
        "a ",
        "\n\n1.2.3.4\n",
        "\u{1680}2001:db8::1\u{2028}",
        "  \u{feff}x ",
    ];
    for sample in samples {
        assert_eq!(trim(sample), sample.trim());
    }
}

#[test]
fn newline_behind_address_is_ignored() {
    assert!(same_address("1.2.3.4\n", "1.2.3.4"));
}

#[test]
fn whitespace_round_either_text_is_ignored() {
    assert!(same_address(" 1.2.3.4", "1.2.3.4\t "));
    assert!(same_address("", "  "));
}

#[test]
fn addresses_are_compared_as_text() {
    assert!(!same_address("1.2.3.0", "1.2.3.00"));
    assert!(!same_address("2001:DB8::1", "2001:db8::1"));
    assert!(!same_address("1.2.3.4", "1.2.3.5"));
}

#[test]
fn inner_whitespace_tells_texts_apart() {
    assert!(!same_address("1.2.3.4", "1.2. 3.4"));
}
