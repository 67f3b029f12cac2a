use ddlogs::text::trim;

#[test]
fn trim_takes_whitespace_off_both_ends() {
    assert_eq!(trim("  a b \n"), "a b");
    assert_eq!(trim("\t\r\nkey"), "key");
    assert_eq!(trim("key\u{2028}\u{85}"), "key");
}

#[test]
fn trim_keeps_clean_text() {
    assert_eq!(trim("a"), "a");
    assert_eq!(trim("a  b"), "a  b");
    assert_eq!(trim(""), "");
    assert_eq!(trim("\u{200b}x\u{200b}"), "\u{200b}x\u{200b}");
}

#[test]
fn trim_of_whitespace_is_empty() {
    assert_eq!(trim(" "), "");
    assert_eq!(trim(" \t\n\u{a0}\u{3000}"), "");
}

#[test]
fn trim_twice_is_trim_once() {
    for text in ["  x  ", "x", "", " \n ", "\u{1680}a b\u{205f}"] {
        assert_eq!(trim(trim(text)), trim(text));
    }
}
