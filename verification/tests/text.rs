use cups_rs::text::{eq_ignore_ascii_case, nul_position, trim_trailing_dots, trim_white_space};

#[test]
fn trimming_follows_unicode_white_space() {
    assert_eq!(trim_white_space("  a b \t"), "a b");
    assert_eq!(trim_white_space("\u{3000}x\u{2028}"), "x");
    assert_eq!(trim_white_space("\u{200b}x"), "\u{200b}x");
    assert_eq!(trim_white_space(" \n "), "");
    assert_eq!(" \u{85}é\u{a0} ".trim(), trim_white_space(" \u{85}é\u{a0} "));
}

#[test]
fn trailing_dots_and_zero_bytes() {
    assert_eq!(trim_trailing_dots("a.b.."), "a.b");
    assert_eq!(trim_trailing_dots(".a"), ".a");
    assert_eq!(nul_position("é\0"), Some(2));
    assert_eq!(nul_position("abc"), None);
    assert!(eq_ignore_ascii_case("Printer-URI", "printer-uri"));
    assert!(eq_ignore_ascii_case("é", "é"));
    assert!(!eq_ignore_ascii_case("É", "é"));
    assert!(!eq_ignore_ascii_case("a[", "A{"));
    assert!(!eq_ignore_ascii_case("é", "e"));
}
