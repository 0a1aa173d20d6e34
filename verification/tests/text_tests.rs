use record_browser::text::{find_char, str_eq, trim_str};

#[test]
fn trim_removes_surrounding_whitespace_only() {
    assert_eq!(trim_str("  two words \t"), "two words");
    assert_eq!(trim_str("\r\n"), "");
    assert_eq!(trim_str(""), "");
    assert_eq!(trim_str("plain"), "plain");
}

#[test]
fn find_char_reports_the_first_occurrence() {
    assert_eq!(find_char("key=a=b", '='), Some(3));
    assert_eq!(find_char("no separator", '='), None);
    assert_eq!(find_char("=lead", '='), Some(0));
}

#[test]
fn str_eq_compares_contents() {
    assert!(str_eq("host", "host"));
    assert!(!str_eq("host", "user"));
    assert!(!str_eq("host", "hos"));
    assert!(str_eq("", ""));
}
