use gallery_scraper::text::{contains_sub, push_decimal, replace_slashes, strip_spaces};

#[test]
fn contains_finds_inner_substring() {
    assert!(contains_sub("hello world", "lo w"));
    assert!(contains_sub("hello", "hello"));
    assert!(contains_sub("hello", "h"));
    assert!(contains_sub("hello", "o"));
}

#[test]
fn contains_rejects_missing_substring() {
    assert!(!contains_sub("hello", "world"));
    assert!(!contains_sub("abc", "abcd"));
    assert!(!contains_sub("", "a"));
}

#[test]
fn contains_empty_needle_always_holds() {
    assert!(contains_sub("", ""));
    assert!(contains_sub("abc", ""));
}

#[test]
fn replace_slashes_dashes_every_slash() {
    assert_eq!(replace_slashes("https://a/b/c.png"), "https:--a-b-c.png");
    assert_eq!(replace_slashes("no-slash"), "no-slash");
    assert_eq!(replace_slashes(""), "");
    assert_eq!(replace_slashes("///"), "---");
}

#[test]
fn strip_spaces_removes_only_spaces() {
    assert_eq!(strip_spaces(" a b  c "), "abc");
    assert_eq!(strip_spaces("abc"), "abc");
    assert_eq!(strip_spaces("   "), "");
    assert_eq!(strip_spaces("a\tb"), "a\tb");
}

#[test]
fn push_decimal_renders_digits() {
    let mut s = String::from("pid=");
    push_decimal(&mut s, 0);
    assert_eq!(s, "pid=0");
    let mut t = String::new();
    push_decimal(&mut t, 4200);
    assert_eq!(t, "4200");
    let mut u = String::new();
    push_decimal(&mut u, 105);
    assert_eq!(u, "105");
}
