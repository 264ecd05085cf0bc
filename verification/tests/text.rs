use all_new_db_talks::text::{
    chars_of, is_space_char, matches_at, push_chars, push_joined, remove_all_chars, string_of,
    strip_trailing_chars, trim_chars,
};

fn cs(s: &str) -> Vec<char> {
    s.chars().collect()
}

fn st(v: Vec<char>) -> String {
    v.into_iter().collect()
}

#[test]
fn chars_and_strings_convert_both_ways() {
    for s in ["", "abc", "Zo\u{eb} \u{1f600}\n"] {
        assert_eq!(chars_of(s), cs(s));
        assert_eq!(string_of(&cs(s)), s);
    }
    let mut out = "x".to_string();
    push_chars(&mut out, &cs("yz"));
    assert_eq!(out, "xyz");
}

#[test]
fn white_space_is_unicode_white_space() {
    for u in 0u32..0x11000 {
        if let Some(c) = char::from_u32(u) {
            assert_eq!(is_space_char(c), c.is_whitespace(), "for U+{:04X}", u);
        }
    }
}

#[test]
fn trim_agrees_with_std() {
    for s in ["", " ", "a", " a ", "\t\n a b \r\n", "\u{2003}x\u{3000}", "  \u{feff}x "] {
        assert_eq!(st(trim_chars(&cs(s))), s.trim());
    }
}

#[test]
fn strip_trailing_agrees_with_std() {
    for s in ["", "/", "///", "a/", "a//b//", "/a"] {
        assert_eq!(st(strip_trailing_chars(&cs(s), '/')), s.trim_end_matches('/'));
    }
}

#[test]
fn remove_all_agrees_with_std_replace() {
    let cases = [
        ("", "a"),
        ("aaa", "a"),
        ("aaaa", "aa"),
        ("aaaaa", "aa"),
        ("aabb", "ab"),
        ("abcabc", "bc"),
        ("abc", "abcd"),
        ("xabababy", "aba"),
        ("abc", ""),
        ("`````sql`", "```sql"),
    ];
    for (s, p) in cases {
        assert_eq!(st(remove_all_chars(&cs(s), &cs(p))), s.replace(p, ""), "{:?} without {:?}", s, p);
    }
}

#[test]
fn matches_at_checks_bounds() {
    let v = cs("hello");
    assert!(matches_at(&v, &cs("he"), 0));
    assert!(matches_at(&v, &cs("lo"), 3));
    assert!(matches_at(&v, &cs(""), 5));
    assert!(!matches_at(&v, &cs(""), 6));
    assert!(!matches_at(&v, &cs("lo"), 4));
    assert!(!matches_at(&v, &cs("hello!"), 0));
    assert!(!matches_at(&v, &cs("x"), usize::MAX));
}

#[test]
fn parts_are_joined_with_the_separator() {
    let mut out = String::from(">");
    push_joined(&mut out, &vec!["a".to_string(), "".to_string(), "c".to_string()], " | ");
    assert_eq!(out, ">a |  | c");
    let mut out = String::new();
    push_joined(&mut out, &Vec::new(), ",");
    assert_eq!(out, "");
    push_joined(&mut out, &vec!["one".to_string()], ",");
    assert_eq!(out, "one");
}
