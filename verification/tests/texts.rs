use gho::text::{find_char, is_whitespace, matches_at, owned, str_eq, trim, trim_end_matches};

#[test]
fn str_eq_compares_characters() {
    assert!(str_eq("", ""));
    assert!(str_eq("abc", "abc"));
    assert!(!str_eq("abc", "abd"));
    assert!(!str_eq("abc", "ab"));
    assert!(!str_eq("ab", "abc"));
    assert!(str_eq("héllo", "héllo"));
    assert!(!str_eq("héllo", "hello"));
    assert!(!str_eq("é", "e\u{301}"));
}

#[test]
fn owned_copies() {
    assert_eq!(owned("héllo"), "héllo");
    assert_eq!(owned(""), "");
}

#[test]
fn find_char_counts_characters() {
    assert_eq!(find_char("a/b", '/', 0), 1);
    assert_eq!(find_char("a/b/c", '/', 2), 3);
    assert_eq!(find_char("abc", '/', 0), 3);
    assert_eq!(find_char("abc", 'a', 3), 3);
    assert_eq!(find_char("", '/', 0), 0);
    assert_eq!(find_char("éé/", '/', 0), 2);
}

#[test]
fn matches_at_looks_for_a_prefix_at_a_place() {
    assert!(matches_at("hello", 0, "he"));
    assert!(matches_at("hello", 3, "lo"));
    assert!(matches_at("hello", 5, ""));
    assert!(!matches_at("hello", 4, "lo"));
    assert!(!matches_at("hello", 0, "hello!"));
    assert!(!matches_at("hello", 1, "he"));
}

#[test]
fn trim_end_matches_as_std_does() {
    for s in ["", "a", ".git", "x.git", "x.git.git", "x.gitx", "git", ".gi", "x.git.gi", "é.git"] {
        assert_eq!(trim_end_matches(s, ".git"), s.trim_end_matches(".git"));
    }
    assert_eq!(trim_end_matches("aaa", "a"), "");
    assert_eq!(trim_end_matches("baaa", "aa"), "ba");
}

#[test]
fn whitespace_is_what_std_says() {
    let mut u: u32 = 0;
    while u <= 0x10ffff {
        if let Some(c) = char::from_u32(u) {
            assert_eq!(is_whitespace(c), c.is_whitespace(), "U+{:04X}", u);
        }
        u += 1;
    }
}

#[test]
fn trim_as_std_does() {
    for s in
        ["", " ", "a", " a", "a ", "  a b  ", "\t\na\r\n", "\u{a0}x\u{3000}", " \u{2003} ", "é "]
    {
        assert_eq!(trim(s), s.trim());
    }
}

#[test]
fn trim_end_matches_with_an_empty_suffix_takes_nothing_off() {
    for s in ["", "a", "x.git", " "] {
        assert_eq!(trim_end_matches(s, ""), s);
        assert_eq!(trim_end_matches(s, ""), s.trim_end_matches(""));
    }
}
