use gtogl::text::{
    chars_of, i64_to_decimal, join_strs, join_with_slash, replace_all, str_ends_with, trim_trailing_slash,
    u64_to_decimal,
};

#[test]
fn chars_round_trip() {
    let v = chars_of("héllo");
    assert_eq!(v, vec!['h', 'é', 'l', 'l', 'o']);
    assert!(chars_of("").is_empty());
}

#[test]
fn concatenation_and_join() {
    assert_eq!(join_strs("mig-", "12"), "mig-12");
    assert_eq!(join_with_slash("a", "b"), "a/b");
    assert_eq!(join_strs("", "yz"), "yz");
}

#[test]
fn ends_with_suffix() {
    assert!(str_ends_with("main.tf", ".tf"));
    assert!(!str_ends_with("tf", ".tf"));
    assert!(str_ends_with("anything", ""));
}

#[test]
fn trim_removes_one_trailing_slash() {
    assert_eq!(trim_trailing_slash("https://gitlab.example.com/"), "https://gitlab.example.com");
    assert_eq!(trim_trailing_slash("https://gitlab.example.com"), "https://gitlab.example.com");
    assert_eq!(trim_trailing_slash("https://gitlab.example.com//"), "https://gitlab.example.com/");
    assert_eq!(trim_trailing_slash(""), "");
    assert_eq!(trim_trailing_slash("/"), "");
    assert_eq!(trim_trailing_slash("https://gé/"), "https://gé");
}

#[test]
fn decimal_formatting() {
    assert_eq!(u64_to_decimal(0), "0");
    assert_eq!(u64_to_decimal(7), "7");
    assert_eq!(u64_to_decimal(42), "42");
    assert_eq!(u64_to_decimal(u64::MAX), u64::MAX.to_string());
    assert_eq!(i64_to_decimal(1690000000123), "1690000000123");
    assert_eq!(i64_to_decimal(-5), "-5");
    assert_eq!(i64_to_decimal(i64::MIN), i64::MIN.to_string());
    assert_eq!(i64_to_decimal(i64::MAX), i64::MAX.to_string());
}

#[test]
fn replace_matches_std_replace() {
    let cases = [
        ("source = \"git::https://old/a\"", "git::https://old/a", "git::https://new/a"),
        ("aaaa", "aa", "b"),
        ("aaa", "aa", "aab"),
        ("abab", "ab", ""),
        ("no match here", "xyz", "q"),
        ("", "x", "y"),
        ("ünï ünï", "ünï", "u"),
    ];
    for (s, from, to) in cases {
        assert_eq!(replace_all(s, from, to), s.replace(from, to));
    }
}

#[test]
fn replace_absent_pattern_leaves_text() {
    assert_eq!(replace_all("module \"x\" {}", "git::", "git::y"), "module \"x\" {}");
}

#[test]
fn replace_by_itself_leaves_text() {
    assert_eq!(replace_all("git::a git::a", "git::a", "git::a"), "git::a git::a");
}
