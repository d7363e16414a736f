use nixos_toolkit::strset::{dedup, list_contains, position, set_contains, set_insert, set_remove};
use nixos_toolkit::text::{
    all_hostname_chars, char_is_whitespace, chars_of, clone_strings, i64_to_string,
    join_strings, lines_of, occurs_at_vec, owned, parse_unsigned_bounded, push_str, split_by,
    split_whitespace, str_contains, str_eq, str_lt, str_starts_with, string_of_chars, trim_str,
    u64_to_string,
};

fn strings(items: &[&str]) -> Vec<String> {
    items.iter().map(|s| s.to_string()).collect()
}

#[test]
fn chars_and_substrings() {
    let v = chars_of("héllo");
    assert_eq!(v, vec!['h', 'é', 'l', 'l', 'o']);
    assert_eq!(string_of_chars(&v, 1, 4), "éll");
    assert_eq!(string_of_chars(&v, 2, 2), "");
    let mut s = owned("ab");
    push_str(&mut s, "cd");
    assert_eq!(s, "abcd");
}

#[test]
fn equality_and_order_of_strings() {
    assert!(str_eq("abc", "abc"));
    assert!(!str_eq("abc", "abd"));
    assert!(str_lt("abc", "abd"));
    assert!(str_lt("ab", "abc"));
    assert!(!str_lt("abc", "abc"));
    assert!(!str_lt("b", "abc"));
    assert!(str_lt("Z", "a"));
}

#[test]
fn whitespace_and_trimming() {
    assert!(char_is_whitespace(' '));
    assert!(char_is_whitespace('\t'));
    assert!(char_is_whitespace('\n'));
    assert!(char_is_whitespace('\u{3000}'));
    assert!(!char_is_whitespace('x'));
    assert_eq!(trim_str("  hello world \n"), "hello world");
    assert_eq!(trim_str("\t\r\n"), "");
    assert_eq!(trim_str("plain"), "plain");
    assert_eq!(trim_str(""), "");
}

#[test]
fn searching_in_strings() {
    assert!(str_contains("nixos-toolkit rules", "toolkit"));
    assert!(str_contains("abc", ""));
    assert!(!str_contains("abc", "abcd"));
    assert!(!str_contains("Error", "error"));
    assert!(str_starts_with("VERSION_ID=24.05", "VERSION_ID="));
    assert!(!str_starts_with("ID=nixos", "VERSION_ID="));
    assert!(str_starts_with("x", ""));
    let hay = chars_of("abcabc");
    let needle = chars_of("ca");
    assert!(occurs_at_vec(&hay, &needle, 2));
    assert!(!occurs_at_vec(&hay, &needle, 1));
}

#[test]
fn splitting_like_std() {
    assert_eq!(split_by("a,b,,c", ','), strings(&["a", "b", "", "c"]));
    assert_eq!(split_by("", ','), strings(&[""]));
    assert_eq!(split_by("abc", ','), strings(&["abc"]));
    assert_eq!(split_whitespace("  one  two\tthree\n"), strings(&["one", "two", "three"]));
    assert_eq!(split_whitespace("   "), Vec::<String>::new());
    assert_eq!(lines_of("a\nb\r\nc"), strings(&["a", "b", "c"]));
    assert_eq!(lines_of("a\n"), strings(&["a"]));
    assert_eq!(lines_of(""), Vec::<String>::new());
    assert_eq!(lines_of("\n\nx"), strings(&["", "", "x"]));
    for s in ["a,b,,c", "", ",", "x,"] {
        let expected: Vec<String> = s.split(',').map(|p| p.to_string()).collect();
        assert_eq!(split_by(s, ','), expected);
    }
    for s in ["a\nb\r\nc", "", "\n", "x\r\n\r\ny\n"] {
        let expected: Vec<String> = s.lines().map(|p| p.to_string()).collect();
        assert_eq!(lines_of(s), expected);
    }
}

#[test]
fn joining() {
    assert_eq!(join_strings(&strings(&["a", "b", "c"]), ", "), "a, b, c");
    assert_eq!(join_strings(&strings(&["only"]), ", "), "only");
    assert_eq!(join_strings(&Vec::new(), ", "), "");
    assert_eq!(clone_strings(&strings(&["x", "y"])), strings(&["x", "y"]));
}

#[test]
fn parsing_unsigned_numbers() {
    assert_eq!(parse_unsigned_bounded("42", 65535), Some(42));
    assert_eq!(parse_unsigned_bounded("+7", 65535), Some(7));
    assert_eq!(parse_unsigned_bounded("007", 65535), Some(7));
    assert_eq!(parse_unsigned_bounded("65535", 65535), Some(65535));
    assert_eq!(parse_unsigned_bounded("65536", 65535), None);
    assert_eq!(parse_unsigned_bounded("", 65535), None);
    assert_eq!(parse_unsigned_bounded("+", 65535), None);
    assert_eq!(parse_unsigned_bounded("-1", 65535), None);
    assert_eq!(parse_unsigned_bounded("1a", 65535), None);
    assert_eq!(parse_unsigned_bounded(" 1", 65535), None);
    assert_eq!(parse_unsigned_bounded("99999999999999999999999", u64::MAX), None);
    for s in ["0", "+12", "4294967295", "4294967296", "", "x", "-0"] {
        assert_eq!(parse_unsigned_bounded(s, u32::MAX as u64), s.parse::<u32>().ok().map(|n| n as u64));
    }
}

#[test]
fn decimal_text_of_numbers() {
    assert_eq!(u64_to_string(0), "0");
    assert_eq!(u64_to_string(1234), "1234");
    assert_eq!(u64_to_string(u64::MAX), u64::MAX.to_string());
    assert_eq!(i64_to_string(-1), "-1");
    assert_eq!(i64_to_string(0), "0");
    assert_eq!(i64_to_string(i64::MIN), i64::MIN.to_string());
    assert_eq!(i64_to_string(i64::MAX), i64::MAX.to_string());
}

#[test]
fn hostname_characters() {
    assert!(all_hostname_chars("my-host01"));
    assert!(all_hostname_chars(""));
    assert!(all_hostname_chars("höst"));
    assert!(!all_hostname_chars("my_host"));
    assert!(!all_hostname_chars("my host"));
    assert!(!all_hostname_chars("a.b"));
}

#[test]
fn string_sets() {
    let mut v = strings(&["a", "b"]);
    assert_eq!(position(&v, "b"), Some(1));
    assert_eq!(position(&v, "z"), None);
    assert!(list_contains(&v, "a"));
    assert!(set_contains(&v, "b"));
    set_insert(&mut v, "b");
    assert_eq!(v, strings(&["a", "b"]));
    set_insert(&mut v, "c");
    assert_eq!(v.len(), 3);
    assert!(set_contains(&v, "c"));
    set_remove(&mut v, "a");
    assert!(!set_contains(&v, "a"));
    assert_eq!(v.len(), 2);
    set_remove(&mut v, "zzz");
    assert_eq!(v.len(), 2);
    assert_eq!(dedup(&strings(&["x", "y", "x", "z", "y"])), strings(&["x", "y", "z"]));
}
