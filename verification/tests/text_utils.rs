use dx::text::{chars_of, chain, find, i64_to_string, join, str_contains, u64_to_string};
use dx::utils::list_options;

#[test]
fn decimal_numerals() {
    assert_eq!(u64_to_string(0), "0");
    assert_eq!(u64_to_string(9), "9");
    assert_eq!(u64_to_string(10), "10");
    assert_eq!(u64_to_string(1767312000), "1767312000");
    assert_eq!(u64_to_string(u64::MAX), "18446744073709551615");
    assert_eq!(i64_to_string(0), "0");
    assert_eq!(i64_to_string(-1), "-1");
    assert_eq!(i64_to_string(-86400), "-86400");
    assert_eq!(i64_to_string(i64::MAX), "9223372036854775807");
    assert_eq!(i64_to_string(i64::MIN), "-9223372036854775808");
    for n in [-1000i64, -999, -10, -9, 5, 99, 100, 101, 123456789] {
        assert_eq!(i64_to_string(n), n.to_string());
    }
}

#[test]
fn substring_search() {
    assert!(str_contains("abc", ""));
    assert!(str_contains("", ""));
    assert!(!str_contains("", "a"));
    assert!(str_contains("abc", "abc"));
    assert!(str_contains("abc", "bc"));
    assert!(str_contains("aab", "ab"));
    assert!(!str_contains("abc", "abcd"));
    assert!(!str_contains("abc", "ac"));
    assert!(str_contains("é%zü", "%z"));
    assert!(!str_contains("é%Zü", "%z"));
    assert_eq!(chars_of("aé"), vec!['a', 'é']);
    assert!(find(&vec!['x', 'y'], &vec!['y']));
    assert!(!find(&vec!['x', 'y'], &vec!['y', 'x']));
}

#[test]
fn joining() {
    assert_eq!(chain("a", "b"), "ab");
    assert_eq!(join(&vec![], ", "), "");
    assert_eq!(join(&vec!["a".to_string()], ", "), "a");
    assert_eq!(join(&vec!["a".to_string(), "".to_string(), "c".to_string()], ", "), "a, , c");
}

#[test]
fn options_are_listed_with_numbers() {
    assert_eq!(
        list_options(vec!["first".to_string(), "second".to_string()]),
        "------------------------\nAvailable options:\n1 - first\n2 - second\n------------------------"
    );
    assert_eq!(
        list_options(vec![]),
        "------------------------\nAvailable options:\n------------------------"
    );
    let many: Vec<String> = (0..12).map(|i| format!("o{i}")).collect();
    let text = list_options(many);
    assert!(text.contains("\n10 - o9\n11 - o10\n12 - o11\n"));
}
