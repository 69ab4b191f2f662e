use ide_bridge::text::chars_of;
use ide_bridge::text::clone_strings;
use ide_bridge::text::join;
use ide_bridge::text::join3;
use ide_bridge::text::decimal_string;
use ide_bridge::text::find_char;
use ide_bridge::text::range_eq;
use ide_bridge::text::str_eq;
use ide_bridge::text::string_of;

#[test]
fn decimal_is_what_to_string_writes() {
    for n in [0u64, 1, 9, 10, 11, 99, 100, 101, 45000, 65535, 4294967295, u64::MAX] {
        assert_eq!(decimal_string(n), n.to_string());
    }
}

#[test]
fn str_eq_compares_characters() {
    assert!(str_eq("", ""));
    assert!(str_eq("abc", "abc"));
    assert!(!str_eq("abc", "abd"));
    assert!(!str_eq("abc", "ab"));
    assert!(str_eq("é😀", "é😀"));
    assert!(!str_eq("é", "e"));
}

#[test]
fn concat_joins() {
    assert_eq!(join("ab", "cd"), "abcd");
    assert_eq!(join("", ""), "");
    assert_eq!(join3("a", "é", "c"), "aéc");
}

#[test]
fn chars_and_back() {
    let chars = chars_of("aé😀");
    assert_eq!(chars, vec!['a', 'é', '😀']);
    assert_eq!(string_of(&chars, 0, 3), "aé😀");
    assert_eq!(string_of(&chars, 1, 2), "é");
    assert_eq!(string_of(&chars, 2, 2), "");
}

#[test]
fn finding_and_comparing_ranges() {
    let chars = chars_of("ab,cd,");
    assert_eq!(find_char(&chars, 0, ','), 2);
    assert_eq!(find_char(&chars, 2, ','), 2);
    assert_eq!(find_char(&chars, 3, ','), 5);
    assert_eq!(find_char(&chars, 6, ','), 6);
    assert_eq!(find_char(&chars, 0, 'x'), 6);
    assert!(range_eq(&chars, 3, 5, &chars_of("cd")));
    assert!(!range_eq(&chars, 3, 5, &chars_of("ce")));
    assert!(!range_eq(&chars, 3, 5, &chars_of("c")));
    assert!(range_eq(&chars, 1, 1, &chars_of("")));
}

#[test]
fn cloned_strings_are_equal() {
    let v = vec!["a".to_string(), "".to_string(), "é".to_string()];
    assert_eq!(clone_strings(&v), v);
}
