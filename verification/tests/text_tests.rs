use vfio_motion::text::{chars_of, find_char_in, str_contains, str_eq, str_matches_lowercase};

#[test]
fn contains_finds_substrings() {
    assert!(str_contains("<source dev='/dev/input/event5'/>", "/dev/input/event5"));
    assert!(str_contains("abc", ""));
    assert!(str_contains("abc", "abc"));
    assert!(!str_contains("abc", "abcd"));
    assert!(!str_contains("<devices/>", "/dev/input/event5"));
    assert!(str_contains("aaab", "aab"));
}

#[test]
fn eq_compares_contents() {
    assert!(str_eq("gpu", "gpu"));
    assert!(!str_eq("gpu", "gpU"));
    assert!(!str_eq("gpu", "gpu "));
}

#[test]
fn lowercase_matching() {
    assert!(str_matches_lowercase("TRACE", "trace"));
    assert!(str_matches_lowercase("trace", "trace"));
    assert!(!str_matches_lowercase("trace", "TRACE"));
    assert!(!str_matches_lowercase("trac", "trace"));
}

#[test]
fn find_char_scans_forward() {
    let v = chars_of("a\"b\"c");
    assert_eq!(find_char_in(&v, '"', 0), 1);
    assert_eq!(find_char_in(&v, '"', 2), 3);
    assert_eq!(find_char_in(&v, '"', 4), 5);
    assert_eq!(find_char_in(&v, 'z', 0), 5);
}
