use galileo_platform::status::is_success;

#[test]
fn success_range_starts_at_200() {
    assert!(!is_success(199));
    assert!(is_success(200));
}

#[test]
fn success_range_ends_at_299() {
    assert!(is_success(299));
    assert!(!is_success(300));
}

#[test]
fn success_range_is_exactly_200_to_299() {
    for code in 0..=u16::MAX {
        assert_eq!(is_success(code), (200..300).contains(&code));
    }
}

#[test]
fn other_classes_of_status_are_no_success() {
    for code in [0u16, 100, 101, 301, 304, 400, 404, 500, 503, 999, 65535] {
        assert!(!is_success(code));
    }
}
