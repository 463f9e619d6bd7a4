use mac_window::strings::{objc_string, same_text};
use mac_window::text_range::{
    character_index_or_not_found, invalid_ns_range, ns_range_or_invalid, substring_actual_range,
    substring_request, NsRange, TextRange, NOT_FOUND,
};

#[test]
fn null_strings_are_empty() {
    assert_eq!(objc_string(None), "");
    assert_eq!(objc_string(Some(b"")), "");
}

#[test]
fn invalid_utf8_is_replaced() {
    assert_eq!(objc_string(Some(b"caf\xc3\xa9")), "café");
    assert_eq!(objc_string(Some(b"a\xffb")), "a\u{fffd}b");
}

#[test]
fn texts_are_compared_by_content() {
    assert!(same_text("Minimize", &"Minimize".to_string()));
    assert!(!same_text("Minimize", "minimize"));
}

#[test]
fn not_found_is_no_range() {
    assert_eq!(NOT_FOUND, i64::MAX as u64);
    assert_eq!(invalid_ns_range(), NsRange { location: NOT_FOUND, length: 0 });
    assert_eq!(invalid_ns_range().to_range_option(), None);
    assert_eq!(ns_range_or_invalid(None), invalid_ns_range());
}

#[test]
fn ranges_are_converted_back_and_forth() {
    let range = NsRange { location: 3, length: 4 };
    assert_eq!(range.to_range_option(), Some(TextRange { start: 3, end: 7 }));
    assert_eq!(ns_range_or_invalid(range.to_range_option()), range);
}

#[test]
fn empty_substrings_are_not_asked_for() {
    assert_eq!(substring_request(NsRange { location: 3, length: 0 }), None);
    assert_eq!(substring_request(invalid_ns_range()), None);
    assert_eq!(
        substring_request(NsRange { location: 3, length: 2 }),
        Some(TextRange { start: 3, end: 5 })
    );
}

#[test]
fn adjusted_range_is_reported() {
    let request = TextRange { start: 3, end: 5 };
    assert_eq!(
        substring_actual_range(request, None),
        NsRange { location: 3, length: 2 }
    );
    assert_eq!(
        substring_actual_range(request, Some(TextRange { start: 2, end: 6 })),
        NsRange { location: 2, length: 4 }
    );
}

#[test]
fn missing_character_index_is_not_found() {
    assert_eq!(character_index_or_not_found(Some(12)), 12);
    assert_eq!(character_index_or_not_found(None), NOT_FOUND);
}
