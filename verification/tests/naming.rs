use datahub_client::to_snake_lower_cased_allow_start_with_digits;

#[test]
fn lib_test_to_snake_lower_cased_allow_start_with_digits() {
    assert_eq!(
        to_snake_lower_cased_allow_start_with_digits("Hello World!"),
        "hello_world".to_string()
    );
    assert_eq!(
        to_snake_lower_cased_allow_start_with_digits("Another-Test_Case"),
        "another_test_case".to_string()
    );
    assert_eq!(
        to_snake_lower_cased_allow_start_with_digits("with_numbers_123"),
        "with_numbers_123".to_string()
    );
    assert_eq!(
        to_snake_lower_cased_allow_start_with_digits("  leading and trailing spaces  "),
        "_leading_and_trailing_spaces".to_string()
    );
    assert_eq!(
        to_snake_lower_cased_allow_start_with_digits("123_Starts_With_Digits"),
        "123_starts_with_digits".to_string()
    );
    assert_eq!(
        to_snake_lower_cased_allow_start_with_digits("Two  spaces"),
        "two_spaces".to_string()
    );
    assert_eq!(
        to_snake_lower_cased_allow_start_with_digits(" Leading space"),
        "_leading_space".to_string()
    );
    assert_eq!(
        to_snake_lower_cased_allow_start_with_digits("Trailing space "),
        "trailing_space".to_string()
    );
    assert_eq!(to_snake_lower_cased_allow_start_with_digits("!@#$%^&*()"), "".to_string());
}

#[test]
fn tests_test_to_snake_lower_cased_allow_start_with_digits() {
    assert_eq!(
        to_snake_lower_cased_allow_start_with_digits("Hello World!"),
        "hello_world".to_string()
    );
    assert_eq!(
        to_snake_lower_cased_allow_start_with_digits("Another-Test_Case"),
        "another_test_case".to_string()
    );
    assert_eq!(
        to_snake_lower_cased_allow_start_with_digits("with_numbers_123"),
        "with_numbers_123".to_string()
    );
    assert_eq!(
        to_snake_lower_cased_allow_start_with_digits("  leading and trailing spaces  "),
        "_leading_and_trailing_spaces".to_string()
    );
    assert_eq!(
        to_snake_lower_cased_allow_start_with_digits("123_Starts_With_Digits"),
        "123_starts_with_digits".to_string()
    );
    assert_eq!(
        to_snake_lower_cased_allow_start_with_digits("Two  spaces"),
        "two_spaces".to_string()
    );
    assert_eq!(
        to_snake_lower_cased_allow_start_with_digits(" Leading space"),
        "_leading_space".to_string()
    );
    assert_eq!(
        to_snake_lower_cased_allow_start_with_digits("Trailing space "),
        "trailing_space".to_string()
    );
    assert_eq!(to_snake_lower_cased_allow_start_with_digits("!@#$%^&*()"), "".to_string());
}

#[test]
fn test_test_to_snake_lower_cased_allow_start_with_digits() {
    assert_eq!(
        to_snake_lower_cased_allow_start_with_digits("Hello World!"),
        "hello_world".to_string()
    );
    assert_eq!(
        to_snake_lower_cased_allow_start_with_digits("Another-Test_Case"),
        "another_test_case".to_string()
    );
    assert_eq!(
        to_snake_lower_cased_allow_start_with_digits("with_numbers_123"),
        "with_numbers_123".to_string()
    );
    assert_eq!(
        to_snake_lower_cased_allow_start_with_digits("  leading and trailing spaces  "),
        "_leading_and_trailing_spaces".to_string()
    );
    assert_eq!(
        to_snake_lower_cased_allow_start_with_digits("123_Starts_With_Digits"),
        "123_starts_with_digits".to_string()
    );
    assert_eq!(
        to_snake_lower_cased_allow_start_with_digits("Two  spaces"),
        "two_spaces".to_string()
    );
    assert_eq!(
        to_snake_lower_cased_allow_start_with_digits(" Leading space"),
        "_leading_space".to_string()
    );
    assert_eq!(
        to_snake_lower_cased_allow_start_with_digits("Trailing space "),
        "trailing_space".to_string()
    );
    assert_eq!(to_snake_lower_cased_allow_start_with_digits("!@#$%^&*()"), "".to_string());
}

#[test]
fn keeps_leading_marker_only_for_separator_starts() {
    // A name starting with a separator keeps its leading underscore.
    assert_eq!(to_snake_lower_cased_allow_start_with_digits("!a"), "_a".to_string());
    // A name starting with a letter or digit does not gain one.
    assert_eq!(to_snake_lower_cased_allow_start_with_digits("a b"), "a_b".to_string());
    assert_eq!(to_snake_lower_cased_allow_start_with_digits(""), "".to_string());
}
