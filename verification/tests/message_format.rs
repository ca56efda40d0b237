//! The diagnostic line: exact renderings of the decimal positions and of the
//! assembled message, with and without a failure detail.

use tiny_bail::{bail_message, decimal_string};

#[test]
fn decimal_renders_single_digits() {
    assert_eq!(decimal_string(0), "0");
    assert_eq!(decimal_string(7), "7");
    assert_eq!(decimal_string(9), "9");
}

#[test]
fn decimal_renders_multiple_digits() {
    assert_eq!(decimal_string(10), "10");
    assert_eq!(decimal_string(34), "34");
    assert_eq!(decimal_string(12345), "12345");
    assert_eq!(decimal_string(1000000), "1000000");
}

#[test]
fn decimal_renders_the_largest_value() {
    assert_eq!(decimal_string(u64::MAX), "18446744073709551615");
}

#[test]
fn message_without_detail() {
    assert_eq!(
        bail_message("src/example.rs", 34, 18, "arr.last_mut()", None),
        "Bailed at src/example.rs:34:18: `arr.last_mut()`"
    );
}

#[test]
fn message_with_detail() {
    assert_eq!(
        bail_message("src/example.rs", 7, 5, "list.first()", Some("None")),
        "Bailed at src/example.rs:7:5: `list.first()` is `None`"
    );
}

#[test]
fn message_keeps_the_expression_text_verbatim() {
    assert_eq!(
        bail_message("a.rs", 1, 2, "map.get(&key)", Some("MissingKey(3)")),
        "Bailed at a.rs:1:2: `map.get(&key)` is `MissingKey(3)`"
    );
}
