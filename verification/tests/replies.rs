use zingo_bridge::text::{error_reply, height_text, is_error_reply, ok_reply};

#[test]
fn ok_reply_is_ok() {
    assert_eq!(ok_reply(), "OK");
}

#[test]
fn error_reply_puts_the_marker_first() {
    assert_eq!(error_reply("no route to host"), "Error: no route to host");
    assert_eq!(error_reply(""), "Error: ");
}

#[test]
fn error_reply_keeps_non_ascii_detail() {
    assert_eq!(error_reply("délai dépassé ⏱"), "Error: délai dépassé ⏱");
}

#[test]
fn is_error_reply_recognises_the_marker() {
    assert!(is_error_reply("Error: x"));
    assert!(is_error_reply("Error: "));
    assert!(is_error_reply(&error_reply("anything")));
}

#[test]
fn is_error_reply_rejects_everything_else() {
    assert!(!is_error_reply(""));
    assert!(!is_error_reply("OK"));
    assert!(!is_error_reply("Error"));
    assert!(!is_error_reply("Error:"));
    assert!(!is_error_reply("Error:x"));
    assert!(!is_error_reply("error: x"));
    assert!(!is_error_reply(" Error: x"));
    assert!(!is_error_reply("Érror: x"));
    assert!(!is_error_reply("1234567"));
}

#[test]
fn ok_reply_is_not_an_error_reply() {
    assert!(!is_error_reply(&ok_reply()));
}

#[test]
fn height_text_renders_single_digits() {
    assert_eq!(height_text(0), "0");
    assert_eq!(height_text(7), "7");
    assert_eq!(height_text(9), "9");
}

#[test]
fn height_text_renders_longer_numbers() {
    assert_eq!(height_text(10), "10");
    assert_eq!(height_text(100), "100");
    assert_eq!(height_text(2_345_678), "2345678");
    assert_eq!(height_text(1_000_000_007), "1000000007");
}

#[test]
fn height_text_renders_the_largest_height() {
    assert_eq!(height_text(u64::MAX), "18446744073709551615");
}

#[test]
fn height_text_agrees_with_std_formatting() {
    let mut height: u64 = 1;
    while height < u64::MAX / 7 {
        assert_eq!(height_text(height), format!("{}", height));
        assert_eq!(height_text(height - 1), format!("{}", height - 1));
        height *= 7;
    }
}

#[test]
fn height_text_is_never_an_error_reply() {
    assert!(!is_error_reply(&height_text(0)));
    assert!(!is_error_reply(&height_text(1_234_567)));
}
