use pageforge::errors::ConfigError;
use pageforge::headers::{build_header_plan, check_header_value};
use pageforge::progress::{progress_line, saving_line};

fn line_string(count: u32) -> String {
    progress_line(count).into_iter().collect()
}

#[test]
fn plain_ascii_header_values_are_accepted() {
    let plan = build_header_plan(b"session=abc; other=def".to_vec(), b"token-123".to_vec())
        .expect("plain ASCII must be accepted");
    assert_eq!(plan.cookie, b"session=abc; other=def".to_vec());
    assert_eq!(plan.auth_token, b"token-123".to_vec());
}

#[test]
fn tab_and_high_bytes_are_valid_header_bytes() {
    assert!(check_header_value(b"a\tb"));
    assert!(check_header_value(&[0x80u8, 0xFF, b'x']));
    assert!(check_header_value(&[]));
}

#[test]
fn control_bytes_are_invalid_header_bytes() {
    assert!(!check_header_value(b"line\nbreak"));
    assert!(!check_header_value(b"carriage\rreturn"));
    assert!(!check_header_value(&[0u8]));
    assert!(!check_header_value(&[127u8]));
    assert!(!check_header_value(&[31u8]));
    assert!(check_header_value(&[32u8]));
}

#[test]
fn newline_in_cookie_fails_fast_with_config_error() {
    let r = build_header_plan(b"bad\ncookie".to_vec(), b"fine".to_vec());
    assert_eq!(r.unwrap_err(), ConfigError::InvalidCookie);
}

#[test]
fn invalid_auth_token_is_reported_after_valid_cookie() {
    let r = build_header_plan(b"fine".to_vec(), b"bad\x7ftoken".to_vec());
    assert_eq!(r.unwrap_err(), ConfigError::InvalidAuthToken);
}

#[test]
fn progress_line_pads_to_four_digits() {
    assert_eq!(line_string(1), "Downloaded page 0001.");
    assert_eq!(line_string(7), "Downloaded page 0007.");
    assert_eq!(line_string(42), "Downloaded page 0042.");
    assert_eq!(line_string(123), "Downloaded page 0123.");
    assert_eq!(line_string(9999), "Downloaded page 9999.");
}

#[test]
fn progress_line_keeps_all_digits_of_large_counts() {
    assert_eq!(line_string(12345), "Downloaded page 12345.");
}

#[test]
fn saving_line_is_the_fixed_warning() {
    assert_eq!(saving_line(), "Saving the document. This make take a while.");
}
