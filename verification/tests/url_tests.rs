use zdownload::is_valid_url;
use zdownload::url_check::{check_download_input, is_web_scheme, InputError};

#[test]
fn web_urls_are_valid() {
    assert!(is_valid_url("https://www.youtube.com/watch?v=abc"));
    assert!(is_valid_url("http://example.org/video"));
}

#[test]
fn scheme_case_does_not_matter() {
    assert!(is_valid_url("HTTPS://EXAMPLE.COM/"));
}

#[test]
fn other_schemes_are_invalid() {
    assert!(!is_valid_url("ftp://example.org/file"));
    assert!(!is_valid_url("file:///tmp/x"));
    assert!(!is_valid_url("mailto:a@b.c"));
}

#[test]
fn text_that_is_not_a_url_is_invalid() {
    assert!(!is_valid_url("example.com"));
    assert!(!is_valid_url(""));
    assert!(!is_valid_url("http://"));
}

#[test]
fn scheme_check() {
    assert!(is_web_scheme(&Some("http".to_string())));
    assert!(is_web_scheme(&Some("https".to_string())));
    assert!(!is_web_scheme(&Some("HTTP".to_string())));
    assert!(!is_web_scheme(&Some("ftp".to_string())));
    assert!(!is_web_scheme(&None));
}

#[test]
fn input_is_trimmed() {
    assert_eq!(check_download_input("  https://a.com/v  \n"), Ok("https://a.com/v".to_string()));
}

#[test]
fn blank_input_is_empty() {
    assert_eq!(check_download_input(""), Err(InputError::Empty));
    assert_eq!(check_download_input(" \t "), Err(InputError::Empty));
}

#[test]
fn bad_input_is_invalid() {
    assert_eq!(check_download_input("not a link"), Err(InputError::InvalidUrl));
    assert_eq!(check_download_input(" ftp://a.com "), Err(InputError::InvalidUrl));
}
