use dxc_artifact::msvc::{msvc_version_supported, parse_msvc_version, MINIMUM_MSVC_VERSION};

#[test]
fn parses_plain_version() {
    assert_eq!(parse_msvc_version("1941"), Some(1941));
    assert_eq!(parse_msvc_version("0"), Some(0));
}

#[test]
fn parses_version_with_surrounding_whitespace() {
    assert_eq!(parse_msvc_version(" 1941\r\n"), Some(1941));
    assert_eq!(parse_msvc_version("\t1943 "), Some(1943));
}

#[test]
fn rejects_empty_or_blank_output() {
    assert_eq!(parse_msvc_version(""), None);
    assert_eq!(parse_msvc_version("   \r\n"), None);
}

#[test]
fn rejects_non_digit_output() {
    assert_eq!(parse_msvc_version("12a4"), None);
    assert_eq!(parse_msvc_version("19.41"), None);
    assert_eq!(parse_msvc_version("-1941"), None);
    assert_eq!(parse_msvc_version("19 41"), None);
}

#[test]
fn parses_up_to_the_largest_value() {
    assert_eq!(parse_msvc_version("18446744073709551615"), Some(u64::MAX));
    assert_eq!(parse_msvc_version("18446744073709551616"), None);
    assert_eq!(parse_msvc_version("99999999999999999999999"), None);
}

#[test]
fn leading_zeros_are_accepted() {
    assert_eq!(parse_msvc_version("0001941"), Some(1941));
}

#[test]
fn minimum_version_boundary() {
    assert_eq!(MINIMUM_MSVC_VERSION, 1941);
    assert!(msvc_version_supported(1941));
    assert!(!msvc_version_supported(1940));
    assert!(msvc_version_supported(2001));
}
