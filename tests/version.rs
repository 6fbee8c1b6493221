use componentize_go::version::{check_go_version, parse_decimal_u32, GoVersion, VersionError};

fn ok(report: &str) -> GoVersion {
    match check_go_version(true, report, "") {
        Ok(v) => v,
        Err(e) => panic!("rejected {report}: {e:?}"),
    }
}

#[test]
fn version_below_minimum_is_rejected() {
    match check_go_version(true, "go version go1.24.9 linux/amd64", "") {
        Err(VersionError::Unsupported(v)) => assert_eq!(v, GoVersion { major: 1, minor: 24, patch: 9 }),
        other => panic!("unexpected {other:?}"),
    }
    assert!(matches!(check_go_version(true, "go2.30.0", ""), Err(VersionError::Unsupported(_))));
}

#[test]
fn supported_versions_are_accepted() {
    assert_eq!(ok("go version go1.25.0 linux/amd64"), GoVersion { major: 1, minor: 25, patch: 0 });
    assert_eq!(ok("go1.26.3"), GoVersion { major: 1, minor: 26, patch: 3 });
}

#[test]
fn missing_version_token_is_a_parse_error() {
    match check_go_version(true, "no version here", "") {
        Err(VersionError::Unparsable(text)) => assert_eq!(text, "no version here"),
        other => panic!("unexpected {other:?}"),
    }
    assert!(matches!(check_go_version(true, "go1.25", ""), Err(VersionError::Unparsable(_))));
    assert!(matches!(check_go_version(true, "go1.99999999999.0", ""), Err(VersionError::Unparsable(_))));
}

#[test]
fn failed_probe_reports_its_error_output() {
    match check_go_version(false, "go1.25.0", "boom") {
        Err(VersionError::ProbeFailed(text)) => assert_eq!(text, "boom"),
        other => panic!("unexpected {other:?}"),
    }
}

#[test]
fn decimal_numbers() {
    assert_eq!(parse_decimal_u32("0"), Some(0));
    assert_eq!(parse_decimal_u32("4294967295"), Some(u32::MAX));
    assert_eq!(parse_decimal_u32("4294967296"), None);
    assert_eq!(parse_decimal_u32(""), None);
    assert_eq!(parse_decimal_u32("1a"), None);
    assert_eq!(parse_decimal_u32("+1"), None);
}
