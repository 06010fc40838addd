use scafgen::env_checker::EnvironmentChecker;

#[test]
fn version_lines_parse_to_major_minor() {
    let checker = EnvironmentChecker::new();
    assert_eq!(
        checker.parse_version_numbers("go version go1.24.1 linux/amd64"),
        Some((1, 24))
    );
    assert_eq!(
        checker.parse_version_numbers("rustc 1.88.0 (abcdef 2025-01-01)"),
        Some((1, 88))
    );
    assert_eq!(checker.parse_version_numbers("Python 3.12.4"), Some((3, 12)));
    assert_eq!(checker.parse_version_numbers("no digits here"), None);
    assert_eq!(checker.parse_version_numbers("lonely 7 number"), None);
}

#[test]
fn minimum_versions_are_enforced() {
    let checker = EnvironmentChecker::new();
    assert!(checker.go_version_supported(1, 24));
    assert!(checker.go_version_supported(2, 0));
    assert!(!checker.go_version_supported(1, 23));
    assert!(checker.rust_version_supported(1, 88));
    assert!(!checker.rust_version_supported(1, 87));
    assert!(checker.python_version_supported(3, 12));
    assert!(!checker.python_version_supported(3, 11));
    assert!(!checker.python_version_supported(2, 7));
}

#[test]
fn version_text_round_trip() {
    let checker = EnvironmentChecker::new();
    assert_eq!(checker.format_version(1, 25), "1.25");
    assert_eq!(checker.strip_uv_prefix("uv 0.9.5"), "0.9.5");
    assert_eq!(checker.strip_uv_prefix("0.9.5"), "0.9.5");
}
