use scafgen::errors::ValidationError;
use scafgen::validation::{validate_host, validate_port, validate_project_name};

#[test]
fn valid_project_names_succeed() {
    assert!(validate_project_name("my-app").is_ok());
    assert!(validate_project_name("My_App_2").is_ok());
    assert!(validate_project_name("a").is_ok());
    assert!(validate_project_name("0123456789").is_ok());
}

#[test]
fn names_with_spaces_or_bad_chars_fail() {
    assert_eq!(
        validate_project_name("my app"),
        Err(ValidationError::InvalidProjectNameChar)
    );
    assert_eq!(
        validate_project_name("my/app"),
        Err(ValidationError::InvalidProjectNameChar)
    );
    assert_eq!(
        validate_project_name("app!"),
        Err(ValidationError::InvalidProjectNameChar)
    );
    assert_eq!(
        validate_project_name(""),
        Err(ValidationError::EmptyProjectName)
    );
}

#[test]
fn reserved_ports_fail_user_ports_succeed() {
    assert_eq!(validate_port(0), Err(ValidationError::PortReserved));
    assert_eq!(validate_port(80), Err(ValidationError::PortReserved));
    assert_eq!(validate_port(1023), Err(ValidationError::PortReserved));
    assert!(validate_port(1024).is_ok());
    assert!(validate_port(8080).is_ok());
    assert!(validate_port(65535).is_ok());
}

#[test]
fn host_bounds() {
    assert_eq!(validate_host(""), Err(ValidationError::EmptyHost));
    assert!(validate_host("localhost").is_ok());
    let long = "a".repeat(253);
    assert!(validate_host(&long).is_ok());
    let too_long = "a".repeat(254);
    assert_eq!(validate_host(&too_long), Err(ValidationError::HostTooLong));
}

#[test]
fn error_messages_are_single_lines() {
    assert!(!ValidationError::EmptyProjectName.message().is_empty());
    assert!(!ValidationError::PortReserved.message().contains('\n'));
}
