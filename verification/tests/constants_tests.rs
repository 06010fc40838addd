use scafgen::constants::{Framework, Language};
use scafgen::string_utils::{to_kebab_case, to_pascal_case, to_snake_case};

#[test]
fn test_to_pascal_case() {
    assert_eq!(to_pascal_case("hello_world"), "HelloWorld");
    assert_eq!(to_pascal_case("test_project"), "TestProject");
    assert_eq!(to_pascal_case("single"), "Single");
}

#[test]
fn test_to_kebab_case() {
    assert_eq!(to_kebab_case("HelloWorld"), "hello-world");
    assert_eq!(to_kebab_case("TestProject"), "test-project");
    assert_eq!(to_kebab_case("single"), "single");
}

#[test]
fn test_to_snake_case() {
    assert_eq!(to_snake_case("HelloWorld"), "hello_world");
    assert_eq!(to_snake_case("TestProject"), "test_project");
    assert_eq!(to_snake_case("single"), "single");
}

#[test]
fn test_to_pascal_case_hyphens() {
    assert_eq!(to_pascal_case("my-app"), "MyApp");
    assert_eq!(to_pascal_case("alreadyPascal"), "AlreadyPascal");
}

#[test]
fn language_names_round_trip() {
    assert_eq!(Language::Go.as_str(), "Go");
    assert_eq!(Language::TypeScript.as_lowercase(), "typescript");
    assert_eq!(Language::parse_from_str("GO"), Some(Language::Go));
    assert_eq!(Language::parse_from_str("ts"), Some(Language::TypeScript));
    assert_eq!(Language::parse_from_str("cobol"), None);
}

#[test]
fn framework_display_names() {
    assert_eq!(Framework::NoFramework.display_name(), "None (Pure Language Project)");
    assert_eq!(Framework::Gin.display_name(), "Gin (Web Framework)");
    assert_eq!(Framework::GoZero.display_name(), "go-zero (Microservice Framework)");
    assert_eq!(Framework::Tauri.display_name(), "Tauri (Desktop App Framework)");
    assert_eq!(Framework::Vue3.display_name(), "Vue3 (Frontend Framework)");
    assert_eq!(Framework::React.display_name(), "React (Frontend Framework)");
}

#[test]
fn framework_names_round_trip() {
    assert_eq!(Framework::Gin.as_str(), "Gin");
    assert_eq!(Framework::GoZero.as_lowercase(), "go-zero");
    assert_eq!(Framework::parse_from_str("Vue"), Some(Framework::Vue3));
    assert_eq!(Framework::parse_from_str(""), Some(Framework::NoFramework));
    assert_eq!(Framework::parse_from_str("rails"), None);
    assert!(Framework::NoFramework.is_none());
    assert!(!Framework::Gin.is_none());
}

#[test]
fn frameworks_for_each_language() {
    let go = Framework::frameworks_for_language(Language::Go);
    assert_eq!(go, vec![Framework::Gin, Framework::GoZero]);
    assert!(Framework::frameworks_for_language(Language::Python).is_empty());
    assert_eq!(Framework::Gin.language(), Some(Language::Go));
    assert_eq!(Framework::NoFramework.language(), None);
    assert_eq!(Framework::all().len(), 6);
    assert_eq!(Framework::GoZero.default_port(), 8888);
    assert_eq!(Framework::Vue3.default_port(), 5173);
}
