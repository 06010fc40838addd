use scafgen::context::CtxValue;
use scafgen::framework_params::{GinParams, ReactParams, TauriParams, Vue3Params};
use scafgen::params::{BaseParams, GoParams, ProjectParams, PythonParams, RustParams};
use scafgen::render::render;

#[test]
fn base_context_holds_name_and_derived_forms() {
    let mut base = BaseParams::new("my-app".to_string());
    base.year = Some(2026);
    base.port = Some(9000);
    let ctx = base.to_context();
    assert_eq!(
        render("{{project_name}} {{project_name_pascal}} {{project_name_snake}}", &ctx).unwrap(),
        "my-app MyApp my-app"
    );
    assert_eq!(render("{{license}} {{project_version}}", &ctx).unwrap(), "MIT 0.1.0");
    assert_eq!(render("{{year}} {{port}}", &ctx).unwrap(), "2026 9000");
    assert_eq!(ctx.get_bool("enable_git"), Some(false));
}

#[test]
fn optional_fields_appear_only_when_set() {
    let base = BaseParams::new("demo".to_string());
    let ctx = base.to_context();
    assert!(ctx.get("author").is_none());
    assert!(ctx.get("host").is_none());
    assert!(ctx.get("year").is_none());
}

#[test]
fn project_params_builders() {
    let p = ProjectParams::new("demo".to_string())
        .with_description("A demo".to_string())
        .with_author("Ada".to_string())
        .with_license("Apache-2.0".to_string())
        .with_git(false)
        .with_precommit(true)
        .with_version("1.2.3".to_string());
    assert_eq!(p.name(), "demo");
    assert_eq!(p.description().as_deref(), Some("A demo"));
    assert_eq!(p.author().as_deref(), Some("Ada"));
    assert_eq!(p.license(), "Apache-2.0");
    assert!(!p.enable_git());
    assert!(p.enable_precommit());
    assert_eq!(p.version(), "1.2.3");
    assert!(p.validate().is_ok());
}

#[test]
fn go_params_infer_module_name_and_accessors() {
    assert_eq!(
        GoParams::infer_module_name("My App"),
        "github.com/example/my-app"
    );
    let g = GoParams::from_project_name("My App".to_string());
    assert_eq!(g.module_name().unwrap(), "github.com/example/my-app");
    assert_eq!(g.base.project_name, "my-app");
    assert_eq!(g.version().unwrap(), "1.21");
    assert!(g.enable_modules());
    assert!(!g.enable_cgo());
    assert!(!g.enable_vendor());
    let g = g.with_version("1.24".to_string()).with_cgo(true).with_build_tag("netgo".to_string());
    assert_eq!(g.version().unwrap(), "1.24");
    assert!(g.enable_cgo());
    assert_eq!(g.build_tags(), &vec!["netgo".to_string()]);
    let ctx = g.to_context();
    assert_eq!(render("{{go_version}} {{module_name}}", &ctx).unwrap(),
        "1.24 github.com/example/my-app");
}

#[test]
fn python_params_package_name_and_context() {
    let p = PythonParams::new("My-Cool App".to_string())
        .with_version("3.12".to_string())
        .with_uv_version("0.9.5".to_string())
        .with_precommit(true);
    assert_eq!(p.package_name(), "my_cool_app");
    assert!(p.enable_precommit());
    let ctx = p.to_context();
    assert_eq!(
        render("{{python_version}} {{package_name}} {{uv_version}} {{ruff_version}}", &ctx)
            .unwrap(),
        "3.12 my_cool_app 0.9.5 0.12.1"
    );
}

#[test]
fn rust_params_versions() {
    let r = RustParams::new("demo".to_string());
    assert_eq!(r.version().unwrap(), "1.75");
    assert!(r.get_cargo_version().is_none());
    let r = r.with_rust_version("1.88".to_string()).with_cargo_version("1.88.0".to_string());
    assert_eq!(r.version().unwrap(), "1.88");
    assert_eq!(r.get_cargo_version().unwrap(), "1.88.0");
    let ctx = r.to_context();
    assert_eq!(render("{{rust_version}}/{{cargo_version}}", &ctx).unwrap(), "1.88/1.88.0");
}

#[test]
fn gin_params_builders_and_context() {
    let g = GinParams::from_project_name("demo".to_string())
        .with_server("0.0.0.0".to_string(), 9090)
        .with_swagger(false)
        .with_jwt(true)
        .with_precommit(false);
    assert_eq!(g.host().unwrap(), "0.0.0.0");
    assert_eq!(g.port(), Some(9090));
    assert!(!g.enable_swagger());
    assert!(g.enable_cors());
    assert!(g.enable_jwt());
    assert!(!g.enable_precommit());
    let ctx = g.to_context();
    assert_eq!(render("{{host}}:{{port}}", &ctx).unwrap(), "0.0.0.0:9090");
    assert_eq!(ctx.get_bool("enable_swagger"), Some(false));
}

#[test]
fn tauri_params_identifier() {
    let t = TauriParams::from_project_name("My-App".to_string());
    assert_eq!(t.identifier, "com.myapp.app");
    assert_eq!(t.frontend_framework, "vue");
    assert!(t.enable_proto_gen());
    let t = t.with_precommit(true).with_proto_gen(false).with_window_size(1024, 768);
    assert!(t.enable_precommit());
    assert!(!t.enable_proto_gen());
    assert_eq!((t.window_width, t.window_height), (1024, 768));
    assert_eq!(TauriParams::derive_identifier("a_b-c"), "com.abc.app");
}

#[test]
fn frontend_params_defaults() {
    let v = Vue3Params::from_project_name("demo".to_string());
    assert_eq!(v.node_version, "20");
    assert!(v.enable_typescript && v.enable_tailwind && v.enable_router && v.enable_pinia);
    assert_eq!(v.package_manager, "pnpm");
    let r = ReactParams::from_project_name("demo".to_string());
    assert_eq!(r.state_management, "zustand");
    assert!(r.enable_router);
}

#[test]
fn layer_validation_rejects_bad_input() {
    let mut base = BaseParams::new("bad name".to_string());
    assert!(base.validate().is_err());
    base.project_name = "good-name".to_string();
    assert!(base.validate().is_ok());
    base.port = Some(80);
    assert!(base.validate().is_err());
    base.port = Some(8080);
    base.host = Some(String::new());
    assert!(base.validate().is_err());
    base.host = Some("localhost".to_string());
    assert!(base.validate().is_ok());
    let _ = CtxValue::Bool(true);
}
