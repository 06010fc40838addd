use scafgen::generators::{
    GenerateError, GinGenerator, GoGenerator, ProjectGenerator, PythonGenerator, RustGenerator,
    TauriGenerator,
};
use scafgen::framework_params::TauriParams;
use scafgen::orchestrator::{GeneratorOrchestrator, GinProjectOptions};
use scafgen::params::{ProjectParams, PythonParams, RustParams};
use scafgen::processor::ProcessError;
use scafgen::scaffold::PostProcessor;
use scafgen::store::TemplateStore;

fn store_of(entries: &[(&str, &str)]) -> TemplateStore {
    let mut store = TemplateStore::new();
    for (path, content) in entries {
        assert!(store.add(path.to_string(), content.to_string()));
    }
    store
}

fn cmd_of(step: &PostProcessor) -> (String, Vec<String>) {
    match step {
        PostProcessor::Command { command, args, .. } => (command.clone(), args.clone()),
    }
}

#[test]
fn gin_options_fall_back_to_defaults() {
    let orchestrator = GeneratorOrchestrator::new();
    let options = GinProjectOptions::new();
    let params = orchestrator.build_gin_params("demo".to_string(), &options);
    assert_eq!(params.base.project_name, "demo");
    assert_eq!(params.host().unwrap(), "localhost");
    assert_eq!(params.port(), Some(8080));
    assert!(params.enable_swagger());
    assert!(params.enable_precommit());
    assert!(!params.enable_jwt());
    assert_eq!(params.go.module_name().unwrap(), "github.com/example/demo");
    assert_eq!(params.project.license(), "MIT");
    assert_eq!(
        params.project.description().as_deref(),
        Some("A Gin web application: demo")
    );
}

#[test]
fn gin_options_keep_explicit_choices() {
    let orchestrator = GeneratorOrchestrator::new();
    let options = GinProjectOptions::new()
        .with_license("Apache-2.0".to_string())
        .with_server("0.0.0.0".to_string(), 9999)
        .with_swagger(false)
        .with_precommit(false)
        .with_module_name("example.com/demo".to_string())
        .with_go_version("1.24".to_string())
        .with_database("postgres".to_string())
        .with_author("Ada".to_string())
        .with_description("An API".to_string());
    let params = orchestrator.build_gin_params("demo".to_string(), &options);
    assert_eq!(params.host().unwrap(), "0.0.0.0");
    assert_eq!(params.port(), Some(9999));
    assert!(!params.enable_swagger());
    assert!(!params.enable_precommit());
    assert_eq!(params.go.module_name().unwrap(), "example.com/demo");
    assert_eq!(params.go.version().unwrap(), "1.24");
    assert_eq!(params.base.database_type.as_deref(), Some("postgres"));
    assert!(params.base.enable_database);
    assert_eq!(params.project.author().as_deref(), Some("Ada"));
    assert_eq!(params.project.license(), "Apache-2.0");
}

#[test]
fn gin_run_renders_all_three_levels_in_order() {
    let store = store_of(&[
        ("frameworks/go/gin/main.go.tmpl", "package main // {{project_name}}"),
        ("languages/go/.gitignore", "/bin\n"),
        ("licenses/MIT.tmpl", "MIT (c) {{project_name}}"),
    ]);
    let orchestrator = GeneratorOrchestrator::new();
    let options = GinProjectOptions::new().with_precommit(false).with_swagger(true);
    let params = orchestrator.build_gin_params("demo".to_string(), &options);
    let plan = orchestrator.generate_gin_project(&store, &params).unwrap();
    assert_eq!(plan.outputs.len(), 3);
    assert_eq!(plan.outputs[0].path, "main.go");
    assert_eq!(plan.outputs[0].content, "package main // demo");
    assert_eq!(plan.outputs[1].path, ".gitignore");
    assert_eq!(plan.outputs[1].content, "/bin\n");
    assert_eq!(plan.outputs[2].path, "LICENSE");
    assert_eq!(plan.outputs[2].content, "MIT (c) demo");
    assert!(plan.pre_steps.is_empty());
    let cmds: Vec<(String, Vec<String>)> = plan.post_steps.iter().map(cmd_of).collect();
    assert_eq!(cmds[0].0, "go");
    assert_eq!(cmds[0].1, vec!["mod", "init", "demo"]);
    assert_eq!(cmds[1].1, vec!["mod", "tidy"]);
    assert_eq!(cmds[2].0, "git");
    assert_eq!(cmds[3].0, "swag");
    assert_eq!(cmds[3].1, vec!["init", "-g", "main.go"]);
    assert_eq!(cmds[4].1, vec!["mod", "tidy"]);
    assert_eq!(cmds.len(), 5);
}

#[test]
fn absent_namespace_is_a_fatal_packaging_defect() {
    let store = store_of(&[("licenses/MIT.tmpl", "MIT")]);
    let go = scafgen::params::GoParams::from_project_name("demo".to_string());
    match GoGenerator::new().generate(&store, &go) {
        Err(GenerateError::Process(ProcessError::TemplateNotFound { path })) => {
            assert_eq!(path, "languages/go");
        }
        other => panic!("expected a missing namespace, got {:?}", other),
    }
    let rust = RustParams::new("demo".to_string());
    let project = ProjectParams::new("demo".to_string());
    let orchestrator = GeneratorOrchestrator::new();
    match orchestrator.generate_rust_project(&store, &rust, &project) {
        Err(GenerateError::Process(ProcessError::TemplateNotFound { path })) => {
            assert_eq!(path, "languages/rust");
        }
        other => panic!("expected a missing namespace, got {:?}", other),
    }
}

#[test]
fn missing_license_template_is_a_hard_failure() {
    let store = store_of(&[("languages/python/README.md", "hi")]);
    let orchestrator = GeneratorOrchestrator::new();
    let python = PythonParams::new("demo".to_string());
    let project = ProjectParams::new("demo".to_string()).with_license("GPL-3.0".to_string());
    match orchestrator.generate_python_project(&store, &python, &project) {
        Err(GenerateError::Process(ProcessError::TemplateNotFound { path })) => {
            assert_eq!(path, "licenses/GPL-3.0.tmpl");
        }
        other => panic!("expected a missing license template, got {:?}", other),
    }
}

#[test]
fn python_plan_bootstraps_with_uv() {
    let store = store_of(&[
        ("languages/python/README.md.tmpl", "# {{project_name}}"),
        ("licenses/MIT.tmpl", "MIT"),
    ]);
    let orchestrator = GeneratorOrchestrator::new();
    let python = PythonParams::new("demo".to_string());
    let project = ProjectParams::new("demo".to_string()).with_precommit(true);
    let plan = orchestrator.generate_python_project(&store, &python, &project).unwrap();
    assert_eq!(plan.outputs.len(), 2);
    assert_eq!(plan.outputs[1].path, "LICENSE");
    let pre: Vec<(String, Vec<String>)> = plan.pre_steps.iter().map(cmd_of).collect();
    assert_eq!(pre, vec![("uv".to_string(),
        vec!["init".to_string(), "--name".to_string(), "demo".to_string(), ".".to_string()])]);
    let post: Vec<(String, Vec<String>)> = plan.post_steps.iter().map(cmd_of).collect();
    assert_eq!(post[0].1, vec!["add", "pydantic"]);
    assert_eq!(post[1].1, vec!["add", "python-dotenv"]);
    assert_eq!(post[2].1, vec!["add", "rich"]);
    assert_eq!(post[3].1, vec!["sync"]);
    assert_eq!(post[4].0, "git");
    assert_eq!(post[5].0, "pre-commit");
    assert_eq!(post.len(), 6);
}

#[test]
fn rust_and_tauri_plans() {
    let store = store_of(&[
        ("frameworks/rust/tauri/src-tauri/tauri.conf.json.tmpl", "{\"name\":\"{{project_name}}\"}"),
        ("languages/rust/Cargo.toml.tmpl", "[package]\nname = \"{{project_name_snake}}\"\n"),
        ("licenses/MIT.tmpl", "MIT"),
    ]);
    let orchestrator = GeneratorOrchestrator::new();
    let rust = RustParams::new("demo".to_string());
    let project = ProjectParams::new("demo".to_string());
    let plan = orchestrator.generate_rust_project(&store, &rust, &project).unwrap();
    assert_eq!(plan.outputs.len(), 2);
    assert_eq!(plan.outputs[0].path, "Cargo.toml");
    assert_eq!(plan.outputs[0].content, "[package]\nname = \"demo\"\n");
    let post: Vec<(String, Vec<String>)> = plan.post_steps.iter().map(cmd_of).collect();
    assert_eq!(post[0], ("cargo".to_string(), vec!["build".to_string()]));

    let tauri = TauriParams::from_project_name("demo".to_string());
    let plan = orchestrator.generate_tauri_project(&store, &tauri, &project).unwrap();
    assert_eq!(plan.outputs[0].path, "src-tauri/tauri.conf.json");
    assert_eq!(plan.outputs[0].content, "{\"name\":\"demo\"}");
    let pre: Vec<(String, Vec<String>)> = plan.pre_steps.iter().map(cmd_of).collect();
    assert_eq!(pre[0].0, "cargo");
    assert_eq!(pre[0].1[0], "create-tauri-app");
    assert_eq!(pre[1], ("pnpm".to_string(), vec!["install".to_string()]));
}

#[test]
fn generator_names_and_namespaces() {
    assert_eq!(ProjectGenerator::new().name(), "project");
    assert_eq!(GoGenerator::new().get_template_path(), "languages/go");
    assert_eq!(PythonGenerator::new().get_template_path(), "languages/python");
    assert_eq!(GinGenerator::new().get_template_path(), "frameworks/go/gin");
    assert_eq!(TauriGenerator::new().get_template_path(), "frameworks/rust/tauri");
}

#[test]
fn go_mod_and_readme_fallbacks() {
    let go = scafgen::params::GoParams::from_project_name("demo".to_string());
    let gen = GoGenerator::new();
    assert_eq!(gen.go_mod_content(&go), "module demo\n\ngo 1.21\n");
    let project = ProjectParams::new("demo".to_string())
        .with_description("A thing".to_string())
        .with_author("Ada".to_string());
    let readme = ProjectGenerator::new().generate_readme_content(&project);
    assert_eq!(
        readme,
        "# demo\n\nA thing\n\n## Author\n\nAda\n\n## License\n\nMIT\n"
    );
}
