use scafgen::context::{CtxValue, RenderContext};
use scafgen::errors::RenderError;
use scafgen::processor::{
    output_name, process_namespace, ProcessError, SkipRule, TemplateProcessor,
};
use scafgen::store::TemplateStore;

fn store_of(entries: &[(&str, &str)]) -> TemplateStore {
    let mut store = TemplateStore::new();
    for (path, content) in entries {
        assert!(store.add(path.to_string(), content.to_string()));
    }
    store
}

fn ctx_of(entries: &[(&str, CtxValue)]) -> RenderContext {
    let mut ctx = RenderContext::new();
    for (k, v) in entries {
        ctx.insert(k, scafgen::context::clone_value(v));
    }
    ctx
}

#[test]
fn marker_suffix_is_stripped_and_static_files_kept() {
    let store = store_of(&[
        ("ns/LICENSE", "license bytes \u{00a9}"),
        ("ns/README.md.tmpl", "# {{project_name}}"),
    ]);
    let ctx = ctx_of(&[("project_name", CtxValue::Str("demo".to_string()))]);
    let rules = vec![];
    let outs = process_namespace(&store, "ns", &rules, &ctx).unwrap();
    assert_eq!(outs.len(), 2);
    assert_eq!(outs[0].path, "LICENSE");
    assert_eq!(outs[0].content, "license bytes \u{00a9}");
    assert_eq!(outs[1].path, "README.md");
    assert_eq!(outs[1].content, "# demo");
    assert_eq!(output_name("config.yaml.tmpl"), "config.yaml");
    assert_eq!(output_name("config.yaml"), "config.yaml");
}

#[test]
fn precommit_file_is_skipped_when_disabled() {
    let store = store_of(&[
        ("ns/.pre-commit-config.yaml.tmpl", "repo: {{project_name}}"),
        ("ns/main.go.tmpl", "package {{project_name}}"),
    ]);
    let rules = vec![SkipRule::PrecommitConfig];
    let ctx_off = ctx_of(&[
        ("enable_precommit", CtxValue::Bool(false)),
        ("project_name", CtxValue::Str("demo".to_string())),
    ]);
    let outs = process_namespace(&store, "ns", &rules, &ctx_off).unwrap();
    assert_eq!(outs.len(), 1);
    assert!(outs.iter().all(|o| o.path != ".pre-commit-config.yaml"));

    let ctx_on = ctx_of(&[
        ("enable_precommit", CtxValue::Bool(true)),
        ("project_name", CtxValue::Str("demo".to_string())),
    ]);
    let outs = process_namespace(&store, "ns", &rules, &ctx_on).unwrap();
    assert_eq!(outs.len(), 2);
    assert_eq!(outs[0].path, ".pre-commit-config.yaml");
    assert_eq!(outs[0].content, "repo: demo");
}

#[test]
fn swagger_files_are_skipped_when_disabled() {
    let store = store_of(&[
        ("ns/docs.go.tmpl", "x"),
        ("ns/handler.go.tmpl", "y"),
        ("ns/swagger.json", "{}"),
    ]);
    let rules = vec![SkipRule::SwaggerDocs];
    let ctx = ctx_of(&[("enable_swagger", CtxValue::Bool(false))]);
    let outs = process_namespace(&store, "ns", &rules, &ctx).unwrap();
    assert_eq!(outs.len(), 1);
    assert_eq!(outs[0].path, "handler.go");
}

#[test]
fn proto_gen_subtree_is_skipped_when_disabled() {
    let store = store_of(&[
        ("ns/Makefile.tmpl", "all:"),
        ("ns/protos/app.proto", "message A {}"),
        ("ns/src/main.rs", "fn main() {}"),
        ("ns/tools/proto-gen/run.sh", "#!/bin/sh"),
    ]);
    let rules = vec![SkipRule::ProtoGenTools];
    let ctx = ctx_of(&[("enable_proto_gen", CtxValue::Bool(false))]);
    let outs = process_namespace(&store, "ns", &rules, &ctx).unwrap();
    assert_eq!(outs.len(), 1);
    assert_eq!(outs[0].path, "src/main.rs");
}

#[test]
fn processing_is_deterministic_across_runs() {
    let store = store_of(&[
        ("ns/a.txt", "static"),
        ("ns/b.md.tmpl", "v={{v}}"),
    ]);
    let ctx = ctx_of(&[("v", CtxValue::Int(7))]);
    let rules = vec![];
    let first = process_namespace(&store, "ns", &rules, &ctx).unwrap();
    let second = process_namespace(&store, "ns", &rules, &ctx).unwrap();
    assert_eq!(first.len(), second.len());
    for (a, b) in first.iter().zip(second.iter()) {
        assert_eq!(a.path, b.path);
        assert_eq!(a.content, b.content);
    }
}

#[test]
fn render_failure_aborts_with_path_and_cause() {
    let store = store_of(&[
        ("ns/bad.txt.tmpl", "{{missing}}"),
        ("ns/good.txt", "ok"),
    ]);
    let ctx = RenderContext::new();
    let rules = vec![];
    match process_namespace(&store, "ns", &rules, &ctx) {
        Err(ProcessError::RenderFailed { path, cause }) => {
            assert_eq!(path, "ns/bad.txt.tmpl");
            assert_eq!(cause, RenderError::UndefinedKey);
        }
        other => panic!("expected a render failure, got {:?}", other),
    }
}

#[test]
fn end_to_end_two_file_namespace() {
    let store = store_of(&[
        ("ns/config.json", "{}"),
        ("ns/main.go.tmpl", "package {{project_name_snake}}"),
    ]);
    let ctx = ctx_of(&[
        ("project_name", CtxValue::Str("My App".to_string())),
        ("project_name_snake", CtxValue::Str("my_app".to_string())),
    ]);
    let rules = vec![];
    let outs = process_namespace(&store, "ns", &rules, &ctx).unwrap();
    assert_eq!(outs.len(), 2);
    assert_eq!(outs[0].path, "config.json");
    assert_eq!(outs[0].content, "{}");
    assert_eq!(outs[1].path, "main.go");
    assert_eq!(outs[1].content, "package my_app");
}

#[test]
fn single_file_processing_reads_and_renders() {
    let store = store_of(&[("licenses/MIT.tmpl", "MIT for {{project_name}}")]);
    let processor = TemplateProcessor::new();
    let ctx = ctx_of(&[("project_name", CtxValue::Str("demo".to_string()))]);
    assert_eq!(
        processor
            .process_template_file(&store, "licenses/MIT.tmpl", &ctx)
            .unwrap(),
        "MIT for demo"
    );
    match processor.process_template_file(&store, "licenses/GPL-3.0.tmpl", &ctx) {
        Err(ProcessError::TemplateNotFound { path }) => {
            assert_eq!(path, "licenses/GPL-3.0.tmpl")
        }
        other => panic!("expected a missing template, got {:?}", other),
    }
    assert!(processor.template_exists(&store, "licenses"));
    assert!(processor.template_exists(&store, "licenses/MIT.tmpl"));
    assert!(!processor.template_exists(&store, "licenses/MIT"));
}
