use scafgen::context::{CtxValue, RenderContext};
use scafgen::processor::SkipRule;
use scafgen::scaffold::{PostProcessor, Scaffold};
use scafgen::store::TemplateStore;

#[test]
fn scaffold_builder_collects_everything_and_processes() {
    let mut store = TemplateStore::new();
    assert!(store.add("ns/app.cfg.tmpl".to_string(), "name={{name}}".to_string()));
    let mut params = RenderContext::new();
    params.insert("name", CtxValue::Str("demo".to_string()));
    let step = PostProcessor::command(
        "git".to_string(),
        vec!["init".to_string()],
        "Initializing Git repository".to_string(),
    );
    let scaffold = Scaffold::new("ns".to_string())
        .output_to("/tmp/demo".to_string())
        .with_params(params)
        .with_param("extra", CtxValue::Int(1))
        .with_post_processor(step);
    let rules: Vec<SkipRule> = vec![];
    let processed = scaffold.process(&store, &rules).unwrap();
    assert_eq!(processed.output_path(), "/tmp/demo");
    assert_eq!(processed.outputs.len(), 1);
    assert_eq!(processed.outputs[0].path, "app.cfg");
    assert_eq!(processed.outputs[0].content, "name=demo");
    assert_eq!(processed.post_processors.len(), 1);
    let completed = processed.mark_complete();
    assert_eq!(completed.output_path(), "/tmp/demo");
}

#[test]
fn scaffold_without_output_path_defaults_to_working_directory() {
    let store = TemplateStore::new();
    let rules: Vec<SkipRule> = vec![];
    let processed = Scaffold::new("ns".to_string()).process(&store, &rules).unwrap();
    assert_eq!(processed.output_path(), "");
    assert!(processed.outputs.is_empty());
}
