use scafgen::context::{CtxValue, RenderContext};
use scafgen::errors::RenderError;
use scafgen::render::{helper_camel, helper_snake, join_comma, render, u64_text, TemplateEngine};

fn ctx_with(entries: &[(&str, CtxValue)]) -> RenderContext {
    let mut ctx = RenderContext::new();
    for (k, v) in entries {
        ctx.insert(k, scafgen::context::clone_value(v));
    }
    ctx
}

#[test]
fn static_text_is_returned_unchanged() {
    let ctx = ctx_with(&[("unused", CtxValue::Bool(true))]);
    let text = "plain text, no placeholders; even a stray }} is fine\n";
    assert_eq!(render(text, &ctx).unwrap(), text);
    let empty = RenderContext::new();
    assert_eq!(render(text, &empty).unwrap(), text);
}

#[test]
fn variables_are_substituted() {
    let ctx = ctx_with(&[("project_name", CtxValue::Str("demo".to_string()))]);
    assert_eq!(render("hello {{project_name}}!", &ctx).unwrap(), "hello demo!");
    assert_eq!(render("{{ project_name }}", &ctx).unwrap(), "demo");
}

#[test]
fn values_render_by_kind() {
    let ctx = ctx_with(&[
        ("flag", CtxValue::Bool(true)),
        ("off", CtxValue::Bool(false)),
        ("port", CtxValue::Int(8080)),
        (
            "tags",
            CtxValue::StrList(vec!["a".to_string(), "b".to_string()]),
        ),
    ]);
    assert_eq!(render("{{flag}}/{{off}}/{{port}}", &ctx).unwrap(), "true/false/8080");
    assert_eq!(render("{{tags}}", &ctx).unwrap(), "a,b");
}

#[test]
fn helpers_transform_values() {
    let ctx = ctx_with(&[("name", CtxValue::Str("my-app".to_string()))]);
    assert_eq!(render("{{to_camel_case name}}", &ctx).unwrap(), "myApp");
    assert_eq!(render("{{to_snake_case name}}", &ctx).unwrap(), "my_app");
    let ctx = ctx_with(&[("name", CtxValue::Str("hello_world".to_string()))]);
    assert_eq!(render("{{to_camel_case name}}", &ctx).unwrap(), "helloWorld");
}

#[test]
fn undefined_key_is_rejected() {
    let ctx = ctx_with(&[("present", CtxValue::Int(1))]);
    assert_eq!(
        render("before {{undefined_key}} after", &ctx),
        Err(RenderError::UndefinedKey)
    );
}

#[test]
fn unbalanced_and_malformed_placeholders_are_rejected() {
    let ctx = RenderContext::new();
    assert_eq!(render("oops {{never closed", &ctx), Err(RenderError::UnbalancedDelimiters));
    assert_eq!(render("{{}}", &ctx), Err(RenderError::MalformedPlaceholder));
    assert_eq!(render("{{   }}", &ctx), Err(RenderError::MalformedPlaceholder));
    assert_eq!(render("{{a b c}}", &ctx), Err(RenderError::MalformedPlaceholder));
}

#[test]
fn unknown_helper_is_rejected() {
    let ctx = ctx_with(&[("name", CtxValue::Str("x".to_string()))]);
    assert_eq!(render("{{shout name}}", &ctx), Err(RenderError::UnknownHelper));
}

#[test]
fn engine_is_reusable_across_contexts() {
    let engine = TemplateEngine::new();
    let a = ctx_with(&[("k", CtxValue::Str("one".to_string()))]);
    let b = ctx_with(&[("k", CtxValue::Str("two".to_string()))]);
    assert_eq!(engine.render_template_content("{{k}}", &a).unwrap(), "one");
    assert_eq!(engine.render_template_content("{{k}}", &b).unwrap(), "two");
    assert_eq!(engine.render_template_content("{{k}}", &a).unwrap(), "one");
}

#[test]
fn helper_functions_directly() {
    assert_eq!(helper_camel("foo-bar"), "fooBar");
    assert_eq!(helper_camel("foo_bar-baz"), "fooBarBaz");
    assert_eq!(helper_camel("fooBAR-baz"), "foobarBaz");
    assert_eq!(helper_snake("My-App"), "my_app");
    assert_eq!(u64_text(0), "0");
    assert_eq!(u64_text(65535), "65535");
    assert_eq!(join_comma(&vec!["x".to_string()]), "x");
    assert_eq!(join_comma(&vec![]), "");
}
