use scafgen::context::{CtxValue, RenderContext};
use scafgen::render::{render, value_text};
use scafgen::store::{str_lt, TemplateStore};

#[test]
fn entries_must_arrive_in_ascending_path_order() {
    let mut store = TemplateStore::new();
    assert!(store.add("a/one.txt".to_string(), "1".to_string()));
    assert!(store.add("b/two.txt".to_string(), "2".to_string()));
    assert!(!store.add("a/zero.txt".to_string(), "0".to_string()));
    assert!(!store.add("b/two.txt".to_string(), "again".to_string()));
    assert_eq!(store.len(), 2);
}

#[test]
fn read_finds_exact_paths_only() {
    let mut store = TemplateStore::new();
    assert!(store.add("ns/file.txt".to_string(), "content".to_string()));
    assert_eq!(store.read("ns/file.txt").map(|s| s.as_str()), Some("content"));
    assert!(store.read("ns/file").is_none());
    assert!(store.read("ns").is_none());
}

#[test]
fn list_files_keeps_lexical_order_and_filters_by_directory() {
    let mut store = TemplateStore::new();
    assert!(store.add("a/x.txt".to_string(), "".to_string()));
    assert!(store.add("ab/y.txt".to_string(), "".to_string()));
    assert!(store.add("b/z.txt".to_string(), "".to_string()));
    let under_a = store.list_files("a");
    assert_eq!(under_a, vec!["a/x.txt".to_string()]);
    let all = store.list_files("");
    assert_eq!(
        all,
        vec!["a/x.txt".to_string(), "ab/y.txt".to_string(), "b/z.txt".to_string()]
    );
    assert!(store.list_files("c").is_empty());
}

#[test]
fn contains_path_sees_files_and_directories() {
    let mut store = TemplateStore::new();
    assert!(store.add("project/readme.md".to_string(), "".to_string()));
    assert!(store.contains_path("project"));
    assert!(store.contains_path("project/readme.md"));
    assert!(!store.contains_path("proj"));
    assert!(!store.contains_path("project/readme"));
}

#[test]
fn lexical_order_is_by_code_point() {
    assert!(str_lt("a", "b"));
    assert!(str_lt("a", "ab"));
    assert!(!str_lt("b", "ab"));
    assert!(!str_lt("same", "same"));
    assert!(str_lt("A", "a"));
}

#[test]
fn context_insert_overwrites_and_merge_prefers_right() {
    let mut a = RenderContext::new();
    a.insert("k", CtxValue::Str("left".to_string()));
    a.insert("only_a", CtxValue::Int(1));
    a.insert("k", CtxValue::Str("left2".to_string()));
    let mut b = RenderContext::new();
    b.insert("k", CtxValue::Str("right".to_string()));
    b.insert("only_b", CtxValue::Int(2));
    a.merge(&b);
    assert_eq!(render("{{k}} {{only_a}} {{only_b}}", &a).unwrap(), "right 1 2");
    assert!(a.get("missing").is_none());
    assert_eq!(a.get_bool("only_b"), None);
    assert_eq!(a.get("k").map(value_text), Some("right".to_string()));
}

#[test]
fn merge_layers_applies_last_write_wins_in_order() {
    let mut base = RenderContext::new();
    base.insert("host", CtxValue::Str("0.0.0.0".to_string()));
    base.insert("port", CtxValue::Int(8080));
    let mut framework = RenderContext::new();
    framework.insert("port", CtxValue::Int(1420));
    let merged = scafgen::context::merge_layers(&vec![base, framework]);
    assert_eq!(render("{{host}}:{{port}}", &merged).unwrap(), "0.0.0.0:1420");
}
