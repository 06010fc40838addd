//! The tree processor: walks one namespace of the template store, applies
//! the namespace's skip rules to each file, strips the `.tmpl` marker
//! suffix, and either renders the file against the context or keeps its
//! bytes unchanged, producing the complete output tree of the namespace.
//! The first failing file aborts the run with its path and cause.

use vstd::prelude::*;

use crate::context::{CtxValueV, RenderContext};
use crate::errors::RenderError;
use crate::render::{render, spec_render};
use crate::store::{path_under_namespace, path_under_namespace_exec, TemplateEntryV, TemplateStore};
use crate::text::{
    file_name, file_name_of, spec_contains_sub, spec_ends_with, spec_starts_with, str_contains,
    str_ends_with, str_eq, str_starts_with,
};

verus! {

/// One materialized file of the output tree: a destination path relative
/// to the output root, and its final content.
#[derive(Debug)]
pub struct OutputFile {
    /// The destination path, marker suffix stripped.
    pub path: String,
    /// The final content: rendered text, or the stored bytes unchanged.
    pub content: String,
}

/// The mathematical shape of an output file.
pub struct OutputFileV {
    pub path: Seq<char>,
    pub content: Seq<char>,
}

impl View for OutputFile {
    type V = OutputFileV;

    open spec fn view(&self) -> OutputFileV {
        OutputFileV { path: self.path@, content: self.content@ }
    }
}

impl DeepView for OutputFile {
    type V = OutputFileV;

    open spec fn deep_view(&self) -> OutputFileV {
        self.view()
    }
}

/// A failure while computing the output tree.
#[derive(Debug)]
pub enum ProcessError {
    /// The requested namespace or file is absent from the store.
    TemplateNotFound { path: String },
    /// A template failed to render; the path names the failing file.
    RenderFailed { path: String, cause: RenderError },
}

/// The mathematical shape of a processing failure.
pub enum ProcessErrorV {
    TemplateNotFound { path: Seq<char> },
    RenderFailed { path: Seq<char>, cause: RenderError },
}

impl View for ProcessError {
    type V = ProcessErrorV;

    open spec fn view(&self) -> ProcessErrorV {
        match self {
            ProcessError::TemplateNotFound { path } => ProcessErrorV::TemplateNotFound {
                path: path@,
            },
            ProcessError::RenderFailed { path, cause } => ProcessErrorV::RenderFailed {
                path: path@,
                cause: *cause,
            },
        }
    }
}

/// A feature-gating rule: a file the active namespace excludes from the
/// output when the governing flag is off.  A file is skipped when any
/// registered rule matches; the rules are boolean, so their order never
/// matters.
#[derive(Clone, Copy, Debug, PartialEq, Eq, Structural)]
pub enum SkipRule {
    /// Skips the pre-commit configuration file when `enable_precommit`
    /// is false.
    PrecommitConfig,
    /// Skips Swagger artifacts and the generated docs entrypoint when
    /// `enable_swagger` is false.
    SwaggerDocs,
    /// Skips the proto-generation tooling subtree when
    /// `enable_proto_gen` is false.
    ProtoGenTools,
}

/// Whether `rule` excludes the file at namespace-relative path `rel`
/// under context `ctx`.
pub open spec fn spec_rule_matches(
    rule: SkipRule,
    rel: Seq<char>,
    ctx: Map<Seq<char>, CtxValueV>,
) -> bool {
    match rule {
        SkipRule::PrecommitConfig => ctx.contains_key("enable_precommit"@)
            && ctx["enable_precommit"@] == CtxValueV::Bool(false) && (file_name_of(rel)
            == ".pre-commit-config.yaml.tmpl"@ || file_name_of(rel)
            == ".pre-commit-config.yaml"@),
        SkipRule::SwaggerDocs => ctx.contains_key("enable_swagger"@) && ctx["enable_swagger"@]
            == CtxValueV::Bool(false) && (spec_contains_sub(file_name_of(rel), "swagger"@)
            || spec_starts_with(file_name_of(rel), "docs.go"@)),
        SkipRule::ProtoGenTools => ctx.contains_key("enable_proto_gen"@)
            && ctx["enable_proto_gen"@] == CtxValueV::Bool(false) && (spec_starts_with(
            rel,
            "tools/proto-gen"@,
        ) || spec_starts_with(rel, "protos/"@) || spec_contains_sub(rel, "/protos/"@) || rel
            == "Makefile.tmpl"@ || rel == "Makefile"@),
    }
}

/// Decides `spec_rule_matches`.
pub fn rule_matches(rule: &SkipRule, rel: &str, ctx: &RenderContext) -> (r: bool)
    requires
        ctx.wf(),
    ensures
        r == spec_rule_matches(*rule, rel@, ctx@),
{
    match rule {
        SkipRule::PrecommitConfig => {
            match ctx.get_bool("enable_precommit") {
                Some(false) => {
                    let name = file_name(rel);
                    str_eq(name.as_str(), ".pre-commit-config.yaml.tmpl") || str_eq(
                        name.as_str(),
                        ".pre-commit-config.yaml",
                    )
                },
                _ => false,
            }
        },
        SkipRule::SwaggerDocs => {
            match ctx.get_bool("enable_swagger") {
                Some(false) => {
                    let name = file_name(rel);
                    str_contains(name.as_str(), "swagger") || str_starts_with(
                        name.as_str(),
                        "docs.go",
                    )
                },
                _ => false,
            }
        },
        SkipRule::ProtoGenTools => {
            match ctx.get_bool("enable_proto_gen") {
                Some(false) => str_starts_with(rel, "tools/proto-gen") || str_starts_with(
                    rel,
                    "protos/",
                ) || str_contains(rel, "/protos/") || str_eq(rel, "Makefile.tmpl") || str_eq(
                    rel,
                    "Makefile",
                ),
                _ => false,
            }
        },
    }
}

/// Whether any rule of the namespace excludes the file at `rel`.
pub open spec fn spec_skipped(
    rules: Seq<SkipRule>,
    rel: Seq<char>,
    ctx: Map<Seq<char>, CtxValueV>,
) -> bool {
    exists|i: int| 0 <= i < rules.len() && spec_rule_matches(#[trigger] rules[i], rel, ctx)
}

/// Decides `spec_skipped`.
pub fn skipped(rules: &Vec<SkipRule>, rel: &str, ctx: &RenderContext) -> (r: bool)
    requires
        ctx.wf(),
    ensures
        r == spec_skipped(rules@, rel@, ctx@),
{
    let n = rules.len();
    let mut i: usize = 0;
    while i < n
        invariant
            0 <= i <= n,
            n == rules@.len(),
            ctx.wf(),
            forall|j: int| 0 <= j < i ==> !spec_rule_matches(#[trigger] rules@[j], rel@, ctx@),
        decreases n - i,
    {
        if rule_matches(&rules[i], rel, ctx) {
            return true;
        }
        i = i + 1;
    }
    false
}

/// A renderable file: its name carries the `.tmpl` marker suffix.
pub open spec fn is_template_name(p: Seq<char>) -> bool {
    spec_ends_with(p, ".tmpl"@)
}

/// The destination path of a stored file: the marker suffix is stripped,
/// any other name is kept unchanged.
pub open spec fn spec_output_name(rel: Seq<char>) -> Seq<char> {
    if is_template_name(rel) {
        rel.take((rel.len() - ".tmpl"@.len()) as int)
    } else {
        rel
    }
}

/// Computes the destination path of a stored file.
pub fn output_name(rel: &str) -> (r: String)
    ensures
        r@ == spec_output_name(rel@),
{
    if str_ends_with(rel, ".tmpl") {
        let n = rel.unicode_len();
        proof {
            reveal_strlit(".tmpl");
        }
        let stripped = rel.substring_char(0, n - 5);
        proof {
            assert(stripped@ =~= rel@.take((rel@.len() - ".tmpl"@.len()) as int));
        }
        stripped.to_owned()
    } else {
        rel.to_owned()
    }
}

/// The namespace-relative form of a stored path: the namespace prefix and
/// its slash are removed; under the empty namespace the path is kept.
pub open spec fn spec_rel_path(path: Seq<char>, ns: Seq<char>) -> Seq<char> {
    if ns.len() == 0 {
        path
    } else {
        path.skip(ns.len() as int + 1)
    }
}

/// Computes the namespace-relative form of a stored path.
pub fn rel_path(path: &str, ns: &str) -> (r: String)
    requires
        path_under_namespace(path@, ns@),
    ensures
        r@ == spec_rel_path(path@, ns@),
{
    let m = ns.unicode_len();
    if m == 0 {
        return path.to_owned();
    }
    let n = path.unicode_len();
    let stripped = path.substring_char(m + 1, n);
    proof {
        assert(stripped@ =~= path@.skip(ns@.len() as int + 1));
    }
    stripped.to_owned()
}

/// The output tree of one namespace: every stored file under `ns` that no
/// rule skips yields exactly one output file, templates rendered against
/// `ctx` and static files copied unchanged, in the store's listing order;
/// the first failing template aborts the whole run with its path.
pub open spec fn spec_process(
    entries: Seq<TemplateEntryV>,
    ns: Seq<char>,
    rules: Seq<SkipRule>,
    ctx: Map<Seq<char>, CtxValueV>,
) -> Result<Seq<OutputFileV>, ProcessErrorV>
    decreases entries.len(),
{
    if entries.len() == 0 {
        Ok(Seq::empty())
    } else {
        let e = entries[0];
        let restr = spec_process(entries.skip(1), ns, rules, ctx);
        if !path_under_namespace(e.path, ns) {
            restr
        } else {
            let rel = spec_rel_path(e.path, ns);
            if spec_skipped(rules, rel, ctx) {
                restr
            } else if is_template_name(rel) {
                match spec_render(e.content, ctx) {
                    Err(cause) => Err(ProcessErrorV::RenderFailed { path: e.path, cause }),
                    Ok(text) => match restr {
                        Err(pe) => Err(pe),
                        Ok(outs) => Ok(
                            seq![OutputFileV { path: spec_output_name(rel), content: text }] + outs,
                        ),
                    },
                }
            } else {
                match restr {
                    Err(pe) => Err(pe),
                    Ok(outs) => Ok(seq![OutputFileV { path: rel, content: e.content }] + outs),
                }
            }
        }
    }
}

/// Prefixing a processing result with already-computed output files.
pub open spec fn process_prepend(
    acc: Seq<OutputFileV>,
    r: Result<Seq<OutputFileV>, ProcessErrorV>,
) -> Result<Seq<OutputFileV>, ProcessErrorV> {
    match r {
        Ok(outs) => Ok(acc + outs),
        Err(e) => Err(e),
    }
}

/// Computes the output tree of the namespace `ns` of `store`: for every
/// stored file under `ns` that no rule of `rules` skips, one output file,
/// templates rendered against `ctx` and static files copied unchanged.
#[verifier::rlimit(60)]
pub fn process_namespace(
    store: &TemplateStore,
    ns: &str,
    rules: &Vec<SkipRule>,
    ctx: &RenderContext,
) -> (r: Result<Vec<OutputFile>, ProcessError>)
    requires
        ctx.wf(),
    ensures
        match r {
            Ok(outs) => spec_process(store@, ns@, rules@, ctx@) == Ok::<
                Seq<OutputFileV>,
                ProcessErrorV,
            >(outs.deep_view()),
            Err(e) => spec_process(store@, ns@, rules@, ctx@) == Err::<
                Seq<OutputFileV>,
                ProcessErrorV,
            >(e@),
        },
{
    let n = store.len();
    let mut out: Vec<OutputFile> = Vec::new();
    let mut i: usize = 0;
    proof {
        assert(store@.skip(0) =~= store@);
        assert(out.deep_view() =~= Seq::<OutputFileV>::empty());
        match spec_process(store@, ns@, rules@, ctx@) {
            Ok(outs) => {
                assert(Seq::<OutputFileV>::empty() + outs =~= outs);
            },
            Err(_) => {},
        }
    }
    while i < n
        invariant
            0 <= i <= n,
            n == store@.len(),
            ctx.wf(),
            process_prepend(out.deep_view(), spec_process(store@.skip(i as int), ns@, rules@, ctx@))
                == spec_process(store@, ns@, rules@, ctx@),
        decreases n - i,
    {
        let ghost suffix = store@.skip(i as int);
        proof {
            assert(suffix[0] == store@[i as int]);
            assert(suffix.skip(1) =~= store@.skip(i + 1));
        }
        let entry = store.entry_at(i);
        if path_under_namespace_exec(entry.path.as_str(), ns) {
            let rel = rel_path(entry.path.as_str(), ns);
            if !skipped(rules, rel.as_str(), ctx) {
                if str_ends_with(rel.as_str(), ".tmpl") {
                    match render(entry.content.as_str(), ctx) {
                        Err(cause) => {
                            return Err(
                                ProcessError::RenderFailed { path: entry.path.clone(), cause },
                            );
                        },
                        Ok(text) => {
                            let ghost prev = out.deep_view();
                            let o = OutputFile { path: output_name(rel.as_str()), content: text };
                            let ghost ov = o@;
                            out.push(o);
                            proof {
                                assert(out.deep_view() =~= prev.push(ov));
                                match spec_process(store@.skip(i + 1), ns@, rules@, ctx@) {
                                    Ok(outs) => {
                                        assert(prev + (seq![ov] + outs) =~= prev.push(ov) + outs);
                                    },
                                    Err(_) => {},
                                }
                            }
                        },
                    }
                } else {
                    let ghost prev = out.deep_view();
                    let o = OutputFile { path: rel, content: entry.content.clone() };
                    let ghost ov = o@;
                    out.push(o);
                    proof {
                        assert(out.deep_view() =~= prev.push(ov));
                        match spec_process(store@.skip(i + 1), ns@, rules@, ctx@) {
                            Ok(outs) => {
                                assert(prev + (seq![ov] + outs) =~= prev.push(ov) + outs);
                            },
                            Err(_) => {},
                        }
                    }
                }
            }
        }
        i = i + 1;
    }
    proof {
        assert(store@.skip(n as int).len() == 0);
        match spec_process(store@, ns@, rules@, ctx@) {
            Ok(outs) => {
                assert(out.deep_view() + Seq::<OutputFileV>::empty() =~= out.deep_view());
            },
            Err(_) => {},
        }
    }
    Ok(out)
}

/// What rendering one stored file returns: the rendered text, the
/// not-found error for an absent path, or the render failure with the
/// file's path.
pub open spec fn spec_process_file(
    entries: Seq<TemplateEntryV>,
    path: Seq<char>,
    ctx: Map<Seq<char>, CtxValueV>,
) -> Result<Seq<char>, ProcessErrorV> {
    match crate::store::spec_store_read(entries, path) {
        None => Err(ProcessErrorV::TemplateNotFound { path }),
        Some(content) => match spec_render(content, ctx) {
            Err(cause) => Err(ProcessErrorV::RenderFailed { path, cause }),
            Ok(text) => Ok(text),
        },
    }
}

/// The façade over the renderer and the store walk that the generators
/// share.
pub struct TemplateProcessor {
    engine: crate::render::TemplateEngine,
}

impl TemplateProcessor {
    /// A processor with the rendering engine constructed once.
    pub fn new() -> (r: TemplateProcessor) {
        TemplateProcessor { engine: crate::render::TemplateEngine::new() }
    }

    /// Computes the output tree of one namespace; see `process_namespace`.
    pub fn process_template_directory(
        &self,
        store: &TemplateStore,
        namespace: &str,
        rules: &Vec<SkipRule>,
        context: &RenderContext,
    ) -> (r: Result<Vec<OutputFile>, ProcessError>)
        requires
            context.wf(),
        ensures
            match r {
                Ok(outs) => spec_process(store@, namespace@, rules@, context@) == Ok::<
                    Seq<OutputFileV>,
                    ProcessErrorV,
                >(outs.deep_view()),
                Err(e) => spec_process(store@, namespace@, rules@, context@) == Err::<
                    Seq<OutputFileV>,
                    ProcessErrorV,
                >(e@),
            },
    {
        process_namespace(store, namespace, rules, context)
    }

    /// Renders the single stored file at `template_path` against the
    /// context, as license generation does.
    pub fn process_template_file(
        &self,
        store: &TemplateStore,
        template_path: &str,
        context: &RenderContext,
    ) -> (r: Result<String, ProcessError>)
        requires
            context.wf(),
        ensures
            match r {
                Ok(text) => spec_process_file(store@, template_path@, context@) == Ok::<
                    Seq<char>,
                    ProcessErrorV,
                >(text@),
                Err(e) => spec_process_file(store@, template_path@, context@) == Err::<
                    Seq<char>,
                    ProcessErrorV,
                >(e@),
            },
    {
        match store.read(template_path) {
            None => Err(ProcessError::TemplateNotFound { path: template_path.to_owned() }),
            Some(content) => match render(content.as_str(), context) {
                Err(cause) => Err(
                    ProcessError::RenderFailed { path: template_path.to_owned(), cause },
                ),
                Ok(text) => Ok(text),
            },
        }
    }

    /// Renders one template text against a context.
    pub fn render_template_content(&self, template_content: &str, context: &RenderContext) -> (r:
        Result<String, RenderError>)
        requires
            context.wf(),
        ensures
            match r {
                Ok(s) => spec_render(template_content@, context@) == Ok::<Seq<char>, RenderError>(
                    s@,
                ),
                Err(e) => spec_render(template_content@, context@) == Err::<Seq<char>, RenderError>(
                    e,
                ),
            },
    {
        self.engine.render_template_content(template_content, context)
    }

    /// Whether a template or a directory of templates is stored at
    /// `relative_path`.
    pub fn template_exists(&self, store: &TemplateStore, relative_path: &str) -> (r: bool)
        ensures
            r == exists|i: int|
                0 <= i < store@.len() && crate::store::path_in_namespace(
                    #[trigger] store@[i].path,
                    relative_path@,
                ),
    {
        store.contains_path(relative_path)
    }
}

/// Law: processing is a pure function of the store listing, the
/// namespace, the rules and the context.  Two runs over equal stores and
/// equal contexts compute equal output trees, so re-running against a
/// fresh output directory produces a byte-identical tree.
pub proof fn lemma_process_deterministic(
    entries_a: Seq<TemplateEntryV>,
    entries_b: Seq<TemplateEntryV>,
    ns: Seq<char>,
    rules: Seq<SkipRule>,
    ctx_a: Map<Seq<char>, CtxValueV>,
    ctx_b: Map<Seq<char>, CtxValueV>,
)
    requires
        entries_a == entries_b,
        ctx_a == ctx_b,
    ensures
        spec_process(entries_a, ns, rules, ctx_a) == spec_process(entries_b, ns, rules, ctx_b),
{
}

/// One output file answers for one stored entry: same destination path,
/// rendered content for a template and identical content for a static
/// file.
pub open spec fn output_matches_entry(
    out: OutputFileV,
    e: TemplateEntryV,
    ns: Seq<char>,
    ctx: Map<Seq<char>, CtxValueV>,
) -> bool {
    let rel = spec_rel_path(e.path, ns);
    out.path == spec_output_name(rel) && (if is_template_name(rel) {
        spec_render(e.content, ctx) == Ok::<Seq<char>, RenderError>(out.content)
    } else {
        out.content == e.content
    })
}

/// Law: in a successful run, every stored file under the namespace that
/// no rule skips has an output file: its destination path is the relative
/// path with the marker stripped, its content the rendered text for a
/// template and the stored bytes unchanged for a static file.
pub proof fn lemma_entry_in_output(
    entries: Seq<TemplateEntryV>,
    ns: Seq<char>,
    rules: Seq<SkipRule>,
    ctx: Map<Seq<char>, CtxValueV>,
    outs: Seq<OutputFileV>,
    i: int,
)
    requires
        spec_process(entries, ns, rules, ctx) == Ok::<Seq<OutputFileV>, ProcessErrorV>(outs),
        0 <= i < entries.len(),
        path_under_namespace(entries[i].path, ns),
        !spec_skipped(rules, spec_rel_path(entries[i].path, ns), ctx),
    ensures
        exists|k: int|
            0 <= k < outs.len() && output_matches_entry(#[trigger] outs[k], entries[i], ns, ctx),
    decreases entries.len(),
{
    let e = entries[0];
    let restr = spec_process(entries.skip(1), ns, rules, ctx);
    let head_produces = path_under_namespace(e.path, ns) && !spec_skipped(
        rules,
        spec_rel_path(e.path, ns),
        ctx,
    );
    if i == 0 {
        let rel = spec_rel_path(e.path, ns);
        if is_template_name(rel) {
            let text = spec_render(e.content, ctx)->Ok_0;
            assert(outs[0] == OutputFileV { path: spec_output_name(rel), content: text });
            assert(output_matches_entry(outs[0], entries[0], ns, ctx));
        } else {
            assert(outs[0] == OutputFileV { path: rel, content: e.content });
            assert(output_matches_entry(outs[0], entries[0], ns, ctx));
        }
    } else {
        assert(entries.skip(1)[i - 1] == entries[i]);
        if head_produces {
            let rel = spec_rel_path(e.path, ns);
            let tail_outs = outs.skip(1);
            if is_template_name(rel) {
                let text = spec_render(e.content, ctx)->Ok_0;
                assert(seq![OutputFileV { path: spec_output_name(rel), content: text }] + (
                restr->Ok_0) == outs);
                assert(tail_outs =~= restr->Ok_0);
            } else {
                assert(seq![OutputFileV { path: rel, content: e.content }] + (restr->Ok_0)
                    == outs);
                assert(tail_outs =~= restr->Ok_0);
            }
            lemma_entry_in_output(entries.skip(1), ns, rules, ctx, tail_outs, i - 1);
            let k = choose|k: int|
                0 <= k < tail_outs.len() && output_matches_entry(
                    #[trigger] tail_outs[k],
                    entries.skip(1)[i - 1],
                    ns,
                    ctx,
                );
            assert(outs[k + 1] == tail_outs[k]);
            assert(output_matches_entry(outs[k + 1], entries[i], ns, ctx));
        } else {
            assert(restr == Ok::<Seq<OutputFileV>, ProcessErrorV>(outs));
            lemma_entry_in_output(entries.skip(1), ns, rules, ctx, outs, i - 1);
        }
    }
}

/// Law: when the context holds `enable_precommit = false` and the
/// namespace registers the pre-commit rule, no file of a successful
/// output tree is named `.pre-commit-config.yaml`.
pub proof fn lemma_precommit_excluded(
    entries: Seq<TemplateEntryV>,
    ns: Seq<char>,
    rules: Seq<SkipRule>,
    ctx: Map<Seq<char>, CtxValueV>,
    outs: Seq<OutputFileV>,
)
    requires
        ctx.contains_key("enable_precommit"@),
        ctx["enable_precommit"@] == CtxValueV::Bool(false),
        rules.contains(SkipRule::PrecommitConfig),
        spec_process(entries, ns, rules, ctx) == Ok::<Seq<OutputFileV>, ProcessErrorV>(outs),
    ensures
        forall|k: int|
            0 <= k < outs.len() ==> file_name_of(#[trigger] outs[k].path)
                != ".pre-commit-config.yaml"@,
    decreases entries.len(),
{
    if entries.len() == 0 {
    } else {
        let e = entries[0];
        let restr = spec_process(entries.skip(1), ns, rules, ctx);
        if !path_under_namespace(e.path, ns) {
            lemma_precommit_excluded(entries.skip(1), ns, rules, ctx, outs);
        } else {
            let rel = spec_rel_path(e.path, ns);
            if spec_skipped(rules, rel, ctx) {
                lemma_precommit_excluded(entries.skip(1), ns, rules, ctx, outs);
            } else {
                let i0 = choose|i0: int| 0 <= i0 < rules.len() && rules[i0]
                    == SkipRule::PrecommitConfig;
                assert(!spec_rule_matches(rules[i0], rel, ctx));
                assert(file_name_of(rel) != ".pre-commit-config.yaml.tmpl"@);
                assert(file_name_of(rel) != ".pre-commit-config.yaml"@);
                let head = if is_template_name(rel) {
                    OutputFileV {
                        path: spec_output_name(rel),
                        content: spec_render(e.content, ctx)->Ok_0,
                    }
                } else {
                    OutputFileV { path: rel, content: e.content }
                };
                assert(outs == seq![head] + restr->Ok_0);
                assert(file_name_of(head.path) != ".pre-commit-config.yaml"@) by {
                    if is_template_name(rel) {
                        lemma_marker_preserves_file_name(rel);
                        if file_name_of(head.path) == ".pre-commit-config.yaml"@ {
                            proof_literal_concat();
                            assert(file_name_of(rel) == ".pre-commit-config.yaml.tmpl"@);
                        }
                    }
                }
                assert(restr == Ok::<Seq<OutputFileV>, ProcessErrorV>(outs.skip(1))) by {
                    assert(outs.skip(1) =~= restr->Ok_0);
                }
                lemma_precommit_excluded(entries.skip(1), ns, rules, ctx, outs.skip(1));
                assert forall|k: int|
                    0 <= k < outs.len() implies file_name_of(#[trigger] outs[k].path)
                    != ".pre-commit-config.yaml"@ by {
                    if k > 0 {
                        assert(outs[k] == outs.skip(1)[k - 1]);
                    }
                }
            }
        }
    }
}

/// Law: when the context holds `enable_precommit = true`, the pre-commit
/// rule skips nothing: every stored pre-commit template under the
/// namespace has its rendered output file in a successful run.
pub proof fn lemma_precommit_included(
    entries: Seq<TemplateEntryV>,
    ns: Seq<char>,
    ctx: Map<Seq<char>, CtxValueV>,
    outs: Seq<OutputFileV>,
    i: int,
)
    requires
        ctx.contains_key("enable_precommit"@),
        ctx["enable_precommit"@] == CtxValueV::Bool(true),
        spec_process(entries, ns, seq![SkipRule::PrecommitConfig], ctx) == Ok::<
            Seq<OutputFileV>,
            ProcessErrorV,
        >(outs),
        0 <= i < entries.len(),
        path_under_namespace(entries[i].path, ns),
    ensures
        exists|k: int|
            0 <= k < outs.len() && output_matches_entry(#[trigger] outs[k], entries[i], ns, ctx),
{
    let rules = seq![SkipRule::PrecommitConfig];
    let rel = spec_rel_path(entries[i].path, ns);
    assert(!spec_skipped(rules, rel, ctx)) by {
        if spec_skipped(rules, rel, ctx) {
            let j = choose|j: int|
                0 <= j < rules.len() && spec_rule_matches(#[trigger] rules[j], rel, ctx);
            assert(rules[j] == SkipRule::PrecommitConfig);
        }
    }
    lemma_entry_in_output(entries, ns, rules, ctx, outs, i);
}

/// Stripping the marker strips it from the file name too: the file name
/// of a template path is the file name of its destination plus `.tmpl`.
proof fn lemma_marker_preserves_file_name(rel: Seq<char>)
    requires
        is_template_name(rel),
    ensures
        file_name_of(rel) == file_name_of(spec_output_name(rel)) + ".tmpl"@,
{
    reveal_strlit(".tmpl");
    let stem = rel.take((rel.len() - ".tmpl"@.len()) as int);
    assert(rel =~= stem + ".tmpl"@);
    assert forall|i: int| 0 <= i < ".tmpl"@.len() implies ".tmpl"@[i] != '/' by {
        assert(".tmpl"@[0] == '.');
        assert(".tmpl"@[1] == 't');
        assert(".tmpl"@[2] == 'm');
        assert(".tmpl"@[3] == 'p');
        assert(".tmpl"@[4] == 'l');
    }
    crate::text::lemma_file_name_concat(stem, ".tmpl"@);
}

/// The pre-commit file name with the marker appended is the stored
/// pre-commit template name.
proof fn proof_literal_concat()
    ensures
        ".pre-commit-config.yaml"@ + ".tmpl"@ == ".pre-commit-config.yaml.tmpl"@,
{
    reveal_strlit(".pre-commit-config.yaml");
    reveal_strlit(".tmpl");
    reveal_strlit(".pre-commit-config.yaml.tmpl");
    assert(".pre-commit-config.yaml"@ + ".tmpl"@ =~= ".pre-commit-config.yaml.tmpl"@);
}

} // verus!
