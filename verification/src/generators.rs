//! The generators: one per namespace of the template store, each naming
//! its namespace, carrying its skip rules, computing its output tree, and
//! describing the external commands of its bootstrap and post-processing
//! steps.  The commands are data; the surrounding application executes
//! them in the output directory.

use vstd::prelude::*;

use crate::errors::ValidationError;
use crate::framework_params::{GinParams, ReactParams, TauriParams};
use crate::params::{
    spec_base_context, spec_go_context, spec_params_valid, spec_python_context, spec_rust_context,
    GoParams, ProjectParams, PythonParams, RustParams,
};
use crate::processor::{
    process_namespace, spec_process, spec_process_file, OutputFile, OutputFileV, ProcessError,
    ProcessErrorV, SkipRule, TemplateProcessor,
};
use crate::scaffold::PostProcessor;
use crate::store::{spec_namespace_present, TemplateStore};
use crate::text::{spec_contains_sub, spec_starts_with, str_contains, str_eq, str_starts_with};

verus! {

/// A failure while generating: a rejected parameter, or a failure while
/// computing the output tree.
#[derive(Debug)]
pub enum GenerateError {
    /// A malformed input parameter.
    Validation(ValidationError),
    /// A failure while computing the output tree.
    Process(ProcessError),
}

/// Appends one argument to a command's argument list.
fn push_arg(args: &mut Vec<String>, s: &str)
    ensures
        final(args).deep_view() == old(args).deep_view().push(s@),
{
    args.push(s.to_owned());
    proof {
        assert(args.deep_view() =~= old(args).deep_view().push(s@));
    }
}

/// One generator run over its namespace: an absent namespace is the
/// fatal not-found error, a packaging defect; otherwise the processed
/// output tree.
pub open spec fn spec_generate(
    entries: Seq<crate::store::TemplateEntryV>,
    ns: Seq<char>,
    rules: Seq<SkipRule>,
    ctx: Map<Seq<char>, crate::context::CtxValueV>,
) -> Result<Seq<OutputFileV>, ProcessErrorV> {
    if !spec_namespace_present(entries, ns) {
        Err(ProcessErrorV::TemplateNotFound { path: ns })
    } else {
        spec_process(entries, ns, rules, ctx)
    }
}

/// The stored path of a license template.
pub open spec fn spec_license_template_path(license: Seq<char>) -> Seq<char> {
    "licenses/"@ + license + ".tmpl"@
}

/// Computes the stored path of a license template.
pub fn license_template_path(license: &str) -> (r: String)
    ensures
        r@ == spec_license_template_path(license@),
{
    let mut p = String::from_str("licenses/");
    p.append(license);
    p.append(".tmpl");
    p
}

/// The project-level generator: the license file and the repository and
/// pre-commit steps.
#[derive(Debug)]
pub struct ProjectGenerator {}

impl ProjectGenerator {
    /// A project generator.
    pub fn new() -> (r: ProjectGenerator) {
        ProjectGenerator {  }
    }

    /// The generator's name.
    pub fn name(&self) -> (r: &'static str)
        ensures
            r@ == "project"@,
    {
        "project"
    }

    /// The namespace this generator owns.
    pub fn get_template_path(&self) -> (r: &'static str)
        ensures
            r@ == "project"@,
    {
        "project"
    }

    /// Renders the license named by the parameters into the `LICENSE`
    /// output file.  A missing license template is a hard failure.
    pub fn generate_license(&self, store: &TemplateStore, params: &ProjectParams) -> (r: Result<
        OutputFile,
        ProcessError,
    >)
        ensures
            match r {
                Ok(o) => o@.path == "LICENSE"@ && spec_process_file(
                    store@,
                    spec_license_template_path(params.base.license@),
                    spec_base_context(params.base),
                ) == Ok::<Seq<char>, ProcessErrorV>(o@.content),
                Err(e) => spec_process_file(
                    store@,
                    spec_license_template_path(params.base.license@),
                    spec_base_context(params.base),
                ) == Err::<Seq<char>, ProcessErrorV>(e@),
            },
    {
        let path = license_template_path(params.license().as_str());
        let processor = TemplateProcessor::new();
        let context = params.to_context();
        let text = processor.process_template_file(store, path.as_str(), &context)?;
        Ok(OutputFile { path: "LICENSE".to_owned(), content: text })
    }

    /// Generates the project level: validates the parameters and renders
    /// the license.
    pub fn generate(&self, store: &TemplateStore, params: &ProjectParams) -> (r: Result<
        Vec<OutputFile>,
        GenerateError,
    >)
        ensures
            match r {
                Ok(outs) => {
                    &&& spec_params_valid(params.base)
                    &&& outs.deep_view().len() == 1
                    &&& outs.deep_view()[0].path == "LICENSE"@
                    &&& spec_process_file(
                        store@,
                        spec_license_template_path(params.base.license@),
                        spec_base_context(params.base),
                    ) == Ok::<Seq<char>, ProcessErrorV>(outs.deep_view()[0].content)
                },
                Err(e) => match e {
                    GenerateError::Validation(_) => !spec_params_valid(params.base),
                    GenerateError::Process(pe) => spec_params_valid(params.base) && spec_process_file(
                        store@,
                        spec_license_template_path(params.base.license@),
                        spec_base_context(params.base),
                    ) == Err::<Seq<char>, ProcessErrorV>(pe@),
                },
            },
    {
        if let Err(e) = params.validate() {
            return Err(GenerateError::Validation(e));
        }
        match self.generate_license(store, params) {
            Err(e) => Err(GenerateError::Process(e)),
            Ok(o) => {
                let mut outs = Vec::new();
                let ghost ov = o@;
                outs.push(o);
                proof {
                    assert(outs.deep_view() =~= Seq::<OutputFileV>::empty().push(ov));
                }
                Ok(outs)
            },
        }
    }

    /// The repository-initialization step.
    pub fn init_git_repository_step(&self) -> (r: PostProcessor)
        ensures
            r@.command == "git"@,
            r@.args == seq!["init"@],
            r@.description.len() > 0,
    {
        let mut args: Vec<String> = Vec::new();
        push_arg(&mut args, "init");
        proof {
            reveal_strlit("Initializing Git repository");
            assert(args.deep_view() =~= seq!["init"@]);
        }
        PostProcessor::command("git".to_owned(), args, "Initializing Git repository".to_owned())
    }

    /// The pre-commit installation step.
    pub fn install_precommit_step(&self) -> (r: PostProcessor)
        ensures
            r@.command == "pre-commit"@,
            r@.args == seq!["install"@],
            r@.description.len() > 0,
    {
        let mut args: Vec<String> = Vec::new();
        push_arg(&mut args, "install");
        proof {
            reveal_strlit("Installing pre-commit hooks");
            assert(args.deep_view() =~= seq!["install"@]);
        }
        PostProcessor::command(
            "pre-commit".to_owned(),
            args,
            "Installing pre-commit hooks".to_owned(),
        )
    }

    /// The fallback README written when no template provides one.
    pub fn generate_readme_content(&self, params: &ProjectParams) -> (r: String)
        ensures
            r@ == "# "@ + params.base.project_name@ + "\n\n"@ + (if params.base.project_description
                is Some {
                params.base.project_description->0@
            } else {
                "No description provided"@
            }) + "\n\n## Author\n\n"@ + (if params.base.author is Some {
                params.base.author->0@
            } else {
                "Unknown"@
            }) + "\n\n## License\n\n"@ + params.base.license@ + "\n"@,
    {
        let mut out = String::from_str("# ");
        out.append(params.base.project_name.as_str());
        out.append("\n\n");
        match &params.base.project_description {
            Some(d) => out.append(d.as_str()),
            None => out.append("No description provided"),
        }
        out.append("\n\n## Author\n\n");
        match &params.base.author {
            Some(a) => out.append(a.as_str()),
            None => out.append("Unknown"),
        }
        out.append("\n\n## License\n\n");
        out.append(params.base.license.as_str());
        out.append("\n");
        out
    }
}

/// The Go language generator.
#[derive(Debug)]
pub struct GoGenerator {}

impl GoGenerator {
    /// A Go generator.
    pub fn new() -> (r: GoGenerator) {
        GoGenerator {  }
    }

    /// The generator's name.
    pub fn name(&self) -> (r: &'static str)
        ensures
            r@ == "Go Language"@,
    {
        "Go Language"
    }

    /// The namespace this generator owns.
    pub fn get_template_path(&self) -> (r: &'static str)
        ensures
            r@ == "languages/go"@,
    {
        "languages/go"
    }

    /// Computes the Go namespace's output tree: validation, the
    /// namespace-presence check, then every stored file, templates
    /// rendered against the Go layer's context.
    pub fn generate(&self, store: &TemplateStore, params: &GoParams) -> (r: Result<
        Vec<OutputFile>,
        GenerateError,
    >)
        ensures
            match r {
                Ok(outs) => spec_params_valid(params.base) && spec_generate(
                    store@,
                    "languages/go"@,
                    Seq::<SkipRule>::empty(),
                    spec_go_context(*params),
                ) == Ok::<Seq<OutputFileV>, ProcessErrorV>(outs.deep_view()),
                Err(e) => match e {
                    GenerateError::Validation(_) => !spec_params_valid(params.base),
                    GenerateError::Process(pe) => spec_params_valid(params.base) && spec_generate(
                        store@,
                        "languages/go"@,
                        Seq::<SkipRule>::empty(),
                        spec_go_context(*params),
                    ) == Err::<Seq<OutputFileV>, ProcessErrorV>(pe@),
                },
            },
    {
        if let Err(e) = params.validate() {
            return Err(GenerateError::Validation(e));
        }
        if !store.contains_path("languages/go") {
            return Err(
                GenerateError::Process(
                    ProcessError::TemplateNotFound { path: "languages/go".to_owned() },
                ),
            );
        }
        let context = params.to_context();
        let rules: Vec<SkipRule> = Vec::new();
        proof {
            assert(rules@ =~= Seq::<SkipRule>::empty());
        }
        match process_namespace(store, "languages/go", &rules, &context) {
            Ok(outs) => Ok(outs),
            Err(e) => Err(GenerateError::Process(e)),
        }
    }

    /// The `go.mod` written by hand when the toolchain is unavailable.
    pub fn go_mod_content(&self, params: &GoParams) -> (r: String)
        ensures
            r@ == "module "@ + params.base.project_name@ + "\n\ngo "@ + (if params
                .base
                .language_version is Some {
                params.base.language_version->0@
            } else {
                "1.21"@
            }) + "\n"@,
    {
        let mut out = String::from_str("module ");
        out.append(params.base.project_name.as_str());
        out.append("\n\ngo ");
        match &params.base.language_version {
            Some(v) => out.append(v.as_str()),
            None => out.append("1.21"),
        }
        out.append("\n");
        out
    }

    /// The module-initialization step.
    pub fn init_go_module_step(&self, project_name: &str) -> (r: PostProcessor)
        ensures
            r@.command == "go"@,
            r@.args == seq!["mod"@, "init"@, project_name@],
            r@.description.len() > 0,
    {
        let mut args: Vec<String> = Vec::new();
        push_arg(&mut args, "mod");
        push_arg(&mut args, "init");
        push_arg(&mut args, project_name);
        proof {
            reveal_strlit("Initializing Go module");
            assert(args.deep_view() =~= seq!["mod"@, "init"@, project_name@]);
        }
        PostProcessor::command("go".to_owned(), args, "Initializing Go module".to_owned())
    }

    /// The dependency-tidying step.
    pub fn mod_tidy_step(&self) -> (r: PostProcessor)
        ensures
            r@.command == "go"@,
            r@.args == seq!["mod"@, "tidy"@],
            r@.description.len() > 0,
    {
        let mut args: Vec<String> = Vec::new();
        push_arg(&mut args, "mod");
        push_arg(&mut args, "tidy");
        proof {
            reveal_strlit("Running go mod tidy");
            assert(args.deep_view() =~= seq!["mod"@, "tidy"@]);
        }
        PostProcessor::command("go".to_owned(), args, "Running go mod tidy".to_owned())
    }
}

/// The Python language generator.
#[derive(Debug)]
pub struct PythonGenerator {}

impl PythonGenerator {
    /// A Python generator.
    pub fn new() -> (r: PythonGenerator) {
        PythonGenerator {  }
    }

    /// The generator's name.
    pub fn name(&self) -> (r: &'static str)
        ensures
            r@ == "Python Language"@,
    {
        "Python Language"
    }

    /// The namespace this generator owns.
    pub fn get_template_path(&self) -> (r: &'static str)
        ensures
            r@ == "languages/python"@,
    {
        "languages/python"
    }

    /// Computes the Python namespace's output tree; an absent namespace
    /// is a packaging defect and fatal.
    pub fn generate(&self, store: &TemplateStore, params: &PythonParams) -> (r: Result<
        Vec<OutputFile>,
        GenerateError,
    >)
        ensures
            match r {
                Ok(outs) => spec_params_valid(params.base) && spec_generate(
                    store@,
                    "languages/python"@,
                    Seq::<SkipRule>::empty(),
                    spec_python_context(*params),
                ) == Ok::<Seq<OutputFileV>, ProcessErrorV>(outs.deep_view()),
                Err(e) => match e {
                    GenerateError::Validation(_) => !spec_params_valid(params.base),
                    GenerateError::Process(pe) => spec_params_valid(params.base) && spec_generate(
                        store@,
                        "languages/python"@,
                        Seq::<SkipRule>::empty(),
                        spec_python_context(*params),
                    ) == Err::<Seq<OutputFileV>, ProcessErrorV>(pe@),
                },
            },
    {
        if let Err(e) = params.validate() {
            return Err(GenerateError::Validation(e));
        }
        if !store.contains_path("languages/python") {
            return Err(
                GenerateError::Process(
                    ProcessError::TemplateNotFound { path: "languages/python".to_owned() },
                ),
            );
        }
        let context = params.to_context();
        let rules: Vec<SkipRule> = Vec::new();
        proof {
            assert(rules@ =~= Seq::<SkipRule>::empty());
        }
        match process_namespace(store, "languages/python", &rules, &context) {
            Ok(outs) => Ok(outs),
            Err(e) => Err(GenerateError::Process(e)),
        }
    }

    /// The project-initialization step, run with `uv`.
    pub fn init_uv_project_step(&self, project_name: &str) -> (r: PostProcessor)
        ensures
            r@.command == "uv"@,
            r@.args == seq!["init"@, "--name"@, project_name@, "."@],
            r@.description.len() > 0,
    {
        let mut args: Vec<String> = Vec::new();
        push_arg(&mut args, "init");
        push_arg(&mut args, "--name");
        push_arg(&mut args, project_name);
        push_arg(&mut args, ".");
        proof {
            reveal_strlit("Initializing Python project with uv");
            assert(args.deep_view() =~= seq!["init"@, "--name"@, project_name@, "."@]);
        }
        PostProcessor::command(
            "uv".to_owned(),
            args,
            "Initializing Python project with uv".to_owned(),
        )
    }

    /// The dependencies added to every generated Python project.
    pub fn default_dependencies(&self) -> (r: Vec<String>)
        ensures
            r.deep_view() == seq!["pydantic"@, "python-dotenv"@, "rich"@],
    {
        let mut deps: Vec<String> = Vec::new();
        push_arg(&mut deps, "pydantic");
        push_arg(&mut deps, "python-dotenv");
        push_arg(&mut deps, "rich");
        proof {
            assert(deps.deep_view() =~= seq!["pydantic"@, "python-dotenv"@, "rich"@]);
        }
        deps
    }

    /// The step adding one dependency.
    pub fn add_dependency_step(&self, dependency: &str) -> (r: PostProcessor)
        ensures
            r@.command == "uv"@,
            r@.args == seq!["add"@, dependency@],
            r@.description.len() > 0,
    {
        let mut args: Vec<String> = Vec::new();
        push_arg(&mut args, "add");
        push_arg(&mut args, dependency);
        proof {
            reveal_strlit("Adding a Python dependency");
            assert(args.deep_view() =~= seq!["add"@, dependency@]);
        }
        PostProcessor::command("uv".to_owned(), args, "Adding a Python dependency".to_owned())
    }

    /// The dependency-installation step.
    pub fn install_dependencies_step(&self) -> (r: PostProcessor)
        ensures
            r@.command == "uv"@,
            r@.args == seq!["sync"@],
            r@.description.len() > 0,
    {
        let mut args: Vec<String> = Vec::new();
        push_arg(&mut args, "sync");
        proof {
            reveal_strlit("Installing Python dependencies");
            assert(args.deep_view() =~= seq!["sync"@]);
        }
        PostProcessor::command("uv".to_owned(), args, "Installing Python dependencies".to_owned())
    }
}

/// The Rust language generator.
#[derive(Debug)]
pub struct RustGenerator {}

impl RustGenerator {
    /// A Rust generator.
    pub fn new() -> (r: RustGenerator) {
        RustGenerator {  }
    }

    /// The generator's name.
    pub fn name(&self) -> (r: &'static str)
        ensures
            r@ == "Rust Language"@,
    {
        "Rust Language"
    }

    /// The namespace this generator owns.
    pub fn get_template_path(&self) -> (r: &'static str)
        ensures
            r@ == "languages/rust"@,
    {
        "languages/rust"
    }

    /// Computes the Rust namespace's output tree; an absent namespace is
    /// a packaging defect and fatal.
    pub fn generate(&self, store: &TemplateStore, params: &RustParams) -> (r: Result<
        Vec<OutputFile>,
        GenerateError,
    >)
        ensures
            match r {
                Ok(outs) => spec_params_valid(params.base) && spec_generate(
                    store@,
                    "languages/rust"@,
                    Seq::<SkipRule>::empty(),
                    spec_rust_context(*params),
                ) == Ok::<Seq<OutputFileV>, ProcessErrorV>(outs.deep_view()),
                Err(e) => match e {
                    GenerateError::Validation(_) => !spec_params_valid(params.base),
                    GenerateError::Process(pe) => spec_params_valid(params.base) && spec_generate(
                        store@,
                        "languages/rust"@,
                        Seq::<SkipRule>::empty(),
                        spec_rust_context(*params),
                    ) == Err::<Seq<OutputFileV>, ProcessErrorV>(pe@),
                },
            },
    {
        if let Err(e) = params.validate() {
            return Err(GenerateError::Validation(e));
        }
        if !store.contains_path("languages/rust") {
            return Err(
                GenerateError::Process(
                    ProcessError::TemplateNotFound { path: "languages/rust".to_owned() },
                ),
            );
        }
        let context = params.to_context();
        let rules: Vec<SkipRule> = Vec::new();
        proof {
            assert(rules@ =~= Seq::<SkipRule>::empty());
        }
        match process_namespace(store, "languages/rust", &rules, &context) {
            Ok(outs) => Ok(outs),
            Err(e) => Err(GenerateError::Process(e)),
        }
    }

    /// The verification build run after generation.
    pub fn build_project_step(&self) -> (r: PostProcessor)
        ensures
            r@.command == "cargo"@,
            r@.args == seq!["build"@],
            r@.description.len() > 0,
    {
        let mut args: Vec<String> = Vec::new();
        push_arg(&mut args, "build");
        proof {
            reveal_strlit("Building Rust workspace project");
            assert(args.deep_view() =~= seq!["build"@]);
        }
        PostProcessor::command("cargo".to_owned(), args, "Building Rust workspace project".to_owned())
    }
}

/// The Gin web framework generator.
#[derive(Debug)]
pub struct GinGenerator {}

impl GinGenerator {
    /// A Gin generator.
    pub fn new() -> (r: GinGenerator) {
        GinGenerator {  }
    }

    /// The generator's name.
    pub fn name(&self) -> (r: &'static str)
        ensures
            r@ == "Gin"@,
    {
        "Gin"
    }

    /// The namespace this generator owns.
    pub fn get_template_path(&self) -> (r: &'static str)
        ensures
            r@ == "frameworks/go/gin"@,
    {
        "frameworks/go/gin"
    }

    /// The skip rules of the Gin namespace: Swagger artifacts and the
    /// pre-commit configuration are feature-gated.
    pub fn rules(&self) -> (r: Vec<SkipRule>)
        ensures
            r@ == seq![SkipRule::SwaggerDocs, SkipRule::PrecommitConfig],
    {
        let mut v = Vec::new();
        v.push(SkipRule::SwaggerDocs);
        v.push(SkipRule::PrecommitConfig);
        proof {
            assert(v@ =~= seq![SkipRule::SwaggerDocs, SkipRule::PrecommitConfig]);
        }
        v
    }

    /// Whether a file is a Swagger artifact to leave out when Swagger is
    /// disabled.
    pub fn should_skip_swagger_file(&self, file_name: &str, params: &GinParams) -> (r: bool)
        ensures
            r == (!params.base.enable_swagger && (spec_contains_sub(file_name@, "swagger"@)
                || spec_starts_with(file_name@, "docs.go"@))),
    {
        if !params.enable_swagger() {
            str_contains(file_name, "swagger") || str_starts_with(file_name, "docs.go")
        } else {
            false
        }
    }

    /// Whether a file is the pre-commit configuration to leave out when
    /// pre-commit is disabled.
    pub fn should_skip_precommit_file(&self, file_name: &str, params: &GinParams) -> (r: bool)
        ensures
            r == (!params.base.enable_precommit && (file_name@ == ".pre-commit-config.yaml.tmpl"@
                || file_name@ == ".pre-commit-config.yaml"@)),
    {
        if !params.enable_precommit() {
            str_eq(file_name, ".pre-commit-config.yaml.tmpl") || str_eq(
                file_name,
                ".pre-commit-config.yaml",
            )
        } else {
            false
        }
    }

    /// Computes the Gin namespace's output tree under its skip rules; an
    /// absent namespace is a packaging defect and fatal.
    pub fn generate(&self, store: &TemplateStore, params: &GinParams) -> (r: Result<
        Vec<OutputFile>,
        GenerateError,
    >)
        ensures
            match r {
                Ok(outs) => spec_params_valid(params.base) && spec_generate(
                    store@,
                    "frameworks/go/gin"@,
                    seq![SkipRule::SwaggerDocs, SkipRule::PrecommitConfig],
                    spec_base_context(params.base),
                ) == Ok::<Seq<OutputFileV>, ProcessErrorV>(outs.deep_view()),
                Err(e) => match e {
                    GenerateError::Validation(_) => !spec_params_valid(params.base),
                    GenerateError::Process(pe) => spec_params_valid(params.base) && spec_generate(
                        store@,
                        "frameworks/go/gin"@,
                        seq![SkipRule::SwaggerDocs, SkipRule::PrecommitConfig],
                        spec_base_context(params.base),
                    ) == Err::<Seq<OutputFileV>, ProcessErrorV>(pe@),
                },
            },
    {
        if let Err(e) = params.validate() {
            return Err(GenerateError::Validation(e));
        }
        if !store.contains_path("frameworks/go/gin") {
            return Err(
                GenerateError::Process(
                    ProcessError::TemplateNotFound { path: "frameworks/go/gin".to_owned() },
                ),
            );
        }
        let context = params.to_context();
        let rules = self.rules();
        match process_namespace(store, "frameworks/go/gin", &rules, &context) {
            Ok(outs) => Ok(outs),
            Err(e) => Err(GenerateError::Process(e)),
        }
    }

    /// The Swagger documentation-generation step, run after every
    /// namespace is written; it may regenerate the dependency manifest.
    pub fn swag_init_step(&self) -> (r: PostProcessor)
        ensures
            r@.command == "swag"@,
            r@.args == seq!["init"@, "-g"@, "main.go"@],
            r@.description.len() > 0,
    {
        let mut args: Vec<String> = Vec::new();
        push_arg(&mut args, "init");
        push_arg(&mut args, "-g");
        push_arg(&mut args, "main.go");
        proof {
            reveal_strlit("Generating Swagger documentation");
            assert(args.deep_view() =~= seq!["init"@, "-g"@, "main.go"@]);
        }
        PostProcessor::command(
            "swag".to_owned(),
            args,
            "Generating Swagger documentation".to_owned(),
        )
    }
}

/// The go-zero microservice framework generator.
#[derive(Debug)]
pub struct GoZeroGenerator {}

impl GoZeroGenerator {
    /// A go-zero generator.
    pub fn new() -> (r: GoZeroGenerator) {
        GoZeroGenerator {  }
    }

    /// The generator's name.
    pub fn name(&self) -> (r: &'static str)
        ensures
            r@ == "go-zero"@,
    {
        "go-zero"
    }

    /// The namespace this generator owns.
    pub fn get_template_path(&self) -> (r: &'static str)
        ensures
            r@ == "frameworks/go/go-zero"@,
    {
        "frameworks/go/go-zero"
    }

    /// Computes the go-zero namespace's output tree; an absent namespace
    /// is a packaging defect and fatal.
    pub fn generate(&self, store: &TemplateStore, params: &crate::framework_params::GoZeroParams)
        -> (r: Result<Vec<OutputFile>, GenerateError>)
        ensures
            match r {
                Ok(outs) => spec_generate(
                    store@,
                    "frameworks/go/go-zero"@,
                    seq![SkipRule::PrecommitConfig],
                    spec_base_context(params.base),
                ) == Ok::<Seq<OutputFileV>, ProcessErrorV>(outs.deep_view()),
                Err(e) => match e {
                    GenerateError::Validation(_) => false,
                    GenerateError::Process(pe) => spec_generate(
                        store@,
                        "frameworks/go/go-zero"@,
                        seq![SkipRule::PrecommitConfig],
                        spec_base_context(params.base),
                    ) == Err::<Seq<OutputFileV>, ProcessErrorV>(pe@),
                },
            },
    {
        if !store.contains_path("frameworks/go/go-zero") {
            return Err(
                GenerateError::Process(
                    ProcessError::TemplateNotFound { path: "frameworks/go/go-zero".to_owned() },
                ),
            );
        }
        let context = params.to_context();
        let mut rules: Vec<SkipRule> = Vec::new();
        rules.push(SkipRule::PrecommitConfig);
        proof {
            assert(rules@ =~= seq![SkipRule::PrecommitConfig]);
        }
        match process_namespace(store, "frameworks/go/go-zero", &rules, &context) {
            Ok(outs) => Ok(outs),
            Err(e) => Err(GenerateError::Process(e)),
        }
    }
}

/// The Tauri desktop framework generator.
#[derive(Debug)]
pub struct TauriGenerator {}

impl TauriGenerator {
    /// A Tauri generator.
    pub fn new() -> (r: TauriGenerator) {
        TauriGenerator {  }
    }

    /// The generator's name.
    pub fn name(&self) -> (r: &'static str)
        ensures
            r@ == "Tauri"@,
    {
        "Tauri"
    }

    /// The namespace this generator owns.
    pub fn get_template_path(&self) -> (r: &'static str)
        ensures
            r@ == "frameworks/rust/tauri"@,
    {
        "frameworks/rust/tauri"
    }

    /// The skip rules of the Tauri namespace: the pre-commit
    /// configuration and the proto-generation subtree are feature-gated.
    pub fn rules(&self) -> (r: Vec<SkipRule>)
        ensures
            r@ == seq![SkipRule::PrecommitConfig, SkipRule::ProtoGenTools],
    {
        let mut v = Vec::new();
        v.push(SkipRule::PrecommitConfig);
        v.push(SkipRule::ProtoGenTools);
        proof {
            assert(v@ =~= seq![SkipRule::PrecommitConfig, SkipRule::ProtoGenTools]);
        }
        v
    }

    /// Whether a file is the pre-commit configuration to leave out when
    /// pre-commit is disabled.
    pub fn should_skip_precommit_file(&self, file_name: &str, params: &TauriParams) -> (r: bool)
        ensures
            r == (!params.base.enable_precommit && (file_name@ == ".pre-commit-config.yaml.tmpl"@
                || file_name@ == ".pre-commit-config.yaml"@)),
    {
        if !params.enable_precommit() {
            str_eq(file_name, ".pre-commit-config.yaml.tmpl") || str_eq(
                file_name,
                ".pre-commit-config.yaml",
            )
        } else {
            false
        }
    }

    /// Whether a path belongs to the proto-generation tooling to leave
    /// out when proto generation is disabled.
    pub fn should_skip_proto_gen_file(&self, relative_path: &str, params: &TauriParams) -> (r:
        bool)
        ensures
            r == (!params.enable_proto_gen && (spec_starts_with(
                relative_path@,
                "tools/proto-gen"@,
            ) || spec_starts_with(relative_path@, "protos/"@) || spec_contains_sub(
                relative_path@,
                "/protos/"@,
            ) || relative_path@ == "Makefile.tmpl"@ || relative_path@ == "Makefile"@)),
    {
        if !params.enable_proto_gen() {
            str_starts_with(relative_path, "tools/proto-gen") || str_starts_with(
                relative_path,
                "protos/",
            ) || str_contains(relative_path, "/protos/") || str_eq(relative_path, "Makefile.tmpl")
                || str_eq(relative_path, "Makefile")
        } else {
            false
        }
    }

    /// Computes the Tauri namespace's output tree, the enhanced templates
    /// laid over the scaffold the setup commands produce; an absent
    /// namespace is a packaging defect and fatal.
    pub fn generate(&self, store: &TemplateStore, params: &TauriParams) -> (r: Result<
        Vec<OutputFile>,
        GenerateError,
    >)
        ensures
            match r {
                Ok(outs) => spec_params_valid(params.base) && spec_generate(
                    store@,
                    "frameworks/rust/tauri"@,
                    seq![SkipRule::PrecommitConfig, SkipRule::ProtoGenTools],
                    spec_base_context(params.base),
                ) == Ok::<Seq<OutputFileV>, ProcessErrorV>(outs.deep_view()),
                Err(e) => match e {
                    GenerateError::Validation(_) => !spec_params_valid(params.base),
                    GenerateError::Process(pe) => spec_params_valid(params.base) && spec_generate(
                        store@,
                        "frameworks/rust/tauri"@,
                        seq![SkipRule::PrecommitConfig, SkipRule::ProtoGenTools],
                        spec_base_context(params.base),
                    ) == Err::<Seq<OutputFileV>, ProcessErrorV>(pe@),
                },
            },
    {
        if let Err(e) = params.base.validate() {
            return Err(GenerateError::Validation(e));
        }
        if !store.contains_path("frameworks/rust/tauri") {
            return Err(
                GenerateError::Process(
                    ProcessError::TemplateNotFound { path: "frameworks/rust/tauri".to_owned() },
                ),
            );
        }
        let context = params.to_context();
        let rules = self.rules();
        match process_namespace(store, "frameworks/rust/tauri", &rules, &context) {
            Ok(outs) => Ok(outs),
            Err(e) => Err(GenerateError::Process(e)),
        }
    }

    /// The scaffold-creation step, run in the output directory's parent.
    pub fn create_tauri_project_step(&self, project_name: &str) -> (r: PostProcessor)
        ensures
            r@.command == "cargo"@,
            r@.args == seq![
                "create-tauri-app"@,
                project_name@,
                "--template"@,
                "vue-ts"@,
                "--manager"@,
                "pnpm"@,
                "--yes"@,
            ],
            r@.description.len() > 0,
            r@.dir == crate::scaffold::StepDir::ParentDir,
    {
        let mut args: Vec<String> = Vec::new();
        push_arg(&mut args, "create-tauri-app");
        push_arg(&mut args, project_name);
        push_arg(&mut args, "--template");
        push_arg(&mut args, "vue-ts");
        push_arg(&mut args, "--manager");
        push_arg(&mut args, "pnpm");
        push_arg(&mut args, "--yes");
        proof {
            reveal_strlit("Creating Tauri project");
            assert(args.deep_view() =~= seq![
                "create-tauri-app"@,
                project_name@,
                "--template"@,
                "vue-ts"@,
                "--manager"@,
                "pnpm"@,
                "--yes"@,
            ]);
        }
        PostProcessor::command(
            "cargo".to_owned(),
            args,
            "Creating Tauri project".to_owned(),
        ).in_parent_dir()
    }

    /// The step installing the scaffold tool itself.
    pub fn install_create_tauri_app_step(&self) -> (r: PostProcessor)
        ensures
            r@.command == "cargo"@,
            r@.args == seq!["install"@, "create-tauri-app"@],
            r@.description.len() > 0,
    {
        let mut args: Vec<String> = Vec::new();
        push_arg(&mut args, "install");
        push_arg(&mut args, "create-tauri-app");
        proof {
            reveal_strlit("Installing create-tauri-app");
            assert(args.deep_view() =~= seq!["install"@, "create-tauri-app"@]);
        }
        PostProcessor::command("cargo".to_owned(), args, "Installing create-tauri-app".to_owned())
    }

    /// The frontend dependency-installation step.
    pub fn install_dependencies_step(&self) -> (r: PostProcessor)
        ensures
            r@.command == "pnpm"@,
            r@.args == seq!["install"@],
            r@.description.len() > 0,
    {
        let mut args: Vec<String> = Vec::new();
        push_arg(&mut args, "install");
        proof {
            reveal_strlit("Installing frontend dependencies");
            assert(args.deep_view() =~= seq!["install"@]);
        }
        PostProcessor::command(
            "pnpm".to_owned(),
            args,
            "Installing frontend dependencies".to_owned(),
        )
    }
}

/// The Vue3 frontend framework generator.
#[derive(Debug)]
pub struct Vue3Generator {}

impl Vue3Generator {
    /// A Vue3 generator.
    pub fn new() -> (r: Vue3Generator) {
        Vue3Generator {  }
    }

    /// The generator's name.
    pub fn name(&self) -> (r: &'static str)
        ensures
            r@ == "Vue3"@,
    {
        "Vue3"
    }

    /// The scaffold-creation step, run in the output directory's parent.
    pub fn create_vue3_project_step(&self, project_name: &str) -> (r: PostProcessor)
        ensures
            r@.command == "pnpm"@,
            r@.args == seq![
                "create"@,
                "vue@latest"@,
                project_name@,
                "--typescript"@,
                "--router"@,
                "--pinia"@,
                "--eslint"@,
                "--prettier"@,
            ],
            r@.description.len() > 0,
            r@.dir == crate::scaffold::StepDir::ParentDir,
    {
        let mut args: Vec<String> = Vec::new();
        push_arg(&mut args, "create");
        push_arg(&mut args, "vue@latest");
        push_arg(&mut args, project_name);
        push_arg(&mut args, "--typescript");
        push_arg(&mut args, "--router");
        push_arg(&mut args, "--pinia");
        push_arg(&mut args, "--eslint");
        push_arg(&mut args, "--prettier");
        proof {
            reveal_strlit("Creating Vue3 project");
            assert(args.deep_view() =~= seq![
                "create"@,
                "vue@latest"@,
                project_name@,
                "--typescript"@,
                "--router"@,
                "--pinia"@,
                "--eslint"@,
                "--prettier"@,
            ]);
        }
        PostProcessor::command(
            "pnpm".to_owned(),
            args,
            "Creating Vue3 project".to_owned(),
        ).in_parent_dir()
    }

    /// The frontend dependency-installation step.
    pub fn install_dependencies_step(&self) -> (r: PostProcessor)
        ensures
            r@.command == "pnpm"@,
            r@.args == seq!["install"@],
            r@.description.len() > 0,
    {
        let mut args: Vec<String> = Vec::new();
        push_arg(&mut args, "install");
        proof {
            reveal_strlit("Installing frontend dependencies");
            assert(args.deep_view() =~= seq!["install"@]);
        }
        PostProcessor::command(
            "pnpm".to_owned(),
            args,
            "Installing frontend dependencies".to_owned(),
        )
    }

    /// The Tailwind CSS installation step.
    pub fn install_tailwind_step(&self) -> (r: PostProcessor)
        ensures
            r@.command == "pnpm"@,
            r@.args == seq![
                "add"@,
                "-D"@,
                "tailwindcss"@,
                "postcss"@,
                "autoprefixer"@,
                "@tailwindcss/forms"@,
            ],
            r@.description.len() > 0,
    {
        let mut args: Vec<String> = Vec::new();
        push_arg(&mut args, "add");
        push_arg(&mut args, "-D");
        push_arg(&mut args, "tailwindcss");
        push_arg(&mut args, "postcss");
        push_arg(&mut args, "autoprefixer");
        push_arg(&mut args, "@tailwindcss/forms");
        proof {
            reveal_strlit("Installing Tailwind CSS");
            assert(args.deep_view() =~= seq![
                "add"@,
                "-D"@,
                "tailwindcss"@,
                "postcss"@,
                "autoprefixer"@,
                "@tailwindcss/forms"@,
            ]);
        }
        PostProcessor::command("pnpm".to_owned(), args, "Installing Tailwind CSS".to_owned())
    }

    /// The Tailwind configuration-initialization step.
    pub fn tailwind_init_step(&self) -> (r: PostProcessor)
        ensures
            r@.command == "pnpm"@,
            r@.args == seq!["exec"@, "tailwindcss"@, "init"@, "-p"@],
            r@.description.len() > 0,
    {
        let mut args: Vec<String> = Vec::new();
        push_arg(&mut args, "exec");
        push_arg(&mut args, "tailwindcss");
        push_arg(&mut args, "init");
        push_arg(&mut args, "-p");
        proof {
            reveal_strlit("Initializing Tailwind configuration");
            assert(args.deep_view() =~= seq!["exec"@, "tailwindcss"@, "init"@, "-p"@]);
        }
        PostProcessor::command(
            "pnpm".to_owned(),
            args,
            "Initializing Tailwind configuration".to_owned(),
        )
    }
}

/// The packages a state-management choice installs; an unknown choice
/// falls back to zustand.
pub open spec fn spec_state_packages(s: Seq<char>) -> Seq<Seq<char>> {
    if s == "redux"@ {
        seq!["@reduxjs/toolkit"@, "react-redux"@]
    } else if s == "jotai"@ {
        seq!["jotai"@]
    } else {
        seq!["zustand"@]
    }
}

/// The React frontend framework generator.
#[derive(Debug)]
pub struct ReactGenerator {}

impl ReactGenerator {
    /// A React generator.
    pub fn new() -> (r: ReactGenerator) {
        ReactGenerator {  }
    }

    /// The generator's name.
    pub fn name(&self) -> (r: &'static str)
        ensures
            r@ == "React"@,
    {
        "React"
    }

    /// Whether a file is the pre-commit configuration to leave out when
    /// pre-commit is disabled.
    pub fn should_skip_precommit_file(&self, file_name: &str, params: &ReactParams) -> (r: bool)
        ensures
            r == (!params.base.enable_precommit && (file_name@ == ".pre-commit-config.yaml.tmpl"@
                || file_name@ == ".pre-commit-config.yaml"@)),
    {
        if !params.enable_precommit() {
            str_eq(file_name, ".pre-commit-config.yaml.tmpl") || str_eq(
                file_name,
                ".pre-commit-config.yaml",
            )
        } else {
            false
        }
    }

    /// The scaffold-creation step, run in the output directory's parent.
    pub fn create_react_project_step(&self, project_name: &str) -> (r: PostProcessor)
        ensures
            r@.command == "pnpm"@,
            r@.args == seq!["create"@, "vite@latest"@, project_name@, "--template"@, "react-ts"@],
            r@.description.len() > 0,
            r@.dir == crate::scaffold::StepDir::ParentDir,
    {
        let mut args: Vec<String> = Vec::new();
        push_arg(&mut args, "create");
        push_arg(&mut args, "vite@latest");
        push_arg(&mut args, project_name);
        push_arg(&mut args, "--template");
        push_arg(&mut args, "react-ts");
        proof {
            reveal_strlit("Creating React project");
            assert(args.deep_view() =~= seq![
                "create"@,
                "vite@latest"@,
                project_name@,
                "--template"@,
                "react-ts"@,
            ]);
        }
        PostProcessor::command(
            "pnpm".to_owned(),
            args,
            "Creating React project".to_owned(),
        ).in_parent_dir()
    }

    /// The frontend dependency-installation step.
    pub fn install_dependencies_step(&self) -> (r: PostProcessor)
        ensures
            r@.command == "pnpm"@,
            r@.args == seq!["install"@],
            r@.description.len() > 0,
    {
        let mut args: Vec<String> = Vec::new();
        push_arg(&mut args, "install");
        proof {
            reveal_strlit("Installing frontend dependencies");
            assert(args.deep_view() =~= seq!["install"@]);
        }
        PostProcessor::command(
            "pnpm".to_owned(),
            args,
            "Installing frontend dependencies".to_owned(),
        )
    }

    /// The Tailwind CSS installation step.
    pub fn install_tailwind_step(&self) -> (r: PostProcessor)
        ensures
            r@.command == "pnpm"@,
            r@.args == seq![
                "add"@,
                "-D"@,
                "tailwindcss"@,
                "postcss"@,
                "autoprefixer"@,
                "@tailwindcss/forms"@,
                "@tailwindcss/typography"@,
            ],
            r@.description.len() > 0,
    {
        let mut args: Vec<String> = Vec::new();
        push_arg(&mut args, "add");
        push_arg(&mut args, "-D");
        push_arg(&mut args, "tailwindcss");
        push_arg(&mut args, "postcss");
        push_arg(&mut args, "autoprefixer");
        push_arg(&mut args, "@tailwindcss/forms");
        push_arg(&mut args, "@tailwindcss/typography");
        proof {
            reveal_strlit("Installing Tailwind CSS");
            assert(args.deep_view() =~= seq![
                "add"@,
                "-D"@,
                "tailwindcss"@,
                "postcss"@,
                "autoprefixer"@,
                "@tailwindcss/forms"@,
                "@tailwindcss/typography"@,
            ]);
        }
        PostProcessor::command("pnpm".to_owned(), args, "Installing Tailwind CSS".to_owned())
    }

    /// The Tailwind configuration-initialization step.
    pub fn tailwind_init_step(&self) -> (r: PostProcessor)
        ensures
            r@.command == "pnpm"@,
            r@.args == seq!["exec"@, "tailwindcss"@, "init"@, "-p"@],
            r@.description.len() > 0,
    {
        let mut args: Vec<String> = Vec::new();
        push_arg(&mut args, "exec");
        push_arg(&mut args, "tailwindcss");
        push_arg(&mut args, "init");
        push_arg(&mut args, "-p");
        proof {
            reveal_strlit("Initializing Tailwind configuration");
            assert(args.deep_view() =~= seq!["exec"@, "tailwindcss"@, "init"@, "-p"@]);
        }
        PostProcessor::command(
            "pnpm".to_owned(),
            args,
            "Initializing Tailwind configuration".to_owned(),
        )
    }

    /// The router installation step.
    pub fn install_router_step(&self) -> (r: PostProcessor)
        ensures
            r@.command == "pnpm"@,
            r@.args == seq!["add"@, "react-router-dom"@],
            r@.description.len() > 0,
    {
        let mut args: Vec<String> = Vec::new();
        push_arg(&mut args, "add");
        push_arg(&mut args, "react-router-dom");
        proof {
            reveal_strlit("Installing React Router");
            assert(args.deep_view() =~= seq!["add"@, "react-router-dom"@]);
        }
        PostProcessor::command("pnpm".to_owned(), args, "Installing React Router".to_owned())
    }

    /// The state-management installation step.
    pub fn install_state_management_step(&self, state_management: &str) -> (r: PostProcessor)
        ensures
            r@.command == "pnpm"@,
            r@.args == seq!["add"@] + spec_state_packages(state_management@),
            r@.description.len() > 0,
    {
        let mut args: Vec<String> = Vec::new();
        push_arg(&mut args, "add");
        if str_eq(state_management, "redux") {
            push_arg(&mut args, "@reduxjs/toolkit");
            push_arg(&mut args, "react-redux");
            proof {
                assert(args.deep_view() =~= seq!["add"@] + spec_state_packages(state_management@));
            }
        } else if str_eq(state_management, "jotai") {
            push_arg(&mut args, "jotai");
            proof {
                assert(args.deep_view() =~= seq!["add"@] + spec_state_packages(state_management@));
            }
        } else {
            push_arg(&mut args, "zustand");
            proof {
                assert(args.deep_view() =~= seq!["add"@] + spec_state_packages(state_management@));
            }
        }
        proof {
            reveal_strlit("Installing state management");
        }
        PostProcessor::command("pnpm".to_owned(), args, "Installing state management".to_owned())
    }
}

} // verus!
