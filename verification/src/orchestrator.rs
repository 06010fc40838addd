//! The orchestrator: assembles the parameter layers of a run from the
//! caller's options, sequences the generators in their documented order
//! (framework namespace first, then language, then the project level),
//! and hands back the computed output tree together with the ordered
//! external commands.  Commands in `pre_steps` run before the tree is
//! written, those in `post_steps` after; the surrounding application
//! executes both lists in order.

use vstd::prelude::*;

use crate::framework_params::{GinParams, ReactParams, TauriParams, Vue3Params};
use crate::generators::{
    spec_generate, spec_license_template_path, spec_state_packages, GenerateError, GinGenerator,
    GoGenerator, ProjectGenerator, PythonGenerator, ReactGenerator, RustGenerator, TauriGenerator,
    Vue3Generator,
};
use crate::params::{
    spec_base_context, spec_go_context, spec_infer_module_name, spec_params_valid,
    spec_python_context, spec_rust_context, GoParams, ProjectParams, PythonParams, RustParams,
};
use crate::processor::{spec_process, spec_process_file, OutputFile, OutputFileV, ProcessErrorV,
    SkipRule};
use crate::scaffold::{PostProcessor, PostProcessorV};
use crate::store::TemplateStore;

verus! {

/// The options of a Gin project run; a missing option falls back to its
/// documented default.
#[derive(Debug)]
pub struct GinProjectOptions {
    /// The project description.
    pub description: Option<String>,
    /// The author written into the license.
    pub author: Option<String>,
    /// The license identifier; MIT when absent.
    pub license: Option<String>,
    /// Repository initialization; on when absent.
    pub enable_git: Option<bool>,
    /// The Go toolchain version; 1.21 when absent.
    pub go_version: Option<String>,
    /// The module path; inferred from the name when absent.
    pub module_name: Option<String>,
    /// The host the server binds; localhost when absent.
    pub host: Option<String>,
    /// The port the server binds; 8080 when absent.
    pub port: Option<u16>,
    /// Swagger documentation; on when absent.
    pub enable_swagger: Option<bool>,
    /// CORS support; on when absent.
    pub enable_cors: Option<bool>,
    /// Token authentication; off when absent.
    pub enable_jwt: Option<bool>,
    /// Pre-commit hooks; on when absent.
    pub enable_precommit: Option<bool>,
    /// The Redis cache layer; off when absent.
    pub enable_redis: Option<bool>,
    /// The database kind; no database when absent.
    pub database_type: Option<String>,
}

impl GinProjectOptions {
    /// Options with every choice left to its default.
    pub fn new() -> (r: GinProjectOptions)
        ensures
            r.description is None,
            r.author is None,
            r.license is None,
            r.enable_git is None,
            r.go_version is None,
            r.module_name is None,
            r.host is None,
            r.port is None,
            r.enable_swagger is None,
            r.enable_cors is None,
            r.enable_jwt is None,
            r.enable_precommit is None,
            r.enable_redis is None,
            r.database_type is None,
    {
        GinProjectOptions {
            description: None,
            author: None,
            license: None,
            enable_git: None,
            go_version: None,
            module_name: None,
            host: None,
            port: None,
            enable_swagger: None,
            enable_cors: None,
            enable_jwt: None,
            enable_precommit: None,
            enable_redis: None,
            database_type: None,
        }
    }

    /// Sets the description.
    pub fn with_description(self, description: String) -> (r: GinProjectOptions)
        ensures
            r == (GinProjectOptions { description: Some(description), ..self }),
    {
        GinProjectOptions { description: Some(description), ..self }
    }

    /// Sets the author.
    pub fn with_author(self, author: String) -> (r: GinProjectOptions)
        ensures
            r == (GinProjectOptions { author: Some(author), ..self }),
    {
        GinProjectOptions { author: Some(author), ..self }
    }

    /// Sets the license.
    pub fn with_license(self, license: String) -> (r: GinProjectOptions)
        ensures
            r == (GinProjectOptions { license: Some(license), ..self }),
    {
        GinProjectOptions { license: Some(license), ..self }
    }

    /// Sets the Go version.
    pub fn with_go_version(self, version: String) -> (r: GinProjectOptions)
        ensures
            r == (GinProjectOptions { go_version: Some(version), ..self }),
    {
        GinProjectOptions { go_version: Some(version), ..self }
    }

    /// Sets the module path.
    pub fn with_module_name(self, module_name: String) -> (r: GinProjectOptions)
        ensures
            r == (GinProjectOptions { module_name: Some(module_name), ..self }),
    {
        GinProjectOptions { module_name: Some(module_name), ..self }
    }

    /// Sets the host and port the server binds.
    pub fn with_server(self, host: String, port: u16) -> (r: GinProjectOptions)
        ensures
            r == (GinProjectOptions { host: Some(host), port: Some(port), ..self }),
    {
        GinProjectOptions { host: Some(host), port: Some(port), ..self }
    }

    /// Turns Swagger documentation on or off.
    pub fn with_swagger(self, enable: bool) -> (r: GinProjectOptions)
        ensures
            r == (GinProjectOptions { enable_swagger: Some(enable), ..self }),
    {
        GinProjectOptions { enable_swagger: Some(enable), ..self }
    }

    /// Turns pre-commit hooks on or off.
    pub fn with_precommit(self, enable: bool) -> (r: GinProjectOptions)
        ensures
            r == (GinProjectOptions { enable_precommit: Some(enable), ..self }),
    {
        GinProjectOptions { enable_precommit: Some(enable), ..self }
    }

    /// Chooses a database kind.
    pub fn with_database(self, db_type: String) -> (r: GinProjectOptions)
        ensures
            r == (GinProjectOptions { database_type: Some(db_type), ..self }),
    {
        GinProjectOptions { database_type: Some(db_type), ..self }
    }
}

/// A computed generation run: the complete output tree, the commands to
/// run before the tree is written, and those to run after.
#[derive(Debug)]
pub struct ProjectPlan {
    /// The output files of every processed namespace, in processing
    /// order.
    pub outputs: Vec<OutputFile>,
    /// Commands the application runs before writing the tree.
    pub pre_steps: Vec<PostProcessor>,
    /// Commands the application runs after writing the tree, in order.
    pub post_steps: Vec<PostProcessor>,
}

/// The command and arguments of each step, in order.
pub open spec fn step_cmds(s: Seq<PostProcessorV>) -> Seq<(Seq<char>, Seq<Seq<char>>)> {
    s.map_values(|v: PostProcessorV| (v.command, v.args))
}

/// How the assembled Gin parameters follow from the caller's options:
/// every explicit choice is kept and every missing one falls back to its
/// default.
pub open spec fn spec_gin_params_match(
    p: GinParams,
    project_name: Seq<char>,
    o: GinProjectOptions,
) -> bool {
    &&& p.base.project_name@ == project_name
    &&& p.base.host is Some && p.base.host->0@ == (if o.host is Some {
        o.host->0@
    } else {
        "localhost"@
    })
    &&& p.base.port == Some(
        if o.port is Some {
            o.port->0
        } else {
            8080u16
        },
    )
    &&& p.base.enable_swagger == (if o.enable_swagger is Some {
        o.enable_swagger->0
    } else {
        true
    })
    &&& p.base.enable_cors == (if o.enable_cors is Some {
        o.enable_cors->0
    } else {
        true
    })
    &&& p.base.enable_jwt == (if o.enable_jwt is Some {
        o.enable_jwt->0
    } else {
        false
    })
    &&& p.base.enable_precommit == (if o.enable_precommit is Some {
        o.enable_precommit->0
    } else {
        true
    })
    &&& p.base.enable_redis == (if o.enable_redis is Some {
        o.enable_redis->0
    } else {
        false
    })
    &&& p.base.enable_database == (o.database_type is Some)
    &&& (o.database_type is Some ==> p.base.database_type is Some
        && p.base.database_type->0@ == o.database_type->0@)
    &&& p.project.base.project_name@ == project_name
    &&& p.project.base.license@ == (if o.license is Some {
        o.license->0@
    } else {
        "MIT"@
    })
    &&& p.project.base.enable_git == (if o.enable_git is Some {
        o.enable_git->0
    } else {
        true
    })
    &&& p.project.base.enable_precommit == (if o.enable_precommit is Some {
        o.enable_precommit->0
    } else {
        true
    })
    &&& p.project.base.project_description is Some && p.project.base.project_description->0@ == (
    if o.description is Some {
        o.description->0@
    } else {
        "A Gin web application: "@ + project_name
    })
    &&& (o.author is Some ==> p.project.base.author is Some && p.project.base.author->0@
        == o.author->0@)
    &&& (o.author is None ==> p.project.base.author is None)
    &&& p.go.base.module_name is Some && p.go.base.module_name->0@ == (if o.module_name is Some {
        o.module_name->0@
    } else {
        spec_infer_module_name(project_name)
    })
    &&& p.go.base.language_version is Some && p.go.base.language_version->0@ == (if o.go_version
        is Some {
        o.go_version->0@
    } else {
        "1.21"@
    })
}

/// The orchestrator of a generation run.
#[derive(Debug)]
pub struct GeneratorOrchestrator {}

impl GeneratorOrchestrator {
    /// An orchestrator over the built-in generators.
    pub fn new() -> (r: GeneratorOrchestrator) {
        GeneratorOrchestrator {  }
    }

    /// Assembles the Gin parameter layers from the caller's options.
    #[verifier::rlimit(100)]
    #[verifier::spinoff_prover]
    pub fn build_gin_params(&self, project_name: String, options: &GinProjectOptions) -> (r:
        GinParams)
        ensures
            spec_gin_params_match(r, project_name@, *options),
    {
        let name2 = project_name.clone();
        let description = match &options.description {
            Some(d) => d.clone(),
            None => {
                let mut d = String::from_str("A Gin web application: ");
                d.append(project_name.as_str());
                d
            },
        };
        let license = match &options.license {
            Some(l) => l.clone(),
            None => "MIT".to_owned(),
        };
        let module_name = match &options.module_name {
            Some(m) => m.clone(),
            None => GoParams::infer_module_name(project_name.as_str()),
        };
        let go_version = match &options.go_version {
            Some(v) => v.clone(),
            None => "1.21".to_owned(),
        };
        let host = match &options.host {
            Some(h) => h.clone(),
            None => "localhost".to_owned(),
        };
        let port = match options.port {
            Some(p) => p,
            None => 8080,
        };
        let enable_swagger = match options.enable_swagger {
            Some(b) => b,
            None => true,
        };
        let enable_cors = match options.enable_cors {
            Some(b) => b,
            None => true,
        };
        let enable_jwt = match options.enable_jwt {
            Some(b) => b,
            None => false,
        };
        let enable_precommit = match options.enable_precommit {
            Some(b) => b,
            None => true,
        };
        let enable_redis = match options.enable_redis {
            Some(b) => b,
            None => false,
        };
        let mut project = ProjectParams::from_project_name(name2);
        project.base.project_description = Some(description);
        project.base.license = license;
        project.base.enable_precommit = enable_precommit;
        if let Some(a) = &options.author {
            project.base.author = Some(a.clone());
        }
        if let Some(g) = options.enable_git {
            project.base.enable_git = g;
        }
        let mut go = GoParams::new(module_name);
        go.base.language_version = Some(go_version);
        let mut gin = GinParams::from_project_name(project_name);
        gin.base.host = Some(host);
        gin.base.port = Some(port);
        gin.base.enable_swagger = enable_swagger;
        gin.base.enable_cors = enable_cors;
        gin.base.enable_jwt = enable_jwt;
        gin.base.enable_precommit = enable_precommit;
        if let Some(d) = &options.database_type {
            gin.base.database_type = Some(d.clone());
            gin.base.enable_database = true;
        }
        gin.base.enable_redis = enable_redis;
        gin.project = project;
        gin.go = go;
        gin
    }
}

/// The commands run after a Gin tree is written: module initialization
/// and tidying, then the repository, pre-commit and Swagger steps the
/// flags ask for; Swagger generation retidies the module afterwards.
pub open spec fn spec_gin_post_cmds(p: GinParams) -> Seq<(Seq<char>, Seq<Seq<char>>)> {
    let base = seq![
        ("go"@, seq!["mod"@, "init"@, p.base.project_name@]),
        ("go"@, seq!["mod"@, "tidy"@]),
    ];
    let base = if p.project.base.enable_git {
        base + seq![("git"@, seq!["init"@])]
    } else {
        base
    };
    let base = if p.project.base.enable_precommit {
        base + seq![("pre-commit"@, seq!["install"@])]
    } else {
        base
    };
    if p.base.enable_swagger {
        base + seq![("swag"@, seq!["init"@, "-g"@, "main.go"@]), ("go"@, seq!["mod"@, "tidy"@])]
    } else {
        base
    }
}

impl GeneratorOrchestrator {
    /// Computes a complete Gin run: the Gin namespace, the Go namespace
    /// and the license, in that order, with the post-processing commands
    /// the parameters call for.  The first failure aborts the run.
    #[verifier::rlimit(100)]
    #[verifier::spinoff_prover]
    pub fn generate_gin_project(&self, store: &TemplateStore, params: &GinParams) -> (r: Result<
        ProjectPlan,
        GenerateError,
    >)
        ensures
            ({
                let fw = spec_generate(
                    store@,
                    "frameworks/go/gin"@,
                    seq![SkipRule::SwaggerDocs, SkipRule::PrecommitConfig],
                    spec_base_context(params.base),
                );
                let lang = spec_generate(
                    store@,
                    "languages/go"@,
                    Seq::<SkipRule>::empty(),
                    spec_go_context(params.go),
                );
                let lic = spec_process_file(
                    store@,
                    spec_license_template_path(params.project.base.license@),
                    spec_base_context(params.project.base),
                );
                match r {
                    Ok(plan) => {
                        &&& spec_params_valid(params.base)
                        &&& spec_params_valid(params.go.base)
                        &&& spec_params_valid(params.project.base)
                        &&& fw is Ok
                        &&& lang is Ok
                        &&& lic is Ok
                        &&& plan.outputs.deep_view() == fw->Ok_0 + lang->Ok_0 + seq![
                            OutputFileV { path: "LICENSE"@, content: lic->Ok_0 },
                        ]
                        &&& plan.pre_steps@.len() == 0
                        &&& step_cmds(plan.post_steps.deep_view()) == spec_gin_post_cmds(*params)
                    },
                    Err(e) => match e {
                        GenerateError::Validation(_) => !(spec_params_valid(params.base)
                            && spec_params_valid(params.go.base) && spec_params_valid(
                            params.project.base,
                        )),
                        GenerateError::Process(pe) => (fw is Err && pe@ == fw->Err_0) || (fw is Ok
                            && lang is Err && pe@ == lang->Err_0) || (fw is Ok && lang is Ok && lic
                            is Err && pe@ == lic->Err_0),
                    },
                }
            }),
    {
        let gin_gen = GinGenerator::new();
        let go_gen = GoGenerator::new();
        let project_gen = ProjectGenerator::new();
        let mut outputs = gin_gen.generate(store, params)?;
        let ghost fw_outs = outputs.deep_view();
        let mut lang_outputs = go_gen.generate(store, &params.go)?;
        let ghost lang_outs = lang_outputs.deep_view();
        if let Err(e) = params.project.validate() {
            return Err(GenerateError::Validation(e));
        }
        let license = match project_gen.generate_license(store, &params.project) {
            Ok(o) => o,
            Err(e) => {
                return Err(GenerateError::Process(e));
            },
        };
        let ghost lic_out = license@;
        outputs.append(&mut lang_outputs);
        proof {
            assert(outputs.deep_view() =~= fw_outs + lang_outs);
        }
        let ghost before_license = outputs.deep_view();
        outputs.push(license);
        proof {
            assert(outputs.deep_view() =~= before_license.push(lic_out));
            assert(before_license.push(lic_out) =~= fw_outs + lang_outs + seq![lic_out]);
        }
        let post_steps = self.gin_post_steps(params);
        Ok(ProjectPlan { outputs, pre_steps: Vec::new(), post_steps })
    }

    /// The post-processing commands of a Gin run, in their documented
    /// order.
    #[verifier::rlimit(100)]
    #[verifier::spinoff_prover]
    pub fn gin_post_steps(&self, params: &GinParams) -> (r: Vec<PostProcessor>)
        ensures
            step_cmds(r.deep_view()) == spec_gin_post_cmds(*params),
    {
        let gin_gen = GinGenerator::new();
        let go_gen = GoGenerator::new();
        let project_gen = ProjectGenerator::new();
        let mut post_steps: Vec<PostProcessor> = Vec::new();
        post_steps.push(go_gen.init_go_module_step(params.base.project_name.as_str()));
        post_steps.push(go_gen.mod_tidy_step());
        if params.project.enable_git() {
            post_steps.push(project_gen.init_git_repository_step());
        }
        if params.project.enable_precommit() {
            post_steps.push(project_gen.install_precommit_step());
        }
        if params.enable_swagger() {
            post_steps.push(gin_gen.swag_init_step());
            post_steps.push(go_gen.mod_tidy_step());
        }
        proof {
            assert(step_cmds(post_steps.deep_view()) =~~= spec_gin_post_cmds(*params));
        }
        post_steps
    }
}

/// The repository and pre-commit commands the project flags ask for.
pub open spec fn spec_project_post_cmds(p: ProjectParams) -> Seq<(Seq<char>, Seq<Seq<char>>)> {
    let s = if p.base.enable_git {
        seq![("git"@, seq!["init"@])]
    } else {
        Seq::<(Seq<char>, Seq<Seq<char>>)>::empty()
    };
    if p.base.enable_precommit {
        s + seq![("pre-commit"@, seq!["install"@])]
    } else {
        s
    }
}

/// The commands of a Python run: the dependency additions and the sync,
/// then the project-level steps.
pub open spec fn spec_python_post_cmds(p: ProjectParams) -> Seq<(Seq<char>, Seq<Seq<char>>)> {
    seq![
        ("uv"@, seq!["add"@, "pydantic"@]),
        ("uv"@, seq!["add"@, "python-dotenv"@]),
        ("uv"@, seq!["add"@, "rich"@]),
        ("uv"@, seq!["sync"@]),
    ] + spec_project_post_cmds(p)
}

/// The commands of a Rust run: the verification build, then the
/// project-level steps.
pub open spec fn spec_rust_post_cmds(p: ProjectParams) -> Seq<(Seq<char>, Seq<Seq<char>>)> {
    seq![("cargo"@, seq!["build"@])] + spec_project_post_cmds(p)
}

/// The commands run before a Tauri tree is overlaid: the scaffold tool
/// creates the project, then the frontend dependencies are installed.
pub open spec fn spec_tauri_pre_cmds(project_name: Seq<char>) -> Seq<(Seq<char>, Seq<Seq<char>>)> {
    seq![
        (
            "cargo"@,
            seq![
                "create-tauri-app"@,
                project_name,
                "--template"@,
                "vue-ts"@,
                "--manager"@,
                "pnpm"@,
                "--yes"@,
            ],
        ),
        ("pnpm"@, seq!["install"@]),
    ]
}

/// The commands run after a Tauri tree is overlaid: dependencies are
/// reinstalled for the updated manifest, then the project-level steps.
pub open spec fn spec_tauri_post_cmds(p: ProjectParams) -> Seq<(Seq<char>, Seq<Seq<char>>)> {
    seq![("pnpm"@, seq!["install"@])] + spec_project_post_cmds(p)
}

/// The commands run before a Vue3 run's project level: scaffold
/// creation, dependency installation, and the Tailwind setup.
pub open spec fn spec_vue3_pre_cmds(project_name: Seq<char>) -> Seq<(Seq<char>, Seq<Seq<char>>)> {
    seq![
        (
            "pnpm"@,
            seq![
                "create"@,
                "vue@latest"@,
                project_name,
                "--typescript"@,
                "--router"@,
                "--pinia"@,
                "--eslint"@,
                "--prettier"@,
            ],
        ),
        ("pnpm"@, seq!["install"@]),
        (
            "pnpm"@,
            seq!["add"@, "-D"@, "tailwindcss"@, "postcss"@, "autoprefixer"@, "@tailwindcss/forms"@],
        ),
        ("pnpm"@, seq!["exec"@, "tailwindcss"@, "init"@, "-p"@]),
    ]
}

/// The commands run before a React run's project level: scaffold
/// creation, dependency installation, Tailwind, the router and the state
/// store.
pub open spec fn spec_react_pre_cmds(project_name: Seq<char>, state: Seq<char>) -> Seq<
    (Seq<char>, Seq<Seq<char>>),
> {
    seq![
        ("pnpm"@, seq!["create"@, "vite@latest"@, project_name, "--template"@, "react-ts"@]),
        ("pnpm"@, seq!["install"@]),
        (
            "pnpm"@,
            seq![
                "add"@,
                "-D"@,
                "tailwindcss"@,
                "postcss"@,
                "autoprefixer"@,
                "@tailwindcss/forms"@,
                "@tailwindcss/typography"@,
            ],
        ),
        ("pnpm"@, seq!["exec"@, "tailwindcss"@, "init"@, "-p"@]),
        ("pnpm"@, seq!["add"@, "react-router-dom"@]),
        ("pnpm"@, seq!["add"@] + spec_state_packages(state)),
    ]
}

impl GeneratorOrchestrator {
    /// Renders the license of the project layer, after validating it.
    fn project_license(&self, store: &TemplateStore, project: &ProjectParams) -> (r: Result<
        OutputFile,
        GenerateError,
    >)
        ensures
            ({
                let lic = spec_process_file(
                    store@,
                    spec_license_template_path(project.base.license@),
                    spec_base_context(project.base),
                );
                match r {
                    Ok(o) => spec_params_valid(project.base) && o@.path == "LICENSE"@ && lic
                        == Ok::<Seq<char>, ProcessErrorV>(o@.content),
                    Err(e) => match e {
                        GenerateError::Validation(_) => !spec_params_valid(project.base),
                        GenerateError::Process(pe) => spec_params_valid(project.base) && lic
                            == Err::<Seq<char>, ProcessErrorV>(pe@),
                    },
                }
            }),
    {
        if let Err(e) = project.validate() {
            return Err(GenerateError::Validation(e));
        }
        let project_gen = ProjectGenerator::new();
        match project_gen.generate_license(store, project) {
            Ok(o) => Ok(o),
            Err(e) => Err(GenerateError::Process(e)),
        }
    }

    /// The repository and pre-commit steps of the project layer.
    pub fn project_post_steps(&self, project: &ProjectParams) -> (r: Vec<PostProcessor>)
        ensures
            step_cmds(r.deep_view()) == spec_project_post_cmds(*project),
    {
        let project_gen = ProjectGenerator::new();
        let mut steps: Vec<PostProcessor> = Vec::new();
        if project.enable_git() {
            steps.push(project_gen.init_git_repository_step());
        }
        if project.enable_precommit() {
            steps.push(project_gen.install_precommit_step());
        }
        proof {
            assert(step_cmds(steps.deep_view()) =~~= spec_project_post_cmds(*project));
        }
        steps
    }

    /// Computes a complete Python run: the Python namespace and the
    /// license, with the `uv` bootstrap before the tree and the
    /// dependency steps after it.
    #[verifier::rlimit(100)]
    #[verifier::spinoff_prover]
    pub fn generate_python_project(
        &self,
        store: &TemplateStore,
        params: &PythonParams,
        project: &ProjectParams,
    ) -> (r: Result<ProjectPlan, GenerateError>)
        ensures
            ({
                let lang = spec_generate(
                    store@,
                    "languages/python"@,
                    Seq::<SkipRule>::empty(),
                    spec_python_context(*params),
                );
                let lic = spec_process_file(
                    store@,
                    spec_license_template_path(project.base.license@),
                    spec_base_context(project.base),
                );
                match r {
                    Ok(plan) => {
                        &&& spec_params_valid(params.base)
                        &&& spec_params_valid(project.base)
                        &&& lang is Ok
                        &&& lic is Ok
                        &&& plan.outputs.deep_view() == lang->Ok_0 + seq![
                            OutputFileV { path: "LICENSE"@, content: lic->Ok_0 },
                        ]
                        &&& step_cmds(plan.pre_steps.deep_view()) == seq![
                            (
                                "uv"@,
                                seq!["init"@, "--name"@, params.base.project_name@, "."@],
                            ),
                        ]
                        &&& step_cmds(plan.post_steps.deep_view()) == spec_python_post_cmds(
                            *project,
                        )
                    },
                    Err(e) => match e {
                        GenerateError::Validation(_) => !(spec_params_valid(params.base)
                            && spec_params_valid(project.base)),
                        GenerateError::Process(pe) => (lang is Err && pe@ == lang->Err_0) || (lang
                            is Ok && lic is Err && pe@ == lic->Err_0),
                    },
                }
            }),
    {
        let python_gen = PythonGenerator::new();
        let mut outputs = python_gen.generate(store, params)?;
        let ghost lang_outs = outputs.deep_view();
        let license = self.project_license(store, project)?;
        let ghost lic_out = license@;
        outputs.push(license);
        proof {
            assert(outputs.deep_view() =~= lang_outs.push(lic_out));
            assert(lang_outs.push(lic_out) =~= lang_outs + seq![lic_out]);
        }
        let mut pre_steps: Vec<PostProcessor> = Vec::new();
        pre_steps.push(python_gen.init_uv_project_step(params.base.project_name.as_str()));
        proof {
            assert(step_cmds(pre_steps.deep_view()) =~~= seq![
                ("uv"@, seq!["init"@, "--name"@, params.base.project_name@, "."@]),
            ]);
        }
        let mut post_steps: Vec<PostProcessor> = Vec::new();
        post_steps.push(python_gen.add_dependency_step("pydantic"));
        post_steps.push(python_gen.add_dependency_step("python-dotenv"));
        post_steps.push(python_gen.add_dependency_step("rich"));
        post_steps.push(python_gen.install_dependencies_step());
        let mut tail = self.project_post_steps(project);
        let ghost head_steps = post_steps.deep_view();
        let ghost tail_steps = tail.deep_view();
        post_steps.append(&mut tail);
        proof {
            assert(post_steps.deep_view() =~= head_steps + tail_steps);
            assert(step_cmds(post_steps.deep_view()) =~~= spec_python_post_cmds(*project));
        }
        Ok(ProjectPlan { outputs, pre_steps, post_steps })
    }

    /// Computes a complete Rust run: the Rust namespace and the license,
    /// with the verification build after the tree.
    #[verifier::rlimit(100)]
    #[verifier::spinoff_prover]
    pub fn generate_rust_project(
        &self,
        store: &TemplateStore,
        params: &RustParams,
        project: &ProjectParams,
    ) -> (r: Result<ProjectPlan, GenerateError>)
        ensures
            ({
                let lang = spec_generate(
                    store@,
                    "languages/rust"@,
                    Seq::<SkipRule>::empty(),
                    spec_rust_context(*params),
                );
                let lic = spec_process_file(
                    store@,
                    spec_license_template_path(project.base.license@),
                    spec_base_context(project.base),
                );
                match r {
                    Ok(plan) => {
                        &&& spec_params_valid(params.base)
                        &&& spec_params_valid(project.base)
                        &&& lang is Ok
                        &&& lic is Ok
                        &&& plan.outputs.deep_view() == lang->Ok_0 + seq![
                            OutputFileV { path: "LICENSE"@, content: lic->Ok_0 },
                        ]
                        &&& plan.pre_steps@.len() == 0
                        &&& step_cmds(plan.post_steps.deep_view()) == spec_rust_post_cmds(*project)
                    },
                    Err(e) => match e {
                        GenerateError::Validation(_) => !(spec_params_valid(params.base)
                            && spec_params_valid(project.base)),
                        GenerateError::Process(pe) => (lang is Err && pe@ == lang->Err_0) || (lang
                            is Ok && lic is Err && pe@ == lic->Err_0),
                    },
                }
            }),
    {
        let rust_gen = RustGenerator::new();
        let mut outputs = rust_gen.generate(store, params)?;
        let ghost lang_outs = outputs.deep_view();
        let license = self.project_license(store, project)?;
        let ghost lic_out = license@;
        outputs.push(license);
        proof {
            assert(outputs.deep_view() =~= lang_outs.push(lic_out));
            assert(lang_outs.push(lic_out) =~= lang_outs + seq![lic_out]);
        }
        let mut post_steps: Vec<PostProcessor> = Vec::new();
        post_steps.push(rust_gen.build_project_step());
        let mut tail = self.project_post_steps(project);
        let ghost head_steps = post_steps.deep_view();
        let ghost tail_steps = tail.deep_view();
        post_steps.append(&mut tail);
        proof {
            assert(post_steps.deep_view() =~= head_steps + tail_steps);
            assert(step_cmds(post_steps.deep_view()) =~~= spec_rust_post_cmds(*project));
        }
        Ok(ProjectPlan { outputs, pre_steps: Vec::new(), post_steps })
    }

    /// Computes a complete Tauri run: the scaffold commands first, then
    /// the enhanced-template overlay and the license, then dependency
    /// reinstallation and the project-level steps.
    #[verifier::rlimit(100)]
    #[verifier::spinoff_prover]
    pub fn generate_tauri_project(
        &self,
        store: &TemplateStore,
        params: &TauriParams,
        project: &ProjectParams,
    ) -> (r: Result<ProjectPlan, GenerateError>)
        ensures
            ({
                let fw = spec_generate(
                    store@,
                    "frameworks/rust/tauri"@,
                    seq![SkipRule::PrecommitConfig, SkipRule::ProtoGenTools],
                    spec_base_context(params.base),
                );
                let lic = spec_process_file(
                    store@,
                    spec_license_template_path(project.base.license@),
                    spec_base_context(project.base),
                );
                match r {
                    Ok(plan) => {
                        &&& spec_params_valid(params.base)
                        &&& spec_params_valid(project.base)
                        &&& fw is Ok
                        &&& lic is Ok
                        &&& plan.outputs.deep_view() == fw->Ok_0 + seq![
                            OutputFileV { path: "LICENSE"@, content: lic->Ok_0 },
                        ]
                        &&& step_cmds(plan.pre_steps.deep_view()) == spec_tauri_pre_cmds(
                            params.base.project_name@,
                        )
                        &&& step_cmds(plan.post_steps.deep_view()) == spec_tauri_post_cmds(
                            *project,
                        )
                    },
                    Err(e) => match e {
                        GenerateError::Validation(_) => !(spec_params_valid(params.base)
                            && spec_params_valid(project.base)),
                        GenerateError::Process(pe) => (fw is Err && pe@ == fw->Err_0) || (fw is Ok
                            && lic is Err && pe@ == lic->Err_0),
                    },
                }
            }),
    {
        let tauri_gen = TauriGenerator::new();
        let mut outputs = tauri_gen.generate(store, params)?;
        let ghost fw_outs = outputs.deep_view();
        let license = self.project_license(store, project)?;
        let ghost lic_out = license@;
        outputs.push(license);
        proof {
            assert(outputs.deep_view() =~= fw_outs.push(lic_out));
            assert(fw_outs.push(lic_out) =~= fw_outs + seq![lic_out]);
        }
        let mut pre_steps: Vec<PostProcessor> = Vec::new();
        pre_steps.push(tauri_gen.create_tauri_project_step(params.base.project_name.as_str()));
        pre_steps.push(tauri_gen.install_dependencies_step());
        proof {
            assert(step_cmds(pre_steps.deep_view()) =~~= spec_tauri_pre_cmds(
                params.base.project_name@,
            ));
        }
        let mut post_steps: Vec<PostProcessor> = Vec::new();
        post_steps.push(tauri_gen.install_dependencies_step());
        let mut tail = self.project_post_steps(project);
        let ghost head_steps = post_steps.deep_view();
        let ghost tail_steps = tail.deep_view();
        post_steps.append(&mut tail);
        proof {
            assert(post_steps.deep_view() =~= head_steps + tail_steps);
            assert(step_cmds(post_steps.deep_view()) =~~= spec_tauri_post_cmds(*project));
        }
        Ok(ProjectPlan { outputs, pre_steps, post_steps })
    }

    /// Computes a complete Vue3 run: the scaffold and setup commands
    /// first, then the license and the project-level steps.
    #[verifier::rlimit(100)]
    #[verifier::spinoff_prover]
    pub fn generate_vue3_project(
        &self,
        store: &TemplateStore,
        params: &Vue3Params,
        project: &ProjectParams,
    ) -> (r: Result<ProjectPlan, GenerateError>)
        ensures
            ({
                let lic = spec_process_file(
                    store@,
                    spec_license_template_path(project.base.license@),
                    spec_base_context(project.base),
                );
                match r {
                    Ok(plan) => {
                        &&& spec_params_valid(project.base)
                        &&& lic is Ok
                        &&& plan.outputs.deep_view() == seq![
                            OutputFileV { path: "LICENSE"@, content: lic->Ok_0 },
                        ]
                        &&& step_cmds(plan.pre_steps.deep_view()) == spec_vue3_pre_cmds(
                            params.base.project_name@,
                        )
                        &&& step_cmds(plan.post_steps.deep_view()) == spec_project_post_cmds(
                            *project,
                        )
                    },
                    Err(e) => match e {
                        GenerateError::Validation(_) => !spec_params_valid(project.base),
                        GenerateError::Process(pe) => lic is Err && pe@ == lic->Err_0,
                    },
                }
            }),
    {
        let vue3_gen = Vue3Generator::new();
        let license = self.project_license(store, project)?;
        let ghost lic_out = license@;
        let mut outputs: Vec<OutputFile> = Vec::new();
        outputs.push(license);
        proof {
            assert(outputs.deep_view() =~= seq![lic_out]);
        }
        let mut pre_steps: Vec<PostProcessor> = Vec::new();
        pre_steps.push(vue3_gen.create_vue3_project_step(params.base.project_name.as_str()));
        pre_steps.push(vue3_gen.install_dependencies_step());
        pre_steps.push(vue3_gen.install_tailwind_step());
        pre_steps.push(vue3_gen.tailwind_init_step());
        proof {
            assert(step_cmds(pre_steps.deep_view()) =~~= spec_vue3_pre_cmds(
                params.base.project_name@,
            ));
        }
        let post_steps = self.project_post_steps(project);
        Ok(ProjectPlan { outputs, pre_steps, post_steps })
    }

    /// Computes a complete React run: the scaffold and setup commands
    /// first, then the license and the project-level steps.
    #[verifier::rlimit(100)]
    #[verifier::spinoff_prover]
    pub fn generate_react_project(
        &self,
        store: &TemplateStore,
        params: &ReactParams,
        project: &ProjectParams,
    ) -> (r: Result<ProjectPlan, GenerateError>)
        ensures
            ({
                let lic = spec_process_file(
                    store@,
                    spec_license_template_path(project.base.license@),
                    spec_base_context(project.base),
                );
                match r {
                    Ok(plan) => {
                        &&& spec_params_valid(project.base)
                        &&& lic is Ok
                        &&& plan.outputs.deep_view() == seq![
                            OutputFileV { path: "LICENSE"@, content: lic->Ok_0 },
                        ]
                        &&& step_cmds(plan.pre_steps.deep_view()) == spec_react_pre_cmds(
                            params.base.project_name@,
                            params.state_management@,
                        )
                        &&& step_cmds(plan.post_steps.deep_view()) == spec_project_post_cmds(
                            *project,
                        )
                    },
                    Err(e) => match e {
                        GenerateError::Validation(_) => !spec_params_valid(project.base),
                        GenerateError::Process(pe) => lic is Err && pe@ == lic->Err_0,
                    },
                }
            }),
    {
        let react_gen = ReactGenerator::new();
        let license = self.project_license(store, project)?;
        let ghost lic_out = license@;
        let mut outputs: Vec<OutputFile> = Vec::new();
        outputs.push(license);
        proof {
            assert(outputs.deep_view() =~= seq![lic_out]);
        }
        let mut pre_steps: Vec<PostProcessor> = Vec::new();
        pre_steps.push(react_gen.create_react_project_step(params.base.project_name.as_str()));
        pre_steps.push(react_gen.install_dependencies_step());
        pre_steps.push(react_gen.install_tailwind_step());
        pre_steps.push(react_gen.tailwind_init_step());
        pre_steps.push(react_gen.install_router_step());
        pre_steps.push(react_gen.install_state_management_step(params.state_management.as_str()));
        proof {
            assert(step_cmds(pre_steps.deep_view()) =~~= spec_react_pre_cmds(
                params.base.project_name@,
                params.state_management@,
            ));
        }
        let post_steps = self.project_post_steps(project);
        Ok(ProjectPlan { outputs, pre_steps, post_steps })
    }
}

} // verus!
