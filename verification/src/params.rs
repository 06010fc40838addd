//! The layered parameter model.
//!
//! `BaseParams` holds the fields every generation run shares; each layer
//! (project, language, framework) wraps it, adds its own fields, and
//! contributes key-value bindings to the rendering context.  Layers are
//! merged in order, later layers overwriting earlier keys; derived values
//! (the PascalCase and snake_case forms of the project name) are computed
//! once per layer.  Anything read from the clock or the machine, such as
//! the calendar year, is handed in by the caller.

use vstd::prelude::*;

use crate::context::{CtxValue, CtxValueV, RenderContext};
use crate::errors::ValidationError;
use crate::string_utils::{spec_pascal_case, spec_snake_case, to_pascal_case, to_snake_case};
use crate::validation::{validate_host, validate_port, validate_project_name, valid_host,
    valid_project_name};

verus! {

/// A parameter set a run accepts: a well-formed project name, and the
/// port and host within bounds where they are chosen.
pub open spec fn spec_params_valid(p: BaseParams) -> bool {
    valid_project_name(p.project_name@) && (p.port is Some ==> p.port->0 >= 1024) && (p.host
        is Some ==> valid_host(p.host->0@))
}

/// The parameters every layer shares.
#[derive(Debug)]
pub struct BaseParams {
    /// The project's name, as given on the command line.
    pub project_name: String,
    /// A one-line description.
    pub project_description: Option<String>,
    /// The author written into the license text.
    pub author: Option<String>,
    /// The license identifier, `MIT` by default.
    pub license: String,
    /// The project's initial version.
    pub project_version: String,
    /// Whether a repository is initialized after generation.
    pub enable_git: bool,
    /// Whether pre-commit hooks are generated and installed.
    pub enable_precommit: bool,
    /// The language toolchain version, where a layer sets one.
    pub language_version: Option<String>,
    /// Module-based dependency management.
    pub enable_modules: bool,
    /// C interoperability for Go projects.
    pub enable_cgo: bool,
    /// Vendored dependencies for Go projects.
    pub enable_vendor: bool,
    /// Build tags for Go projects.
    pub build_tags: Vec<String>,
    /// The module path of a Go project.
    pub module_name: Option<String>,
    /// The host a server binds, where chosen.
    pub host: Option<String>,
    /// The port a server binds, where chosen.
    pub port: Option<u16>,
    /// The host offered as a default during configuration.
    pub default_host: Option<String>,
    /// The port offered as a default during configuration.
    pub default_port: Option<u16>,
    /// Swagger documentation generation.
    pub enable_swagger: bool,
    /// Cross-origin request support.
    pub enable_cors: bool,
    /// The middleware stack of a web framework.
    pub enable_middleware: bool,
    /// Request logging.
    pub enable_logging: bool,
    /// Token-based authentication.
    pub enable_jwt: bool,
    /// A database layer.
    pub enable_database: bool,
    /// The chosen database kind, where a database is enabled.
    pub database_type: Option<String>,
    /// A Redis cache layer.
    pub enable_redis: bool,
    /// gRPC support.
    pub enable_grpc: bool,
    /// The calendar year written into license texts, handed in by the
    /// caller, which reads the clock.
    pub year: Option<u64>,
}

/// The unconditional context bindings of the base layer: the project
/// name with its PascalCase and snake_case forms, the license, the
/// version, and every feature toggle.
pub open spec fn spec_required_context(p: BaseParams) -> Map<Seq<char>, CtxValueV> {
    Map::<Seq<char>, CtxValueV>::empty().insert(
        "project_name"@,
        CtxValueV::Str(p.project_name@),
    ).insert("project_name_pascal"@, CtxValueV::Str(spec_pascal_case(p.project_name@))).insert(
        "project_name_snake"@,
        CtxValueV::Str(spec_snake_case(p.project_name@)),
    ).insert("license"@, CtxValueV::Str(p.license@)).insert(
        "project_version"@,
        CtxValueV::Str(p.project_version@),
    ).insert("enable_git"@, CtxValueV::Bool(p.enable_git)).insert(
        "enable_precommit"@,
        CtxValueV::Bool(p.enable_precommit),
    ).insert("enable_modules"@, CtxValueV::Bool(p.enable_modules)).insert(
        "enable_cgo"@,
        CtxValueV::Bool(p.enable_cgo),
    ).insert("enable_vendor"@, CtxValueV::Bool(p.enable_vendor)).insert(
        "enable_swagger"@,
        CtxValueV::Bool(p.enable_swagger),
    ).insert("enable_cors"@, CtxValueV::Bool(p.enable_cors)).insert(
        "enable_middleware"@,
        CtxValueV::Bool(p.enable_middleware),
    ).insert("enable_logging"@, CtxValueV::Bool(p.enable_logging)).insert(
        "enable_jwt"@,
        CtxValueV::Bool(p.enable_jwt),
    ).insert("enable_database"@, CtxValueV::Bool(p.enable_database)).insert(
        "enable_redis"@,
        CtxValueV::Bool(p.enable_redis),
    ).insert("enable_grpc"@, CtxValueV::Bool(p.enable_grpc)).insert(
        "build_tags"@,
        CtxValueV::StrList(p.build_tags.deep_view()),
    )
}

/// The context bindings of the base layer: the unconditional bindings,
/// and each optional field that is set.
pub open spec fn spec_base_context(p: BaseParams) -> Map<Seq<char>, CtxValueV> {
    let m = spec_required_context(p);
    let m = if p.project_description is Some {
        m.insert("project_description"@, CtxValueV::Str(p.project_description->0@))
    } else {
        m
    };
    let m = if p.author is Some {
        m.insert("author"@, CtxValueV::Str(p.author->0@))
    } else {
        m
    };
    let m = if p.language_version is Some {
        m.insert("language_version"@, CtxValueV::Str(p.language_version->0@))
    } else {
        m
    };
    let m = if p.module_name is Some {
        m.insert("module_name"@, CtxValueV::Str(p.module_name->0@))
    } else {
        m
    };
    let m = if p.host is Some {
        m.insert("host"@, CtxValueV::Str(p.host->0@))
    } else {
        m
    };
    let m = if p.port is Some {
        m.insert("port"@, CtxValueV::Int(p.port->0 as u64))
    } else {
        m
    };
    let m = if p.default_host is Some {
        m.insert("default_host"@, CtxValueV::Str(p.default_host->0@))
    } else {
        m
    };
    let m = if p.default_port is Some {
        m.insert("default_port"@, CtxValueV::Int(p.default_port->0 as u64))
    } else {
        m
    };
    let m = if p.database_type is Some {
        m.insert("database_type"@, CtxValueV::Str(p.database_type->0@))
    } else {
        m
    };
    let m = if p.year is Some {
        m.insert("year"@, CtxValueV::Int(p.year->0))
    } else {
        m
    };
    m
}

impl BaseParams {
    /// Base parameters for `project_name` with every toggle off, the MIT
    /// license and version 0.1.0.
    pub fn new(project_name: String) -> (r: BaseParams)
        ensures
            r.project_name == project_name,
            r.project_description is None,
            r.author is None,
            r.license@ == "MIT"@,
            r.project_version@ == "0.1.0"@,
            !r.enable_git,
            !r.enable_precommit,
            r.language_version is None,
            !r.enable_modules,
            !r.enable_cgo,
            !r.enable_vendor,
            r.build_tags@.len() == 0,
            r.module_name is None,
            r.host is None,
            r.port is None,
            r.default_host is None,
            r.default_port is None,
            !r.enable_swagger,
            !r.enable_cors,
            !r.enable_middleware,
            !r.enable_logging,
            !r.enable_jwt,
            !r.enable_database,
            r.database_type is None,
            !r.enable_redis,
            !r.enable_grpc,
            r.year is None,
    {
        BaseParams {
            project_name,
            project_description: None,
            author: None,
            license: "MIT".to_owned(),
            project_version: "0.1.0".to_owned(),
            enable_git: false,
            enable_precommit: false,
            language_version: None,
            enable_modules: false,
            enable_cgo: false,
            enable_vendor: false,
            build_tags: Vec::new(),
            module_name: None,
            host: None,
            port: None,
            default_host: None,
            default_port: None,
            enable_swagger: false,
            enable_cors: false,
            enable_middleware: false,
            enable_logging: false,
            enable_jwt: false,
            enable_database: false,
            database_type: None,
            enable_redis: false,
            enable_grpc: false,
            year: None,
        }
    }

    /// Checks the fields a user supplies: the project name, and the host
    /// and port where they are set.
    pub fn validate(&self) -> (r: Result<(), ValidationError>)
        ensures
            r is Ok <==> spec_params_valid(*self),
    {
        validate_project_name(self.project_name.as_str())?;
        if let Some(p) = self.port {
            validate_port(p)?;
        }
        if let Some(h) = &self.host {
            validate_host(h.as_str())?;
        }
        Ok(())
    }

    #[verifier::rlimit(100)]
    #[verifier::spinoff_prover]
    fn required_context(&self) -> (r: RenderContext)
        ensures
            r.wf(),
            r@ == spec_required_context(*self),
    {
        let mut ctx = RenderContext::new();
        ctx.insert("project_name", CtxValue::Str(self.project_name.clone()));
        ctx.insert(
            "project_name_pascal",
            CtxValue::Str(to_pascal_case(self.project_name.as_str())),
        );
        ctx.insert("project_name_snake", CtxValue::Str(to_snake_case(self.project_name.as_str())));
        ctx.insert("license", CtxValue::Str(self.license.clone()));
        ctx.insert("project_version", CtxValue::Str(self.project_version.clone()));
        ctx.insert("enable_git", CtxValue::Bool(self.enable_git));
        ctx.insert("enable_precommit", CtxValue::Bool(self.enable_precommit));
        ctx.insert("enable_modules", CtxValue::Bool(self.enable_modules));
        ctx.insert("enable_cgo", CtxValue::Bool(self.enable_cgo));
        ctx.insert("enable_vendor", CtxValue::Bool(self.enable_vendor));
        ctx.insert("enable_swagger", CtxValue::Bool(self.enable_swagger));
        ctx.insert("enable_cors", CtxValue::Bool(self.enable_cors));
        ctx.insert("enable_middleware", CtxValue::Bool(self.enable_middleware));
        ctx.insert("enable_logging", CtxValue::Bool(self.enable_logging));
        ctx.insert("enable_jwt", CtxValue::Bool(self.enable_jwt));
        ctx.insert("enable_database", CtxValue::Bool(self.enable_database));
        ctx.insert("enable_redis", CtxValue::Bool(self.enable_redis));
        ctx.insert("enable_grpc", CtxValue::Bool(self.enable_grpc));
        let tags = self.build_tags.clone();
        proof {
            assert(tags@ =~= self.build_tags@);
            assert(tags.deep_view() =~= self.build_tags.deep_view());
        }
        ctx.insert("build_tags", CtxValue::StrList(tags));
        ctx
    }

    /// This layer's context bindings.
    #[verifier::rlimit(100)]
    #[verifier::spinoff_prover]
    pub fn to_context(&self) -> (r: RenderContext)
        ensures
            r.wf(),
            r@ == spec_base_context(*self),
    {
        let mut ctx = self.required_context();
        if let Some(d) = &self.project_description {
            ctx.insert("project_description", CtxValue::Str(d.clone()));
        }
        if let Some(a) = &self.author {
            ctx.insert("author", CtxValue::Str(a.clone()));
        }
        if let Some(v) = &self.language_version {
            ctx.insert("language_version", CtxValue::Str(v.clone()));
        }
        if let Some(m) = &self.module_name {
            ctx.insert("module_name", CtxValue::Str(m.clone()));
        }
        if let Some(h) = &self.host {
            ctx.insert("host", CtxValue::Str(h.clone()));
        }
        if let Some(p) = self.port {
            ctx.insert("port", CtxValue::Int(p as u64));
        }
        if let Some(h) = &self.default_host {
            ctx.insert("default_host", CtxValue::Str(h.clone()));
        }
        if let Some(p) = self.default_port {
            ctx.insert("default_port", CtxValue::Int(p as u64));
        }
        if let Some(d) = &self.database_type {
            ctx.insert("database_type", CtxValue::Str(d.clone()));
        }
        if let Some(y) = self.year {
            ctx.insert("year", CtxValue::Int(y));
        }
        ctx
    }
}

/// The project-level parameter layer: name, description, author, license,
/// and the repository and pre-commit toggles.
#[derive(Debug)]
pub struct ProjectParams {
    /// The shared base parameters.
    pub base: BaseParams,
}

impl ProjectParams {
    /// Project parameters for `name`: the repository toggle is on and
    /// pre-commit off until chosen otherwise.
    pub fn new(name: String) -> (r: ProjectParams)
        ensures
            r.base.project_name == name,
            r.base.enable_git,
            !r.base.enable_precommit,
            r.base.license@ == "MIT"@,
            r.base.author is None,
            r.base.project_description is None,
    {
        let mut base = BaseParams::new(name);
        base.enable_git = true;
        base.enable_precommit = false;
        ProjectParams { base }
    }

    /// Project parameters for `project_name`.
    pub fn from_project_name(project_name: String) -> (r: ProjectParams)
        ensures
            r.base.project_name == project_name,
            r.base.enable_git,
            !r.base.enable_precommit,
            r.base.license@ == "MIT"@,
            r.base.author is None,
            r.base.project_description is None,
    {
        ProjectParams::new(project_name)
    }

    /// Sets the description.
    pub fn with_description(self, description: String) -> (r: ProjectParams)
        ensures
            r == (ProjectParams {
                base: BaseParams { project_description: Some(description), ..self.base },
            }),
    {
        ProjectParams { base: BaseParams { project_description: Some(description), ..self.base } }
    }

    /// Sets the author.
    pub fn with_author(self, author: String) -> (r: ProjectParams)
        ensures
            r == (ProjectParams { base: BaseParams { author: Some(author), ..self.base } }),
    {
        ProjectParams { base: BaseParams { author: Some(author), ..self.base } }
    }

    /// Sets the license.
    pub fn with_license(self, license: String) -> (r: ProjectParams)
        ensures
            r == (ProjectParams { base: BaseParams { license, ..self.base } }),
    {
        ProjectParams { base: BaseParams { license, ..self.base } }
    }

    /// Turns repository initialization on or off.
    pub fn with_git(self, enable_git: bool) -> (r: ProjectParams)
        ensures
            r == (ProjectParams { base: BaseParams { enable_git, ..self.base } }),
    {
        ProjectParams { base: BaseParams { enable_git, ..self.base } }
    }

    /// Turns pre-commit hooks on or off.
    pub fn with_precommit(self, enable_precommit: bool) -> (r: ProjectParams)
        ensures
            r == (ProjectParams { base: BaseParams { enable_precommit, ..self.base } }),
    {
        ProjectParams { base: BaseParams { enable_precommit, ..self.base } }
    }

    /// Sets the project version.
    pub fn with_version(self, version: String) -> (r: ProjectParams)
        ensures
            r == (ProjectParams { base: BaseParams { project_version: version, ..self.base } }),
    {
        ProjectParams { base: BaseParams { project_version: version, ..self.base } }
    }

    /// The project's name.
    pub fn name(&self) -> (r: &String)
        ensures
            r == self.base.project_name,
    {
        &self.base.project_name
    }

    /// The description, where one is set.
    pub fn description(&self) -> (r: &Option<String>)
        ensures
            r == self.base.project_description,
    {
        &self.base.project_description
    }

    /// The author, where one is set.
    pub fn author(&self) -> (r: &Option<String>)
        ensures
            r == self.base.author,
    {
        &self.base.author
    }

    /// The license identifier.
    pub fn license(&self) -> (r: &String)
        ensures
            r == self.base.license,
    {
        &self.base.license
    }

    /// Whether a repository is initialized.
    pub fn enable_git(&self) -> (r: bool)
        ensures
            r == self.base.enable_git,
    {
        self.base.enable_git
    }

    /// Whether pre-commit hooks are installed.
    pub fn enable_precommit(&self) -> (r: bool)
        ensures
            r == self.base.enable_precommit,
    {
        self.base.enable_precommit
    }

    /// The project version.
    pub fn version(&self) -> (r: &String)
        ensures
            r == self.base.project_version,
    {
        &self.base.project_version
    }

    /// Checks the user-supplied fields.
    pub fn validate(&self) -> (r: Result<(), ValidationError>)
        ensures
            r is Ok <==> spec_params_valid(self.base),
    {
        self.base.validate()
    }

    /// This layer's context bindings.
    pub fn to_context(&self) -> (r: RenderContext)
        ensures
            r.wf(),
            r@ == spec_base_context(self.base),
    {
        self.base.to_context()
    }
}

/// The tail of an inferred Go module path: the project name folded to
/// lowercase, spaces becoming hyphens.
pub open spec fn spec_module_tail(s: Seq<char>) -> Seq<char>
    decreases s.len(),
{
    if s.len() == 0 {
        Seq::empty()
    } else {
        let c = crate::text::lower_char_spec(s.last());
        spec_module_tail(s.drop_last()).push(
            if c == ' ' {
                '-'
            } else {
                c
            },
        )
    }
}

/// The module path inferred from a project name.
pub open spec fn spec_infer_module_name(s: Seq<char>) -> Seq<char> {
    "github.com/example/"@ + spec_module_tail(s)
}

/// A Python package name: the project name folded to lowercase, hyphens
/// and spaces becoming underscores.
pub open spec fn spec_package_name(s: Seq<char>) -> Seq<char>
    decreases s.len(),
{
    if s.len() == 0 {
        Seq::empty()
    } else {
        let c = crate::text::lower_char_spec(s.last());
        spec_package_name(s.drop_last()).push(
            if c == '-' || c == ' ' {
                '_'
            } else {
                c
            },
        )
    }
}

/// The Go language layer.
#[derive(Debug)]
pub struct GoParams {
    /// The shared base parameters.
    pub base: BaseParams,
}

/// The context bindings of the Go layer: the base bindings, and
/// `go_version` where a toolchain version is set.
pub open spec fn spec_go_context(p: GoParams) -> Map<Seq<char>, CtxValueV> {
    let m = spec_base_context(p.base);
    if p.base.language_version is Some {
        m.insert("go_version"@, CtxValueV::Str(p.base.language_version->0@))
    } else {
        m
    }
}

impl GoParams {
    /// Go parameters for the module at `module_name`; the project name is
    /// the module path's last segment, Go 1.21 and modules the defaults.
    pub fn new(module_name: String) -> (r: GoParams)
        ensures
            r.base.project_name@ == crate::text::file_name_of(module_name@),
            r.base.language_version is Some && r.base.language_version->0@ == "1.21"@,
            r.base.enable_modules,
            !r.base.enable_cgo,
            !r.base.enable_vendor,
            r.base.module_name == Some(module_name),
            r.base.build_tags@.len() == 0,
    {
        let project_name = crate::text::file_name(module_name.as_str());
        let mut base = BaseParams::new(project_name);
        base.language_version = Some("1.21".to_owned());
        base.enable_modules = true;
        base.enable_cgo = false;
        base.enable_vendor = false;
        base.module_name = Some(module_name);
        GoParams { base }
    }

    /// Go parameters for `project_name`, with the module path inferred
    /// from it; the result is exactly that of `new` on the inferred path.
    pub fn from_project_name(project_name: String) -> (r: GoParams)
        ensures
            r.base.project_name@ == crate::text::file_name_of(
                spec_infer_module_name(project_name@),
            ),
            r.base.module_name is Some && r.base.module_name->0@ == spec_infer_module_name(
                project_name@,
            ),
            r.base.language_version is Some && r.base.language_version->0@ == "1.21"@,
            r.base.enable_modules,
            !r.base.enable_cgo,
            !r.base.enable_vendor,
            r.base.build_tags@.len() == 0,
    {
        GoParams::new(GoParams::infer_module_name(project_name.as_str()))
    }

    /// Sets the Go toolchain version.
    pub fn with_version(self, version: String) -> (r: GoParams)
        ensures
            r == (GoParams {
                base: BaseParams { language_version: Some(version), ..self.base },
            }),
    {
        GoParams { base: BaseParams { language_version: Some(version), ..self.base } }
    }

    /// Turns C interoperability on or off.
    pub fn with_cgo(self, enable: bool) -> (r: GoParams)
        ensures
            r == (GoParams { base: BaseParams { enable_cgo: enable, ..self.base } }),
    {
        GoParams { base: BaseParams { enable_cgo: enable, ..self.base } }
    }

    /// Adds a build tag.
    pub fn with_build_tag(self, tag: String) -> (r: GoParams)
        ensures
            r.base == (BaseParams { build_tags: r.base.build_tags, ..self.base }),
            r.base.build_tags@ == self.base.build_tags@.push(tag),
    {
        let mut base = self.base;
        base.build_tags.push(tag);
        GoParams { base }
    }

    /// Turns vendored dependencies on or off.
    pub fn with_vendor(self, enable: bool) -> (r: GoParams)
        ensures
            r == (GoParams { base: BaseParams { enable_vendor: enable, ..self.base } }),
    {
        GoParams { base: BaseParams { enable_vendor: enable, ..self.base } }
    }

    /// Infers a module path from a project name: a fixed host prefix,
    /// then the name folded to lowercase with spaces as hyphens.
    pub fn infer_module_name(project_name: &str) -> (r: String)
        ensures
            r@ == spec_infer_module_name(project_name@),
    {
        let mut out = String::from_str("github.com/example/");
        let n = project_name.unicode_len();
        let mut i: usize = 0;
        proof {
            assert(out@ + spec_module_tail(project_name@.take(0)) =~= out@);
        }
        while i < n
            invariant
                0 <= i <= n,
                n == project_name@.len(),
                out@ == "github.com/example/"@ + spec_module_tail(project_name@.take(i as int)),
            decreases n - i,
        {
            proof {
                assert(project_name@.take(i + 1).drop_last() =~= project_name@.take(i as int));
                assert(project_name@.take(i + 1).last() == project_name@[i as int]);
            }
            let c = crate::text::lower_char(project_name.get_char(i));
            if c == ' ' {
                out.push('-');
            } else {
                out.push(c);
            }
            proof {
                assert(out@ =~= "github.com/example/"@ + spec_module_tail(
                    project_name@.take(i + 1),
                ));
            }
            i = i + 1;
        }
        proof {
            assert(project_name@.take(n as int) =~= project_name@);
        }
        out
    }

    /// The Go toolchain version, where one is set.
    pub fn version(&self) -> (r: Option<&String>)
        ensures
            match r {
                Some(v) => self.base.language_version == Some(*v),
                None => self.base.language_version is None,
            },
    {
        self.base.language_version.as_ref()
    }

    /// The module path, where one is set.
    pub fn module_name(&self) -> (r: Option<&String>)
        ensures
            match r {
                Some(v) => self.base.module_name == Some(*v),
                None => self.base.module_name is None,
            },
    {
        self.base.module_name.as_ref()
    }

    /// Whether modules manage dependencies.
    pub fn enable_modules(&self) -> (r: bool)
        ensures
            r == self.base.enable_modules,
    {
        self.base.enable_modules
    }

    /// Whether C interoperability is on.
    pub fn enable_cgo(&self) -> (r: bool)
        ensures
            r == self.base.enable_cgo,
    {
        self.base.enable_cgo
    }

    /// The build tags.
    pub fn build_tags(&self) -> (r: &Vec<String>)
        ensures
            r == self.base.build_tags,
    {
        &self.base.build_tags
    }

    /// Whether dependencies are vendored.
    pub fn enable_vendor(&self) -> (r: bool)
        ensures
            r == self.base.enable_vendor,
    {
        self.base.enable_vendor
    }

    /// Checks the user-supplied fields.
    pub fn validate(&self) -> (r: Result<(), ValidationError>)
        ensures
            r is Ok <==> spec_params_valid(self.base),
    {
        self.base.validate()
    }

    /// This layer's context bindings.
    pub fn to_context(&self) -> (r: RenderContext)
        ensures
            r.wf(),
            r@ == spec_go_context(*self),
    {
        let mut ctx = self.base.to_context();
        if let Some(v) = &self.base.language_version {
            ctx.insert("go_version", CtxValue::Str(v.clone()));
        }
        ctx
    }
}

/// The Python language layer.
#[derive(Debug)]
pub struct PythonParams {
    /// The shared base parameters.
    pub base: BaseParams,
    /// The version of the `uv` package manager written into templates.
    pub uv_version: String,
    /// The version of the `ruff` linter written into templates.
    pub ruff_version: String,
}

/// The context bindings of the Python layer: the base bindings,
/// `python_version` where set, the derived package name, and the tool
/// versions.
pub open spec fn spec_python_context(p: PythonParams) -> Map<Seq<char>, CtxValueV> {
    let m = spec_base_context(p.base);
    let m = if p.base.language_version is Some {
        m.insert("python_version"@, CtxValueV::Str(p.base.language_version->0@))
    } else {
        m
    };
    m.insert("package_name"@, CtxValueV::Str(spec_package_name(p.base.project_name@))).insert(
        "uv_version"@,
        CtxValueV::Str(p.uv_version@),
    ).insert("ruff_version"@, CtxValueV::Str(p.ruff_version@))
}

impl PythonParams {
    /// Python parameters for `project_name`: Python 3.11, modules on, and
    /// the bundled tool versions.
    pub fn new(project_name: String) -> (r: PythonParams)
        ensures
            r.base.project_name == project_name,
            r.base.language_version is Some && r.base.language_version->0@ == "3.11"@,
            r.base.enable_modules,
            !r.base.enable_precommit,
            r.uv_version@ == "0.9.1"@,
            r.ruff_version@ == "0.12.1"@,
    {
        let mut base = BaseParams::new(project_name);
        base.language_version = Some("3.11".to_owned());
        base.enable_modules = true;
        PythonParams {
            base,
            uv_version: "0.9.1".to_owned(),
            ruff_version: "0.12.1".to_owned(),
        }
    }

    /// Python parameters for `project_name`.
    pub fn from_project_name(project_name: String) -> (r: PythonParams)
        ensures
            r.base.project_name == project_name,
            r.base.language_version is Some && r.base.language_version->0@ == "3.11"@,
    {
        PythonParams::new(project_name)
    }

    /// Sets the Python version.
    pub fn with_version(self, version: String) -> (r: PythonParams)
        ensures
            r == (PythonParams {
                base: BaseParams { language_version: Some(version), ..self.base },
                ..self
            }),
    {
        PythonParams {
            base: BaseParams { language_version: Some(version), ..self.base },
            ..self
        }
    }

    /// Sets the `uv` version.
    pub fn with_uv_version(self, version: String) -> (r: PythonParams)
        ensures
            r == (PythonParams { uv_version: version, ..self }),
    {
        PythonParams { uv_version: version, ..self }
    }

    /// Sets the `ruff` version.
    pub fn with_ruff_version(self, version: String) -> (r: PythonParams)
        ensures
            r == (PythonParams { ruff_version: version, ..self }),
    {
        PythonParams { ruff_version: version, ..self }
    }

    /// Turns pre-commit hooks on or off.
    pub fn with_precommit(self, enable: bool) -> (r: PythonParams)
        ensures
            r == (PythonParams {
                base: BaseParams { enable_precommit: enable, ..self.base },
                ..self
            }),
    {
        PythonParams { base: BaseParams { enable_precommit: enable, ..self.base }, ..self }
    }

    /// Sets the license.
    pub fn with_license(self, license: String) -> (r: PythonParams)
        ensures
            r == (PythonParams { base: BaseParams { license, ..self.base }, ..self }),
    {
        PythonParams { base: BaseParams { license, ..self.base }, ..self }
    }

    /// The Python version, where one is set.
    pub fn version(&self) -> (r: Option<&String>)
        ensures
            match r {
                Some(v) => self.base.language_version == Some(*v),
                None => self.base.language_version is None,
            },
    {
        self.base.language_version.as_ref()
    }

    /// The package name derived from the project name: lowercase, with
    /// hyphens and spaces as underscores.
    pub fn package_name(&self) -> (r: String)
        ensures
            r@ == spec_package_name(self.base.project_name@),
    {
        let s = self.base.project_name.as_str();
        let n = s.unicode_len();
        let mut out = String::new();
        let mut i: usize = 0;
        while i < n
            invariant
                0 <= i <= n,
                n == s@.len(),
                out@ == spec_package_name(s@.take(i as int)),
            decreases n - i,
        {
            proof {
                assert(s@.take(i + 1).drop_last() =~= s@.take(i as int));
                assert(s@.take(i + 1).last() == s@[i as int]);
            }
            let c = crate::text::lower_char(s.get_char(i));
            if c == '-' || c == ' ' {
                out.push('_');
            } else {
                out.push(c);
            }
            proof {
                assert(out@ =~= spec_package_name(s@.take(i + 1)));
            }
            i = i + 1;
        }
        proof {
            assert(s@.take(n as int) =~= s@);
        }
        out
    }

    /// Whether pre-commit hooks are installed.
    pub fn enable_precommit(&self) -> (r: bool)
        ensures
            r == self.base.enable_precommit,
    {
        self.base.enable_precommit
    }

    /// Checks the user-supplied fields.
    pub fn validate(&self) -> (r: Result<(), ValidationError>)
        ensures
            r is Ok <==> spec_params_valid(self.base),
    {
        self.base.validate()
    }

    /// This layer's context bindings.
    pub fn to_context(&self) -> (r: RenderContext)
        ensures
            r.wf(),
            r@ == spec_python_context(*self),
    {
        let mut ctx = self.base.to_context();
        if let Some(v) = &self.base.language_version {
            ctx.insert("python_version", CtxValue::Str(v.clone()));
        }
        ctx.insert("package_name", CtxValue::Str(self.package_name()));
        ctx.insert("uv_version", CtxValue::Str(self.uv_version.clone()));
        ctx.insert("ruff_version", CtxValue::Str(self.ruff_version.clone()));
        ctx
    }
}

/// The Rust language layer.
#[derive(Debug)]
pub struct RustParams {
    /// The shared base parameters.
    pub base: BaseParams,
    /// The Rust toolchain version.
    pub rust_version: Option<String>,
    /// The Cargo version, where probed.
    pub cargo_version: Option<String>,
}

/// The context bindings of the Rust layer: the base bindings, and the
/// toolchain versions where set.
pub open spec fn spec_rust_context(p: RustParams) -> Map<Seq<char>, CtxValueV> {
    let m = spec_base_context(p.base);
    let m = if p.rust_version is Some {
        m.insert("rust_version"@, CtxValueV::Str(p.rust_version->0@))
    } else {
        m
    };
    if p.cargo_version is Some {
        m.insert("cargo_version"@, CtxValueV::Str(p.cargo_version->0@))
    } else {
        m
    }
}

impl RustParams {
    /// Rust parameters for `project_name`, with Rust 1.75 as the default
    /// toolchain.
    pub fn new(project_name: String) -> (r: RustParams)
        ensures
            r.base.project_name == project_name,
            r.rust_version is Some && r.rust_version->0@ == "1.75"@,
            r.cargo_version is None,
    {
        let mut base = BaseParams::new(project_name);
        base.language_version = Some("1.75".to_owned());
        RustParams { base, rust_version: Some("1.75".to_owned()), cargo_version: None }
    }

    /// Sets the Rust toolchain version.
    pub fn with_rust_version(self, version: String) -> (r: RustParams)
        ensures
            r.rust_version == Some(version),
            r.base.language_version == Some(version),
            r.cargo_version == self.cargo_version,
            r.base == (BaseParams { language_version: Some(version), ..self.base }),
    {
        let v2 = version.clone();
        RustParams {
            base: BaseParams { language_version: Some(version), ..self.base },
            rust_version: Some(v2),
            cargo_version: self.cargo_version,
        }
    }

    /// Sets the Cargo version.
    pub fn with_cargo_version(self, version: String) -> (r: RustParams)
        ensures
            r == (RustParams { cargo_version: Some(version), ..self }),
    {
        RustParams { cargo_version: Some(version), ..self }
    }

    /// The Rust toolchain version, where one is set.
    pub fn version(&self) -> (r: Option<&String>)
        ensures
            match r {
                Some(v) => self.rust_version == Some(*v),
                None => self.rust_version is None,
            },
    {
        self.rust_version.as_ref()
    }

    /// The Cargo version, where one is set.
    pub fn get_cargo_version(&self) -> (r: Option<&String>)
        ensures
            match r {
                Some(v) => self.cargo_version == Some(*v),
                None => self.cargo_version is None,
            },
    {
        self.cargo_version.as_ref()
    }

    /// Checks the user-supplied fields.
    pub fn validate(&self) -> (r: Result<(), ValidationError>)
        ensures
            r is Ok <==> spec_params_valid(self.base),
    {
        self.base.validate()
    }

    /// This layer's context bindings.
    pub fn to_context(&self) -> (r: RenderContext)
        ensures
            r.wf(),
            r@ == spec_rust_context(*self),
    {
        let mut ctx = self.base.to_context();
        if let Some(v) = &self.rust_version {
            ctx.insert("rust_version", CtxValue::Str(v.clone()));
        }
        if let Some(v) = &self.cargo_version {
            ctx.insert("cargo_version", CtxValue::Str(v.clone()));
        }
        ctx
    }
}

} // verus!
