//! The framework parameter layers: one struct per supported framework,
//! each wrapping the shared base fields together with the project and
//! language layers it builds on.

use vstd::prelude::*;

use crate::context::RenderContext;
use crate::errors::ValidationError;
use crate::params::{spec_base_context, BaseParams, GoParams, ProjectParams, RustParams};

verus! {

/// The Gin web framework layer.
#[derive(Debug)]
pub struct GinParams {
    /// The shared base parameters.
    pub base: BaseParams,
    /// The project layer of the same run.
    pub project: ProjectParams,
    /// The Go language layer of the same run.
    pub go: GoParams,
}

impl GinParams {
    /// Gin parameters for `project_name`: local host and port 8080 as the
    /// offered defaults, with Swagger, CORS, middleware and logging on.
    pub fn from_project_name(project_name: String) -> (r: GinParams)
        ensures
            r.base.project_name == project_name,
            r.base.default_host is Some && r.base.default_host->0@ == "127.0.0.1"@,
            r.base.default_port == Some(8080u16),
            r.base.enable_swagger,
            r.base.enable_cors,
            r.base.enable_middleware,
            r.base.enable_logging,
            !r.base.enable_jwt,
            !r.base.enable_precommit,
            !r.base.enable_redis,
            !r.base.enable_database,
            r.base.database_type is None,
            r.base.host is None,
            r.base.port is None,
            r.project.base.project_name == project_name,
            r.go.base.module_name is Some,
    {
        let name2 = project_name.clone();
        let name3 = project_name.clone();
        let mut base = BaseParams::new(project_name);
        base.default_host = Some("127.0.0.1".to_owned());
        base.default_port = Some(8080);
        base.enable_swagger = true;
        base.enable_cors = true;
        base.enable_middleware = true;
        base.enable_logging = true;
        GinParams {
            base,
            project: ProjectParams::from_project_name(name2),
            go: GoParams::from_project_name(name3),
        }
    }

    /// Sets the host and port the server binds.
    pub fn with_server(self, host: String, port: u16) -> (r: GinParams)
        ensures
            r == (GinParams {
                base: BaseParams { host: Some(host), port: Some(port), ..self.base },
                ..self
            }),
    {
        GinParams { base: BaseParams { host: Some(host), port: Some(port), ..self.base }, ..self }
    }

    /// Sets the host the server binds.
    pub fn with_host(self, host: String) -> (r: GinParams)
        ensures
            r == (GinParams { base: BaseParams { host: Some(host), ..self.base }, ..self }),
    {
        GinParams { base: BaseParams { host: Some(host), ..self.base }, ..self }
    }

    /// Sets the port the server binds.
    pub fn with_port(self, port: u16) -> (r: GinParams)
        ensures
            r == (GinParams { base: BaseParams { port: Some(port), ..self.base }, ..self }),
    {
        GinParams { base: BaseParams { port: Some(port), ..self.base }, ..self }
    }

    /// Turns Swagger documentation on or off.
    pub fn with_swagger(self, enable_swagger: bool) -> (r: GinParams)
        ensures
            r == (GinParams { base: BaseParams { enable_swagger, ..self.base }, ..self }),
    {
        GinParams { base: BaseParams { enable_swagger, ..self.base }, ..self }
    }

    /// Turns CORS support on or off.
    pub fn with_cors(self, enable_cors: bool) -> (r: GinParams)
        ensures
            r == (GinParams { base: BaseParams { enable_cors, ..self.base }, ..self }),
    {
        GinParams { base: BaseParams { enable_cors, ..self.base }, ..self }
    }

    /// Turns the middleware stack on or off.
    pub fn with_middleware(self, enable_middleware: bool) -> (r: GinParams)
        ensures
            r == (GinParams { base: BaseParams { enable_middleware, ..self.base }, ..self }),
    {
        GinParams { base: BaseParams { enable_middleware, ..self.base }, ..self }
    }

    /// Turns request logging on or off.
    pub fn with_logging(self, enable_logging: bool) -> (r: GinParams)
        ensures
            r == (GinParams { base: BaseParams { enable_logging, ..self.base }, ..self }),
    {
        GinParams { base: BaseParams { enable_logging, ..self.base }, ..self }
    }

    /// Replaces the project layer.
    pub fn with_project(self, project: ProjectParams) -> (r: GinParams)
        ensures
            r == (GinParams { project, ..self }),
    {
        GinParams { project, ..self }
    }

    /// Replaces the Go layer.
    pub fn with_go(self, go: GoParams) -> (r: GinParams)
        ensures
            r == (GinParams { go, ..self }),
    {
        GinParams { go, ..self }
    }

    /// Chooses a database kind and turns the database layer on.
    pub fn with_database(self, db_type: String) -> (r: GinParams)
        ensures
            r == (GinParams {
                base: BaseParams {
                    database_type: Some(db_type),
                    enable_database: true,
                    ..self.base
                },
                ..self
            }),
    {
        GinParams {
            base: BaseParams { database_type: Some(db_type), enable_database: true, ..self.base },
            ..self
        }
    }

    /// Turns the Redis cache layer on or off.
    pub fn with_redis(self, enable_redis: bool) -> (r: GinParams)
        ensures
            r == (GinParams { base: BaseParams { enable_redis, ..self.base }, ..self }),
    {
        GinParams { base: BaseParams { enable_redis, ..self.base }, ..self }
    }

    /// Turns token authentication on or off.
    pub fn with_jwt(self, enable_jwt: bool) -> (r: GinParams)
        ensures
            r == (GinParams { base: BaseParams { enable_jwt, ..self.base }, ..self }),
    {
        GinParams { base: BaseParams { enable_jwt, ..self.base }, ..self }
    }

    /// Turns pre-commit hooks on or off.
    pub fn with_precommit(self, enable_precommit: bool) -> (r: GinParams)
        ensures
            r == (GinParams { base: BaseParams { enable_precommit, ..self.base }, ..self }),
    {
        GinParams { base: BaseParams { enable_precommit, ..self.base }, ..self }
    }

    /// The host the server binds, where chosen.
    pub fn host(&self) -> (r: Option<&String>)
        ensures
            match r {
                Some(v) => self.base.host == Some(*v),
                None => self.base.host is None,
            },
    {
        self.base.host.as_ref()
    }

    /// The port the server binds, where chosen.
    pub fn port(&self) -> (r: Option<u16>)
        ensures
            r == self.base.port,
    {
        self.base.port
    }

    /// Whether Swagger documentation is generated.
    pub fn enable_swagger(&self) -> (r: bool)
        ensures
            r == self.base.enable_swagger,
    {
        self.base.enable_swagger
    }

    /// Whether CORS support is on.
    pub fn enable_cors(&self) -> (r: bool)
        ensures
            r == self.base.enable_cors,
    {
        self.base.enable_cors
    }

    /// Whether the middleware stack is on.
    pub fn enable_middleware(&self) -> (r: bool)
        ensures
            r == self.base.enable_middleware,
    {
        self.base.enable_middleware
    }

    /// Whether request logging is on.
    pub fn enable_logging(&self) -> (r: bool)
        ensures
            r == self.base.enable_logging,
    {
        self.base.enable_logging
    }

    /// Whether token authentication is on.
    pub fn enable_jwt(&self) -> (r: bool)
        ensures
            r == self.base.enable_jwt,
    {
        self.base.enable_jwt
    }

    /// Whether pre-commit hooks are installed.
    pub fn enable_precommit(&self) -> (r: bool)
        ensures
            r == self.base.enable_precommit,
    {
        self.base.enable_precommit
    }

    /// Checks the user-supplied fields.
    pub fn validate(&self) -> (r: Result<(), ValidationError>)
        ensures
            r is Ok <==> crate::params::spec_params_valid(self.base),
    {
        self.base.validate()
    }

    /// This layer's context bindings.
    pub fn to_context(&self) -> (r: RenderContext)
        ensures
            r.wf(),
            r@ == spec_base_context(self.base),
    {
        self.base.to_context()
    }
}

/// The go-zero microservice framework layer.
#[derive(Debug)]
pub struct GoZeroParams {
    /// The shared base parameters.
    pub base: BaseParams,
    /// The project layer of the same run.
    pub project: ProjectParams,
    /// The Go language layer of the same run.
    pub go: GoParams,
    /// Whether the HTTP API service is generated.
    pub enable_api: bool,
    /// Whether the RPC service is generated.
    pub enable_rpc: bool,
    /// Whether the admin service is generated.
    pub enable_admin: bool,
}

impl GoZeroParams {
    /// go-zero parameters for `project_name`: local host and port 8888 as
    /// the offered defaults, gRPC on, and only the API service generated.
    pub fn from_project_name(project_name: String) -> (r: GoZeroParams)
        ensures
            r.base.project_name == project_name,
            r.base.default_host is Some && r.base.default_host->0@ == "127.0.0.1"@,
            r.base.default_port == Some(8888u16),
            r.base.enable_swagger,
            r.base.enable_cors,
            r.base.enable_middleware,
            r.base.enable_logging,
            r.base.enable_grpc,
            r.enable_api,
            !r.enable_rpc,
            !r.enable_admin,
    {
        let name2 = project_name.clone();
        let name3 = project_name.clone();
        let mut base = BaseParams::new(project_name);
        base.default_host = Some("127.0.0.1".to_owned());
        base.default_port = Some(8888);
        base.enable_swagger = true;
        base.enable_cors = true;
        base.enable_middleware = true;
        base.enable_logging = true;
        base.enable_grpc = true;
        GoZeroParams {
            base,
            project: ProjectParams::from_project_name(name2),
            go: GoParams::from_project_name(name3),
            enable_api: true,
            enable_rpc: false,
            enable_admin: false,
        }
    }

    /// Turns the admin service on or off.
    pub fn with_admin(self, enable_admin: bool) -> (r: GoZeroParams)
        ensures
            r == (GoZeroParams { enable_admin, ..self }),
    {
        GoZeroParams { enable_admin, ..self }
    }

    /// Turns the API service on or off.
    pub fn with_api(self, enable_api: bool) -> (r: GoZeroParams)
        ensures
            r == (GoZeroParams { enable_api, ..self }),
    {
        GoZeroParams { enable_api, ..self }
    }

    /// Turns the RPC service on or off.
    pub fn with_rpc(self, enable_rpc: bool) -> (r: GoZeroParams)
        ensures
            r == (GoZeroParams { enable_rpc, ..self }),
    {
        GoZeroParams { enable_rpc, ..self }
    }

    /// Whether the admin service is generated.
    pub fn enable_admin(&self) -> (r: bool)
        ensures
            r == self.enable_admin,
    {
        self.enable_admin
    }

    /// Whether the API service is generated.
    pub fn enable_api(&self) -> (r: bool)
        ensures
            r == self.enable_api,
    {
        self.enable_api
    }

    /// Whether the RPC service is generated.
    pub fn enable_rpc(&self) -> (r: bool)
        ensures
            r == self.enable_rpc,
    {
        self.enable_rpc
    }

    /// This layer's context bindings.
    pub fn to_context(&self) -> (r: RenderContext)
        ensures
            r.wf(),
            r@ == spec_base_context(self.base),
    {
        self.base.to_context()
    }
}

/// The application identifier tail derived from a project name: folded to
/// lowercase with hyphens and underscores removed.
pub open spec fn spec_ident_tail(s: Seq<char>) -> Seq<char>
    decreases s.len(),
{
    if s.len() == 0 {
        Seq::empty()
    } else {
        let c = crate::text::lower_char_spec(s.last());
        let p = spec_ident_tail(s.drop_last());
        if c == '-' || c == '_' {
            p
        } else {
            p.push(c)
        }
    }
}

/// The Tauri desktop framework layer.
#[derive(Debug)]
pub struct TauriParams {
    /// The shared base parameters.
    pub base: BaseParams,
    /// The project layer of the same run.
    pub project: ProjectParams,
    /// The Rust language layer of the same run.
    pub rust: RustParams,
    /// The frontend framework of the webview.
    pub frontend_framework: String,
    /// Whether the dark-mode styles are generated.
    pub enable_dark_mode: bool,
    /// Whether the loading-skeleton screens are generated.
    pub enable_skeleton: bool,
    /// The initial window width.
    pub window_width: u32,
    /// The initial window height.
    pub window_height: u32,
    /// The application identifier.
    pub identifier: String,
    /// Whether the proto-generation tooling subtree is generated.
    pub enable_proto_gen: bool,
}

impl TauriParams {
    /// Tauri parameters for `project_name`: a Vue frontend, localhost and
    /// port 1420 as the offered defaults, and an identifier derived from
    /// the name.
    pub fn from_project_name(project_name: String) -> (r: TauriParams)
        ensures
            r.base.project_name == project_name,
            r.base.default_host is Some && r.base.default_host->0@ == "localhost"@,
            r.base.default_port == Some(1420u16),
            r.frontend_framework@ == "vue"@,
            r.enable_dark_mode,
            r.enable_skeleton,
            r.window_width == 800u32,
            r.window_height == 600u32,
            r.identifier@ == "com."@ + spec_ident_tail(project_name@) + ".app"@,
            r.enable_proto_gen,
    {
        let name2 = project_name.clone();
        let name3 = project_name.clone();
        let identifier = TauriParams::derive_identifier(project_name.as_str());
        let mut base = BaseParams::new(project_name);
        base.default_host = Some("localhost".to_owned());
        base.default_port = Some(1420);
        TauriParams {
            base,
            project: ProjectParams::from_project_name(name2),
            rust: RustParams::new(name3),
            frontend_framework: "vue".to_owned(),
            enable_dark_mode: true,
            enable_skeleton: true,
            window_width: 800,
            window_height: 600,
            identifier,
            enable_proto_gen: true,
        }
    }

    /// Derives the application identifier from a project name.
    pub fn derive_identifier(project_name: &str) -> (r: String)
        ensures
            r@ == "com."@ + spec_ident_tail(project_name@) + ".app"@,
    {
        let mut out = String::from_str("com.");
        let n = project_name.unicode_len();
        let mut i: usize = 0;
        proof {
            assert(out@ + spec_ident_tail(project_name@.take(0)) =~= out@);
        }
        while i < n
            invariant
                0 <= i <= n,
                n == project_name@.len(),
                out@ == "com."@ + spec_ident_tail(project_name@.take(i as int)),
            decreases n - i,
        {
            proof {
                assert(project_name@.take(i + 1).drop_last() =~= project_name@.take(i as int));
                assert(project_name@.take(i + 1).last() == project_name@[i as int]);
            }
            let c = crate::text::lower_char(project_name.get_char(i));
            if c != '-' && c != '_' {
                out.push(c);
                proof {
                    assert(out@ =~= "com."@ + spec_ident_tail(project_name@.take(i + 1)));
                }
            }
            i = i + 1;
        }
        proof {
            assert(project_name@.take(n as int) =~= project_name@);
        }
        out.append(".app");
        out
    }

    /// Sets the frontend framework.
    pub fn with_frontend_framework(self, framework: String) -> (r: TauriParams)
        ensures
            r == (TauriParams { frontend_framework: framework, ..self }),
    {
        TauriParams { frontend_framework: framework, ..self }
    }

    /// Turns the dark-mode styles on or off.
    pub fn with_dark_mode(self, enable: bool) -> (r: TauriParams)
        ensures
            r == (TauriParams { enable_dark_mode: enable, ..self }),
    {
        TauriParams { enable_dark_mode: enable, ..self }
    }

    /// Turns the skeleton screens on or off.
    pub fn with_skeleton(self, enable: bool) -> (r: TauriParams)
        ensures
            r == (TauriParams { enable_skeleton: enable, ..self }),
    {
        TauriParams { enable_skeleton: enable, ..self }
    }

    /// Sets the initial window size.
    pub fn with_window_size(self, width: u32, height: u32) -> (r: TauriParams)
        ensures
            r == (TauriParams { window_width: width, window_height: height, ..self }),
    {
        TauriParams { window_width: width, window_height: height, ..self }
    }

    /// Sets the application identifier.
    pub fn with_identifier(self, identifier: String) -> (r: TauriParams)
        ensures
            r == (TauriParams { identifier, ..self }),
    {
        TauriParams { identifier, ..self }
    }

    /// Replaces the project layer.
    pub fn with_project(self, project: ProjectParams) -> (r: TauriParams)
        ensures
            r == (TauriParams { project, ..self }),
    {
        TauriParams { project, ..self }
    }

    /// Replaces the Rust layer.
    pub fn with_rust(self, rust: RustParams) -> (r: TauriParams)
        ensures
            r == (TauriParams { rust, ..self }),
    {
        TauriParams { rust, ..self }
    }

    /// Turns pre-commit hooks on or off.
    pub fn with_precommit(self, enable_precommit: bool) -> (r: TauriParams)
        ensures
            r == (TauriParams { base: BaseParams { enable_precommit, ..self.base }, ..self }),
    {
        TauriParams { base: BaseParams { enable_precommit, ..self.base }, ..self }
    }

    /// Whether pre-commit hooks are installed.
    pub fn enable_precommit(&self) -> (r: bool)
        ensures
            r == self.base.enable_precommit,
    {
        self.base.enable_precommit
    }

    /// Turns the proto-generation tooling on or off.
    pub fn with_proto_gen(self, enable: bool) -> (r: TauriParams)
        ensures
            r == (TauriParams { enable_proto_gen: enable, ..self }),
    {
        TauriParams { enable_proto_gen: enable, ..self }
    }

    /// Whether the proto-generation tooling is generated.
    pub fn enable_proto_gen(&self) -> (r: bool)
        ensures
            r == self.enable_proto_gen,
    {
        self.enable_proto_gen
    }

    /// This layer's context bindings.
    pub fn to_context(&self) -> (r: RenderContext)
        ensures
            r.wf(),
            r@ == spec_base_context(self.base),
    {
        self.base.to_context()
    }
}

/// The Vue3 frontend framework layer.
#[derive(Debug)]
pub struct Vue3Params {
    /// The shared base parameters.
    pub base: BaseParams,
    /// The project layer of the same run.
    pub project: ProjectParams,
    /// The Node.js version.
    pub node_version: String,
    /// TypeScript is always generated.
    pub enable_typescript: bool,
    /// Whether Tailwind CSS is installed.
    pub enable_tailwind: bool,
    /// Whether Vue Router is installed.
    pub enable_router: bool,
    /// Whether the Pinia state store is installed.
    pub enable_pinia: bool,
    /// The package manager used for setup.
    pub package_manager: String,
}

impl Vue3Params {
    /// Vue3 parameters for `project_name`: Node 20, TypeScript, Tailwind,
    /// the router and Pinia on, with pnpm as the package manager.
    pub fn from_project_name(project_name: String) -> (r: Vue3Params)
        ensures
            r.base.project_name == project_name,
            r.base.default_host is Some && r.base.default_host->0@ == "localhost"@,
            r.base.default_port == Some(5173u16),
            r.node_version@ == "20"@,
            r.enable_typescript,
            r.enable_tailwind,
            r.enable_router,
            r.enable_pinia,
            r.package_manager@ == "pnpm"@,
    {
        let name2 = project_name.clone();
        let mut base = BaseParams::new(project_name);
        base.default_host = Some("localhost".to_owned());
        base.default_port = Some(5173);
        Vue3Params {
            base,
            project: ProjectParams::from_project_name(name2),
            node_version: "20".to_owned(),
            enable_typescript: true,
            enable_tailwind: true,
            enable_router: true,
            enable_pinia: true,
            package_manager: "pnpm".to_owned(),
        }
    }

    /// Replaces the project layer.
    pub fn with_project(self, project: ProjectParams) -> (r: Vue3Params)
        ensures
            r == (Vue3Params { project, ..self }),
    {
        Vue3Params { project, ..self }
    }

    /// Turns pre-commit hooks on or off.
    pub fn with_precommit(self, enable_precommit: bool) -> (r: Vue3Params)
        ensures
            r == (Vue3Params { base: BaseParams { enable_precommit, ..self.base }, ..self }),
    {
        Vue3Params { base: BaseParams { enable_precommit, ..self.base }, ..self }
    }

    /// Whether pre-commit hooks are installed.
    pub fn enable_precommit(&self) -> (r: bool)
        ensures
            r == self.base.enable_precommit,
    {
        self.base.enable_precommit
    }

    /// This layer's context bindings.
    pub fn to_context(&self) -> (r: RenderContext)
        ensures
            r.wf(),
            r@ == spec_base_context(self.base),
    {
        self.base.to_context()
    }
}

/// The React frontend framework layer.
#[derive(Debug)]
pub struct ReactParams {
    /// The shared base parameters.
    pub base: BaseParams,
    /// The project layer of the same run.
    pub project: ProjectParams,
    /// The Node.js version.
    pub node_version: String,
    /// TypeScript is always generated.
    pub enable_typescript: bool,
    /// Whether Tailwind CSS is installed.
    pub enable_tailwind: bool,
    /// Whether React Router is installed.
    pub enable_router: bool,
    /// The state-management library installed during setup.
    pub state_management: String,
    /// The package manager used for setup.
    pub package_manager: String,
}

impl ReactParams {
    /// React parameters for `project_name`: Node 20, TypeScript, Tailwind
    /// and the router on, zustand for state, pnpm as package manager.
    pub fn from_project_name(project_name: String) -> (r: ReactParams)
        ensures
            r.base.project_name == project_name,
            r.base.default_host is Some && r.base.default_host->0@ == "localhost"@,
            r.base.default_port == Some(5173u16),
            r.node_version@ == "20"@,
            r.enable_typescript,
            r.enable_tailwind,
            r.enable_router,
            r.state_management@ == "zustand"@,
            r.package_manager@ == "pnpm"@,
    {
        let name2 = project_name.clone();
        let mut base = BaseParams::new(project_name);
        base.default_host = Some("localhost".to_owned());
        base.default_port = Some(5173);
        ReactParams {
            base,
            project: ProjectParams::from_project_name(name2),
            node_version: "20".to_owned(),
            enable_typescript: true,
            enable_tailwind: true,
            enable_router: true,
            state_management: "zustand".to_owned(),
            package_manager: "pnpm".to_owned(),
        }
    }

    /// Replaces the project layer.
    pub fn with_project(self, project: ProjectParams) -> (r: ReactParams)
        ensures
            r == (ReactParams { project, ..self }),
    {
        ReactParams { project, ..self }
    }

    /// Turns pre-commit hooks on or off.
    pub fn with_precommit(self, enable_precommit: bool) -> (r: ReactParams)
        ensures
            r == (ReactParams { base: BaseParams { enable_precommit, ..self.base }, ..self }),
    {
        ReactParams { base: BaseParams { enable_precommit, ..self.base }, ..self }
    }

    /// Whether pre-commit hooks are installed.
    pub fn enable_precommit(&self) -> (r: bool)
        ensures
            r == self.base.enable_precommit,
    {
        self.base.enable_precommit
    }

    /// This layer's context bindings.
    pub fn to_context(&self) -> (r: RenderContext)
        ensures
            r.wf(),
            r@ == spec_base_context(self.base),
    {
        self.base.to_context()
    }
}

} // verus!
