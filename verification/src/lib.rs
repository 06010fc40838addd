//! Core logic of a project scaffolding tool.
//!
//! Given a project name, a language and framework choice, and a set of
//! feature toggles, the library computes the complete output tree for a
//! generation run: it merges layered parameters into a rendering context,
//! walks an in-memory template store, applies per-file skip rules, strips
//! the template-marker suffix, and renders template files against the
//! context.  All functions here are pure: reading template directories,
//! writing output files and invoking external toolchains is left to the
//! surrounding application, which receives the computed tree and the
//! ordered list of post-processing commands.

pub mod constants;
pub mod context;
pub mod env_checker;
pub mod errors;
pub mod framework_params;
pub mod generators;
pub mod orchestrator;
pub mod params;
pub mod processor;
pub mod render;
pub mod scaffold;
pub mod store;
pub mod string_utils;
pub mod text;
pub mod validation;
