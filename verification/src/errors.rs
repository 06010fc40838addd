//! Error taxonomy of the library.
//!
//! `ValidationError` reports malformed input parameters before any file is
//! produced; `RenderError` reports a template that references an undefined
//! context key or is syntactically malformed; `ProcessError` reports a
//! failure while computing the output tree of a namespace.

use vstd::prelude::*;

verus! {

/// A malformed input parameter.
#[derive(Clone, Copy, Debug, PartialEq, Eq, Structural)]
pub enum ValidationError {
    /// The project name is empty.
    EmptyProjectName,
    /// The project name holds a character outside `[A-Za-z0-9_-]`.
    InvalidProjectNameChar,
    /// The port lies in the reserved range below 1024.
    PortReserved,
    /// The host is empty.
    EmptyHost,
    /// The host exceeds 253 characters.
    HostTooLong,
}

/// A failure while rendering one template text.
#[derive(Clone, Copy, Debug, PartialEq, Eq, Structural)]
pub enum RenderError {
    /// A `{{` opener with no matching `}}` closer.
    UnbalancedDelimiters,
    /// An empty placeholder, or one with more than a helper and one
    /// argument.
    MalformedPlaceholder,
    /// A placeholder names a helper the renderer does not know.
    UnknownHelper,
    /// A placeholder references a key absent from the context.
    UndefinedKey,
}

impl RenderError {
    /// A single-line description of the error.
    pub fn message(&self) -> (r: &'static str)
        ensures
            r@.len() > 0,
    {
        proof {
            reveal_strlit("Template has a '{{' with no matching '}}'");
            reveal_strlit("Template placeholder is empty or malformed");
            reveal_strlit("Template references an unknown helper");
            reveal_strlit("Template references an undefined context key");
        }
        match self {
            RenderError::UnbalancedDelimiters => "Template has a '{{' with no matching '}}'",
            RenderError::MalformedPlaceholder => "Template placeholder is empty or malformed",
            RenderError::UnknownHelper => "Template references an unknown helper",
            RenderError::UndefinedKey => "Template references an undefined context key",
        }
    }
}

impl ValidationError {
    /// A single-line description of the error.
    pub fn message(&self) -> (r: &'static str)
        ensures
            r@.len() > 0,
    {
        proof {
            reveal_strlit("Project name cannot be empty");
            reveal_strlit("Project name can only contain alphanumeric characters, hyphens, and underscores");
            reveal_strlit("Port number should be >= 1024");
            reveal_strlit("Host cannot be empty");
            reveal_strlit("Host name is too long");
        }
        match self {
            ValidationError::EmptyProjectName => "Project name cannot be empty",
            ValidationError::InvalidProjectNameChar => "Project name can only contain alphanumeric characters, hyphens, and underscores",
            ValidationError::PortReserved => "Port number should be >= 1024",
            ValidationError::EmptyHost => "Host cannot be empty",
            ValidationError::HostTooLong => "Host name is too long",
        }
    }
}

} // verus!
