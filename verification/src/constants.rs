//! The supported languages and frameworks, their names, and the default
//! versions and network settings of a generation run.

use vstd::prelude::*;

use crate::text::{ascii_lower, spec_ascii_lower, str_eq};

verus! {

/// A supported programming language.
#[derive(Clone, Copy, Debug, PartialEq, Eq, Hash, Structural)]
pub enum Language {
    Go,
    Python,
    Rust,
    TypeScript,
}

/// The display name of a language.
pub open spec fn spec_language_name(l: Language) -> Seq<char> {
    match l {
        Language::Go => "Go"@,
        Language::Python => "Python"@,
        Language::Rust => "Rust"@,
        Language::TypeScript => "TypeScript"@,
    }
}

/// The lowercase name of a language.
pub open spec fn spec_language_lowercase(l: Language) -> Seq<char> {
    match l {
        Language::Go => "go"@,
        Language::Python => "python"@,
        Language::Rust => "rust"@,
        Language::TypeScript => "typescript"@,
    }
}

/// The language a lowercase name denotes; `ts` abbreviates TypeScript.
pub open spec fn spec_parse_language(s: Seq<char>) -> Option<Language> {
    if s == "go"@ {
        Some(Language::Go)
    } else if s == "python"@ {
        Some(Language::Python)
    } else if s == "rust"@ {
        Some(Language::Rust)
    } else if s == "typescript"@ || s == "ts"@ {
        Some(Language::TypeScript)
    } else {
        None
    }
}

impl Language {
    /// The display name of the language.
    pub fn as_str(&self) -> (r: &'static str)
        ensures
            r@ == spec_language_name(*self),
    {
        match self {
            Language::Go => "Go",
            Language::Python => "Python",
            Language::Rust => "Rust",
            Language::TypeScript => "TypeScript",
        }
    }

    /// The lowercase name of the language.
    pub fn as_lowercase(&self) -> (r: &'static str)
        ensures
            r@ == spec_language_lowercase(*self),
    {
        match self {
            Language::Go => "go",
            Language::Python => "python",
            Language::Rust => "rust",
            Language::TypeScript => "typescript",
        }
    }

    /// Parses a language name, ignoring ASCII case.
    pub fn parse_from_str(s: &str) -> (r: Option<Language>)
        ensures
            r == spec_parse_language(spec_ascii_lower(s@)),
    {
        let l = ascii_lower(s);
        if str_eq(l.as_str(), "go") {
            Some(Language::Go)
        } else if str_eq(l.as_str(), "python") {
            Some(Language::Python)
        } else if str_eq(l.as_str(), "rust") {
            Some(Language::Rust)
        } else if str_eq(l.as_str(), "typescript") || str_eq(l.as_str(), "ts") {
            Some(Language::TypeScript)
        } else {
            None
        }
    }
}

/// A supported framework, or none for a pure language project.
#[derive(Clone, Copy, Debug, PartialEq, Eq, Hash, Structural)]
pub enum Framework {
    /// No framework: a pure language project.
    NoFramework,
    Gin,
    GoZero,
    Tauri,
    Vue3,
    React,
}

/// The short name of a framework.
pub open spec fn spec_framework_name(f: Framework) -> Seq<char> {
    match f {
        Framework::NoFramework => "None"@,
        Framework::Gin => "Gin"@,
        Framework::GoZero => "go-zero"@,
        Framework::Tauri => "Tauri"@,
        Framework::Vue3 => "Vue3"@,
        Framework::React => "React"@,
    }
}

/// The framework's name as shown when choosing one.
pub open spec fn spec_framework_display_name(f: Framework) -> Seq<char> {
    match f {
        Framework::NoFramework => "None (Pure Language Project)"@,
        Framework::Gin => "Gin (Web Framework)"@,
        Framework::GoZero => "go-zero (Microservice Framework)"@,
        Framework::Tauri => "Tauri (Desktop App Framework)"@,
        Framework::Vue3 => "Vue3 (Frontend Framework)"@,
        Framework::React => "React (Frontend Framework)"@,
    }
}

/// The lowercase name of a framework.
pub open spec fn spec_framework_lowercase(f: Framework) -> Seq<char> {
    match f {
        Framework::NoFramework => "none"@,
        Framework::Gin => "gin"@,
        Framework::GoZero => "go-zero"@,
        Framework::Tauri => "tauri"@,
        Framework::Vue3 => "vue3"@,
        Framework::React => "react"@,
    }
}

/// The framework a lowercase name denotes; the empty name and `none`
/// denote no framework, and `vue` abbreviates Vue3.
pub open spec fn spec_parse_framework(s: Seq<char>) -> Option<Framework> {
    if s == "none"@ || s.len() == 0 {
        Some(Framework::NoFramework)
    } else if s == "gin"@ {
        Some(Framework::Gin)
    } else if s == "go-zero"@ {
        Some(Framework::GoZero)
    } else if s == "tauri"@ {
        Some(Framework::Tauri)
    } else if s == "vue3"@ || s == "vue"@ {
        Some(Framework::Vue3)
    } else if s == "react"@ {
        Some(Framework::React)
    } else {
        None
    }
}

/// The frameworks offered for a language.
pub open spec fn spec_frameworks_for_language(l: Language) -> Seq<Framework> {
    match l {
        Language::Go => seq![Framework::Gin, Framework::GoZero],
        Language::Python => Seq::empty(),
        Language::Rust => seq![Framework::NoFramework, Framework::Tauri],
        Language::TypeScript => seq![Framework::Vue3, Framework::React],
    }
}

impl Framework {
    /// The short name of the framework.
    pub fn as_str(&self) -> (r: &'static str)
        ensures
            r@ == spec_framework_name(*self),
    {
        match self {
            Framework::NoFramework => "None",
            Framework::Gin => "Gin",
            Framework::GoZero => "go-zero",
            Framework::Tauri => "Tauri",
            Framework::Vue3 => "Vue3",
            Framework::React => "React",
        }
    }

    /// The framework's name as shown when choosing one.
    pub fn display_name(&self) -> (r: &'static str)
        ensures
            r@ == spec_framework_display_name(*self),
    {
        match self {
            Framework::NoFramework => "None (Pure Language Project)",
            Framework::Gin => "Gin (Web Framework)",
            Framework::GoZero => "go-zero (Microservice Framework)",
            Framework::Tauri => "Tauri (Desktop App Framework)",
            Framework::Vue3 => "Vue3 (Frontend Framework)",
            Framework::React => "React (Frontend Framework)",
        }
    }

    /// The lowercase name of the framework.
    pub fn as_lowercase(&self) -> (r: &'static str)
        ensures
            r@ == spec_framework_lowercase(*self),
    {
        match self {
            Framework::NoFramework => "none",
            Framework::Gin => "gin",
            Framework::GoZero => "go-zero",
            Framework::Tauri => "tauri",
            Framework::Vue3 => "vue3",
            Framework::React => "react",
        }
    }

    /// Parses a framework name, ignoring ASCII case.
    pub fn parse_from_str(s: &str) -> (r: Option<Framework>)
        ensures
            r == spec_parse_framework(spec_ascii_lower(s@)),
    {
        let l = ascii_lower(s);
        if str_eq(l.as_str(), "none") || l.as_str().unicode_len() == 0 {
            Some(Framework::NoFramework)
        } else if str_eq(l.as_str(), "gin") {
            Some(Framework::Gin)
        } else if str_eq(l.as_str(), "go-zero") {
            Some(Framework::GoZero)
        } else if str_eq(l.as_str(), "tauri") {
            Some(Framework::Tauri)
        } else if str_eq(l.as_str(), "vue3") || str_eq(l.as_str(), "vue") {
            Some(Framework::Vue3)
        } else if str_eq(l.as_str(), "react") {
            Some(Framework::React)
        } else {
            None
        }
    }

    /// The language the framework belongs to, if it implies one.
    pub fn language(&self) -> (r: Option<Language>)
        ensures
            r == match *self {
                Framework::NoFramework => None::<Language>,
                Framework::Gin => Some(Language::Go),
                Framework::GoZero => Some(Language::Go),
                Framework::Tauri => Some(Language::Rust),
                Framework::Vue3 => Some(Language::TypeScript),
                Framework::React => Some(Language::TypeScript),
            },
    {
        match self {
            Framework::NoFramework => None,
            Framework::Gin => Some(Language::Go),
            Framework::GoZero => Some(Language::Go),
            Framework::Tauri => Some(Language::Rust),
            Framework::Vue3 => Some(Language::TypeScript),
            Framework::React => Some(Language::TypeScript),
        }
    }

    /// Whether this is the no-framework choice.
    pub fn is_none(&self) -> (r: bool)
        ensures
            r == (*self == Framework::NoFramework),
    {
        match self {
            Framework::NoFramework => true,
            _ => false,
        }
    }

    /// The frameworks offered for `language`.
    pub fn frameworks_for_language(language: Language) -> (r: Vec<Framework>)
        ensures
            r@ == spec_frameworks_for_language(language),
    {
        match language {
            Language::Go => {
                let mut v = Vec::new();
                v.push(Framework::Gin);
                v.push(Framework::GoZero);
                proof {
                    assert(v@ =~= seq![Framework::Gin, Framework::GoZero]);
                }
                v
            },
            Language::Python => {
                let v = Vec::new();
                proof {
                    assert(v@ =~= Seq::<Framework>::empty());
                }
                v
            },
            Language::Rust => {
                let mut v = Vec::new();
                v.push(Framework::NoFramework);
                v.push(Framework::Tauri);
                proof {
                    assert(v@ =~= seq![Framework::NoFramework, Framework::Tauri]);
                }
                v
            },
            Language::TypeScript => {
                let mut v = Vec::new();
                v.push(Framework::Vue3);
                v.push(Framework::React);
                proof {
                    assert(v@ =~= seq![Framework::Vue3, Framework::React]);
                }
                v
            },
        }
    }

    /// Every framework choice, the no-framework one first.
    pub fn all() -> (r: Vec<Framework>)
        ensures
            r@ == seq![
                Framework::NoFramework,
                Framework::Gin,
                Framework::GoZero,
                Framework::Tauri,
                Framework::Vue3,
                Framework::React,
            ],
    {
        let mut v = Vec::new();
        v.push(Framework::NoFramework);
        v.push(Framework::Gin);
        v.push(Framework::GoZero);
        v.push(Framework::Tauri);
        v.push(Framework::Vue3);
        v.push(Framework::React);
        proof {
            assert(v@ =~= seq![
                Framework::NoFramework,
                Framework::Gin,
                Framework::GoZero,
                Framework::Tauri,
                Framework::Vue3,
                Framework::React,
            ]);
        }
        v
    }

    /// The development-server port a framework defaults to.
    pub fn default_port(&self) -> (r: u16)
        ensures
            r == match *self {
                Framework::NoFramework => 8080u16,
                Framework::Gin => 8080u16,
                Framework::GoZero => 8888u16,
                Framework::Tauri => 1420u16,
                Framework::Vue3 => 5173u16,
                Framework::React => 5173u16,
            },
    {
        match self {
            Framework::NoFramework => 8080,
            Framework::Gin => 8080,
            Framework::GoZero => 8888,
            Framework::Tauri => 1420,
            Framework::Vue3 => 5173,
            Framework::React => 5173,
        }
    }
}

/// Whether a framework choice is allowed for a language: the language
/// offers it, the choice is no framework, or the language offers none at
/// all.
pub open spec fn spec_combination_allowed(language: Language, framework: Framework) -> bool {
    spec_frameworks_for_language(language).contains(framework) || framework
        == Framework::NoFramework || spec_frameworks_for_language(language).len() == 0
}

/// Decides `spec_combination_allowed`.
pub fn combination_allowed(language: Language, framework: Framework) -> (r: bool)
    ensures
        r == spec_combination_allowed(language, framework),
{
    let offered = Framework::frameworks_for_language(language);
    if offered.len() == 0 {
        return true;
    }
    if framework.is_none() {
        return true;
    }
    let n = offered.len();
    let mut i: usize = 0;
    while i < n
        invariant
            0 <= i <= n,
            n == offered@.len(),
            offered@ == spec_frameworks_for_language(language),
            forall|j: int| 0 <= j < i ==> offered@[j] != framework,
        decreases n - i,
    {
        if offered[i] == framework {
            return true;
        }
        i = i + 1;
    }
    false
}

} // verus!
