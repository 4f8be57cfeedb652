//! The registry of languages: which file extensions and grammar names map
//! to which grammar.
use vstd::prelude::*;
use tree_sitter_highlight::HighlightConfiguration;

use crate::text::str_eq;

verus! {

/// A compiled grammar with its highlight, injection and locals queries.
#[verifier::external_type_specification]
#[verifier::external_body]
pub struct ExHighlightConfiguration(HighlightConfiguration);

/// A language with a configured grammar.
#[derive(Clone, Copy, Debug, PartialEq, Eq, Structural)]
pub enum Language {
    Bash,
    C,
    Cpp,
    Css,
    D,
    Go,
    Haskell,
    Html,
    Java,
    JavaScript,
    Json,
    Lua,
    Python,
    Rust,
    Toml,
    Typescript,
    Tsx,
    Yaml,
}

/// Every configured language, in registry order.
pub open spec fn all_languages() -> Seq<Language> {
    seq![Language::Bash, Language::C, Language::Cpp, Language::Css, Language::D, Language::Go, Language::Haskell, Language::Html, Language::Java, Language::JavaScript, Language::Json, Language::Lua, Language::Python, Language::Rust, Language::Toml, Language::Typescript, Language::Tsx, Language::Yaml]
}

/// The grammar name of a language.
pub open spec fn grammar_name(l: Language) -> Seq<char> {
    match l {
        Language::Bash => "bash"@,
        Language::C => "c"@,
        Language::Cpp => "cpp"@,
        Language::Css => "css"@,
        Language::D => "d"@,
        Language::Go => "go"@,
        Language::Haskell => "haskell"@,
        Language::Html => "html"@,
        Language::Java => "java"@,
        Language::JavaScript => "javascript"@,
        Language::Json => "json"@,
        Language::Lua => "lua"@,
        Language::Python => "python"@,
        Language::Rust => "rust"@,
        Language::Toml => "toml"@,
        Language::Typescript => "typescript"@,
        Language::Tsx => "tsx"@,
        Language::Yaml => "yaml"@,
    }
}

/// The position of a language in the registry.
pub open spec fn index_of(l: Language) -> int {
    match l {
        Language::Bash => 0,
        Language::C => 1,
        Language::Cpp => 2,
        Language::Css => 3,
        Language::D => 4,
        Language::Go => 5,
        Language::Haskell => 6,
        Language::Html => 7,
        Language::Java => 8,
        Language::JavaScript => 9,
        Language::Json => 10,
        Language::Lua => 11,
        Language::Python => 12,
        Language::Rust => 13,
        Language::Toml => 14,
        Language::Typescript => 15,
        Language::Tsx => 16,
        Language::Yaml => 17,
    }
}

/// The language that a lowercase file extension maps to.
pub open spec fn language_of_extension(ext: Seq<char>) -> Option<Language> {
    if ext == "sh"@ || ext == "zsh"@ {
        Some(Language::Bash)
    } else if ext == "c"@ || ext == "h"@ {
        Some(Language::C)
    } else if ext == "cpp"@ || ext == "hpp"@ {
        Some(Language::Cpp)
    } else if ext == "css"@ {
        Some(Language::Css)
    } else if ext == "d"@ {
        Some(Language::D)
    } else if ext == "go"@ {
        Some(Language::Go)
    } else if ext == "hs"@ || ext == "lhs"@ {
        Some(Language::Haskell)
    } else if ext == "html"@ || ext == "xhtml"@ {
        Some(Language::Html)
    } else if ext == "java"@ {
        Some(Language::Java)
    } else if ext == "js"@ || ext == "jsx"@ || ext == "mjs"@ {
        Some(Language::JavaScript)
    } else if ext == "json"@ {
        Some(Language::Json)
    } else if ext == "lua"@ {
        Some(Language::Lua)
    } else if ext == "py"@ || ext == "pyw"@ {
        Some(Language::Python)
    } else if ext == "rs"@ {
        Some(Language::Rust)
    } else if ext == "toml"@ {
        Some(Language::Toml)
    } else if ext == "ts"@ {
        Some(Language::Typescript)
    } else if ext == "tsx"@ {
        Some(Language::Tsx)
    } else if ext == "yaml"@ {
        Some(Language::Yaml)
    } else {
        None
    }
}

/// The language whose grammar has the given name.
pub open spec fn language_of_name(name: Seq<char>) -> Option<Language> {
    if name == "bash"@ {
        Some(Language::Bash)
    } else if name == "c"@ {
        Some(Language::C)
    } else if name == "cpp"@ {
        Some(Language::Cpp)
    } else if name == "css"@ {
        Some(Language::Css)
    } else if name == "d"@ {
        Some(Language::D)
    } else if name == "go"@ {
        Some(Language::Go)
    } else if name == "haskell"@ {
        Some(Language::Haskell)
    } else if name == "html"@ {
        Some(Language::Html)
    } else if name == "java"@ {
        Some(Language::Java)
    } else if name == "javascript"@ {
        Some(Language::JavaScript)
    } else if name == "json"@ {
        Some(Language::Json)
    } else if name == "lua"@ {
        Some(Language::Lua)
    } else if name == "python"@ {
        Some(Language::Python)
    } else if name == "rust"@ {
        Some(Language::Rust)
    } else if name == "toml"@ {
        Some(Language::Toml)
    } else if name == "typescript"@ {
        Some(Language::Typescript)
    } else if name == "tsx"@ {
        Some(Language::Tsx)
    } else if name == "yaml"@ {
        Some(Language::Yaml)
    } else {
        None
    }
}

impl Language {
    /// The grammar name.
    pub fn as_str(&self) -> (r: &'static str)
        ensures
            r@ == grammar_name(*self),
    {
        match self {
            Language::Bash => "bash",
            Language::C => "c",
            Language::Cpp => "cpp",
            Language::Css => "css",
            Language::D => "d",
            Language::Go => "go",
            Language::Haskell => "haskell",
            Language::Html => "html",
            Language::Java => "java",
            Language::JavaScript => "javascript",
            Language::Json => "json",
            Language::Lua => "lua",
            Language::Python => "python",
            Language::Rust => "rust",
            Language::Toml => "toml",
            Language::Typescript => "typescript",
            Language::Tsx => "tsx",
            Language::Yaml => "yaml",
        }
    }

    /// The position in the registry.
    pub fn index(&self) -> (r: usize)
        ensures
            r == index_of(*self),
            r < all_languages().len(),
            all_languages()[r as int] == *self,
    {
        match self {
            Language::Bash => 0,
            Language::C => 1,
            Language::Cpp => 2,
            Language::Css => 3,
            Language::D => 4,
            Language::Go => 5,
            Language::Haskell => 6,
            Language::Html => 7,
            Language::Java => 8,
            Language::JavaScript => 9,
            Language::Json => 10,
            Language::Lua => 11,
            Language::Python => 12,
            Language::Rust => 13,
            Language::Toml => 14,
            Language::Typescript => 15,
            Language::Tsx => 16,
            Language::Yaml => 17,
        }
    }

    /// Looks up the language of a lowercase file extension.
    pub fn from_extension(ext: &str) -> (r: Option<Language>)
        ensures
            r == language_of_extension(ext@),
    {
        if str_eq(ext, "sh") || str_eq(ext, "zsh") {
            Some(Language::Bash)
        } else if str_eq(ext, "c") || str_eq(ext, "h") {
            Some(Language::C)
        } else if str_eq(ext, "cpp") || str_eq(ext, "hpp") {
            Some(Language::Cpp)
        } else if str_eq(ext, "css") {
            Some(Language::Css)
        } else if str_eq(ext, "d") {
            Some(Language::D)
        } else if str_eq(ext, "go") {
            Some(Language::Go)
        } else if str_eq(ext, "hs") || str_eq(ext, "lhs") {
            Some(Language::Haskell)
        } else if str_eq(ext, "html") || str_eq(ext, "xhtml") {
            Some(Language::Html)
        } else if str_eq(ext, "java") {
            Some(Language::Java)
        } else if str_eq(ext, "js") || str_eq(ext, "jsx") || str_eq(ext, "mjs") {
            Some(Language::JavaScript)
        } else if str_eq(ext, "json") {
            Some(Language::Json)
        } else if str_eq(ext, "lua") {
            Some(Language::Lua)
        } else if str_eq(ext, "py") || str_eq(ext, "pyw") {
            Some(Language::Python)
        } else if str_eq(ext, "rs") {
            Some(Language::Rust)
        } else if str_eq(ext, "toml") {
            Some(Language::Toml)
        } else if str_eq(ext, "ts") {
            Some(Language::Typescript)
        } else if str_eq(ext, "tsx") {
            Some(Language::Tsx)
        } else if str_eq(ext, "yaml") {
            Some(Language::Yaml)
        } else {
            None
        }
    }

    /// Looks up a language by its grammar name.
    pub fn from_name(name: &str) -> (r: Option<Language>)
        ensures
            r == language_of_name(name@),
    {
        if str_eq(name, "bash") {
            Some(Language::Bash)
        } else if str_eq(name, "c") {
            Some(Language::C)
        } else if str_eq(name, "cpp") {
            Some(Language::Cpp)
        } else if str_eq(name, "css") {
            Some(Language::Css)
        } else if str_eq(name, "d") {
            Some(Language::D)
        } else if str_eq(name, "go") {
            Some(Language::Go)
        } else if str_eq(name, "haskell") {
            Some(Language::Haskell)
        } else if str_eq(name, "html") {
            Some(Language::Html)
        } else if str_eq(name, "java") {
            Some(Language::Java)
        } else if str_eq(name, "javascript") {
            Some(Language::JavaScript)
        } else if str_eq(name, "json") {
            Some(Language::Json)
        } else if str_eq(name, "lua") {
            Some(Language::Lua)
        } else if str_eq(name, "python") {
            Some(Language::Python)
        } else if str_eq(name, "rust") {
            Some(Language::Rust)
        } else if str_eq(name, "toml") {
            Some(Language::Toml)
        } else if str_eq(name, "typescript") {
            Some(Language::Typescript)
        } else if str_eq(name, "tsx") {
            Some(Language::Tsx)
        } else if str_eq(name, "yaml") {
            Some(Language::Yaml)
        } else {
            None
        }
    }

    /// Every configured language, in registry order.
    pub fn all() -> (r: Vec<Language>)
        ensures
            r@ == all_languages(),
    {
        let r = vec![Language::Bash, Language::C, Language::Cpp, Language::Css, Language::D, Language::Go, Language::Haskell, Language::Html, Language::Java, Language::JavaScript, Language::Json, Language::Lua, Language::Python, Language::Rust, Language::Toml, Language::Typescript, Language::Tsx, Language::Yaml];
        assert(r@ =~= all_languages());
        r
    }

    pub(crate) fn config(&self) -> HighlightConfiguration {
        match self {
            Language::Bash => pepegsitter::bash::highlight(),
            Language::C => pepegsitter::c::highlight(),
            Language::Cpp => pepegsitter::cpp::highlight(),
            Language::Css => pepegsitter::css::highlight(),
            Language::D => pepegsitter::d::highlight(),
            Language::Go => pepegsitter::go::highlight(),
            Language::Haskell => pepegsitter::haskell::highlight(),
            Language::Html => pepegsitter::html::highlight(),
            Language::Java => pepegsitter::java::highlight(),
            Language::JavaScript => pepegsitter::javascript::highlight(),
            Language::Json => pepegsitter::json::highlight(),
            Language::Lua => pepegsitter::lua::highlight(),
            Language::Python => pepegsitter::python::highlight(),
            Language::Rust => pepegsitter::rust::highlight(),
            Language::Toml => pepegsitter::toml::highlight(),
            Language::Typescript => pepegsitter::typescript::highlight(),
            Language::Tsx => pepegsitter::tsx::highlight(),
            Language::Yaml => pepegsitter::yaml::highlight(),
        }
    }
}

/// Relies on pepegsitter::bash::highlight: the bundled Bash grammar with its queries.
pub assume_specification[ pepegsitter::bash::highlight ]() -> HighlightConfiguration;

/// Relies on pepegsitter::c::highlight: the bundled C grammar with its queries.
pub assume_specification[ pepegsitter::c::highlight ]() -> HighlightConfiguration;

/// Relies on pepegsitter::cpp::highlight: the bundled Cpp grammar with its queries.
pub assume_specification[ pepegsitter::cpp::highlight ]() -> HighlightConfiguration;

/// Relies on pepegsitter::css::highlight: the bundled Css grammar with its queries.
pub assume_specification[ pepegsitter::css::highlight ]() -> HighlightConfiguration;

/// Relies on pepegsitter::d::highlight: the bundled D grammar with its queries.
pub assume_specification[ pepegsitter::d::highlight ]() -> HighlightConfiguration;

/// Relies on pepegsitter::go::highlight: the bundled Go grammar with its queries.
pub assume_specification[ pepegsitter::go::highlight ]() -> HighlightConfiguration;

/// Relies on pepegsitter::haskell::highlight: the bundled Haskell grammar with its queries.
pub assume_specification[ pepegsitter::haskell::highlight ]() -> HighlightConfiguration;

/// Relies on pepegsitter::html::highlight: the bundled Html grammar with its queries.
pub assume_specification[ pepegsitter::html::highlight ]() -> HighlightConfiguration;

/// Relies on pepegsitter::java::highlight: the bundled Java grammar with its queries.
pub assume_specification[ pepegsitter::java::highlight ]() -> HighlightConfiguration;

/// Relies on pepegsitter::javascript::highlight: the bundled JavaScript grammar with its queries.
pub assume_specification[ pepegsitter::javascript::highlight ]() -> HighlightConfiguration;

/// Relies on pepegsitter::json::highlight: the bundled Json grammar with its queries.
pub assume_specification[ pepegsitter::json::highlight ]() -> HighlightConfiguration;

/// Relies on pepegsitter::lua::highlight: the bundled Lua grammar with its queries.
pub assume_specification[ pepegsitter::lua::highlight ]() -> HighlightConfiguration;

/// Relies on pepegsitter::python::highlight: the bundled Python grammar with its queries.
pub assume_specification[ pepegsitter::python::highlight ]() -> HighlightConfiguration;

/// Relies on pepegsitter::rust::highlight: the bundled Rust grammar with its queries.
pub assume_specification[ pepegsitter::rust::highlight ]() -> HighlightConfiguration;

/// Relies on pepegsitter::toml::highlight: the bundled Toml grammar with its queries.
pub assume_specification[ pepegsitter::toml::highlight ]() -> HighlightConfiguration;

/// Relies on pepegsitter::typescript::highlight: the bundled Typescript grammar with its queries.
pub assume_specification[ pepegsitter::typescript::highlight ]() -> HighlightConfiguration;

/// Relies on pepegsitter::tsx::highlight: the bundled Tsx grammar with its queries.
pub assume_specification[ pepegsitter::tsx::highlight ]() -> HighlightConfiguration;

/// Relies on pepegsitter::yaml::highlight: the bundled Yaml grammar with its queries.
pub assume_specification[ pepegsitter::yaml::highlight ]() -> HighlightConfiguration;

} // verus!
