//! The closed set of languages and how a path resolves to one of them.
use vstd::prelude::*;
use crate::chars_of;
use crate::text::eq_str;

verus! {

#[derive(Debug, Clone, Copy, PartialEq, Eq, Structural, Hash)]
pub enum Language {
    Python,
    JavaScript,
    TypeScript,
    Html,
    Css,
    C,
    Cpp,
    Csharp,
    Java,
    Go,
    Php,
    Ruby,
    Swift,
    Kotlin,
    Scala,
    Shell,
    PowerShell,
    Vue,
    Other,
}

/// The extension of a path's last component, as `Path::extension` finds it
/// (none for a name without a dot, or whose only dot leads it).
pub uninterp spec fn extension_of(path: Seq<char>) -> Option<Seq<char>>;

/// Relies on `std::path::Path::extension`: the extension of the path's last
/// component, a function of the path's characters. A `&str` path is UTF-8, so
/// `OsStr::to_str` keeps every extension.
#[verifier::external_body]
fn path_extension(path: &str) -> (r: Option<String>)
    ensures
        match r {
            Some(e) => extension_of(path@) == Some(e@),
            None => extension_of(path@) is None,
        },
{
    let ext = std::path::Path::new(path).extension()?;
    Some(ext.to_str()?.to_string())
}

/// The language of a file extension (spelled exactly, case included).
pub open spec fn language_for_extension(ext: Option<Seq<char>>) -> Language {
    match ext {
        Some(e) => if e == "py"@ {
            Language::Python
        } else if e == "js"@ || e == "jsx"@ || e == "mjs"@ {
            Language::JavaScript
        } else if e == "ts"@ || e == "tsx"@ {
            Language::TypeScript
        } else if e == "html"@ || e == "htm"@ {
            Language::Html
        } else if e == "css"@ || e == "scss"@ {
            Language::Css
        } else if e == "c"@ || e == "h"@ {
            Language::C
        } else if e == "cpp"@ || e == "hpp"@ || e == "cc"@ || e == "cxx"@ || e == "hh"@ {
            Language::Cpp
        } else if e == "cs"@ {
            Language::Csharp
        } else if e == "java"@ {
            Language::Java
        } else if e == "go"@ {
            Language::Go
        } else if e == "php"@ {
            Language::Php
        } else if e == "rb"@ {
            Language::Ruby
        } else if e == "swift"@ {
            Language::Swift
        } else if e == "kt"@ || e == "kts"@ {
            Language::Kotlin
        } else if e == "scala"@ || e == "sc"@ {
            Language::Scala
        } else if e == "sh"@ || e == "bash"@ || e == "zsh"@ {
            Language::Shell
        } else if e == "ps1"@ || e == "psm1"@ {
            Language::PowerShell
        } else if e == "vue"@ {
            Language::Vue
        } else {
            Language::Other
        },
        None => Language::Other,
    }
}

/// The language of a path: by its extension, `Other` where there is none or
/// it is not known.
pub open spec fn language_of_path(path: Seq<char>) -> Language {
    language_for_extension(extension_of(path))
}

/// The name under which a language is reported.
pub open spec fn language_name(lang: Language) -> Seq<char> {
    match lang {
        Language::Python => "Python"@,
        Language::JavaScript => "JavaScript"@,
        Language::TypeScript => "TypeScript"@,
        Language::Html => "HTML"@,
        Language::Css => "CSS"@,
        Language::C => "C"@,
        Language::Cpp => "C++"@,
        Language::Csharp => "C#"@,
        Language::Java => "Java"@,
        Language::Go => "Go"@,
        Language::Php => "PHP"@,
        Language::Ruby => "Ruby"@,
        Language::Swift => "Swift"@,
        Language::Kotlin => "Kotlin"@,
        Language::Scala => "Scala"@,
        Language::Shell => "Shell"@,
        Language::PowerShell => "PowerShell"@,
        Language::Vue => "Vue"@,
        Language::Other => "Other"@,
    }
}

impl Language {
    /// The language of a file extension, `Other` for none or an unknown one.
    pub fn from_extension(ext: Option<&str>) -> (r: Language)
        ensures
            r == language_for_extension(
                match ext {
                    Some(e) => Some(e@),
                    None => None,
                },
            ),
    {
        match ext {
            Some(e) => {
                let ec = chars_of(e);
                let e = ec.as_slice();
                if eq_str(e, "py") {
                    Language::Python
                } else if eq_str(e, "js") || eq_str(e, "jsx") || eq_str(e, "mjs") {
                    Language::JavaScript
                } else if eq_str(e, "ts") || eq_str(e, "tsx") {
                    Language::TypeScript
                } else if eq_str(e, "html") || eq_str(e, "htm") {
                    Language::Html
                } else if eq_str(e, "css") || eq_str(e, "scss") {
                    Language::Css
                } else if eq_str(e, "c") || eq_str(e, "h") {
                    Language::C
                } else if eq_str(e, "cpp") || eq_str(e, "hpp") || eq_str(e, "cc")
                    || eq_str(e, "cxx") || eq_str(e, "hh") {
                    Language::Cpp
                } else if eq_str(e, "cs") {
                    Language::Csharp
                } else if eq_str(e, "java") {
                    Language::Java
                } else if eq_str(e, "go") {
                    Language::Go
                } else if eq_str(e, "php") {
                    Language::Php
                } else if eq_str(e, "rb") {
                    Language::Ruby
                } else if eq_str(e, "swift") {
                    Language::Swift
                } else if eq_str(e, "kt") || eq_str(e, "kts") {
                    Language::Kotlin
                } else if eq_str(e, "scala") || eq_str(e, "sc") {
                    Language::Scala
                } else if eq_str(e, "sh") || eq_str(e, "bash") || eq_str(e, "zsh") {
                    Language::Shell
                } else if eq_str(e, "ps1") || eq_str(e, "psm1") {
                    Language::PowerShell
                } else if eq_str(e, "vue") {
                    Language::Vue
                } else {
                    Language::Other
                }
            },
            None => Language::Other,
        }
    }

    /// The language of a file path, by its extension.
    pub fn from_path(path: &str) -> (r: Language)
        ensures
            r == language_of_path(path@),
    {
        match path_extension(path) {
            Some(e) => Language::from_extension(Some(e.as_str())),
            None => Language::from_extension(None),
        }
    }

    /// The name under which the language is reported.
    pub fn name(&self) -> (r: &'static str)
        ensures
            r@ == language_name(*self),
    {
        match self {
            Language::Python => "Python",
            Language::JavaScript => "JavaScript",
            Language::TypeScript => "TypeScript",
            Language::Html => "HTML",
            Language::Css => "CSS",
            Language::C => "C",
            Language::Cpp => "C++",
            Language::Csharp => "C#",
            Language::Java => "Java",
            Language::Go => "Go",
            Language::Php => "PHP",
            Language::Ruby => "Ruby",
            Language::Swift => "Swift",
            Language::Kotlin => "Kotlin",
            Language::Scala => "Scala",
            Language::Shell => "Shell",
            Language::PowerShell => "PowerShell",
            Language::Vue => "Vue",
            Language::Other => "Other",
        }
    }

    /// The reported name as an owned string.
    pub fn to_string(&self) -> (r: String)
        ensures
            r@ == language_name(*self),
    {
        self.name().to_string()
    }
}

} // verus!
