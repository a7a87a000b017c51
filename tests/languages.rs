use purecode::detect_language;
use purecode::language::Language;
use purecode::report::{resolve_format, OutputFormat};
use purecode::config::{default_base, default_exclude, default_format, default_include};

#[test]
fn extensions_resolve_to_languages() {
    assert_eq!(detect_language("test.py"), "Python");
    assert_eq!(detect_language("src/app.tsx"), "TypeScript");
    assert_eq!(detect_language("lib/a.hpp"), "C++");
    assert_eq!(detect_language("Program.cs"), "C#");
    assert_eq!(detect_language("x.psm1"), "PowerShell");
    assert_eq!(detect_language("page.htm"), "HTML");
    assert_eq!(detect_language("style.scss"), "CSS");
    assert_eq!(detect_language("build.sc"), "Scala");
    assert_eq!(detect_language("App.vue"), "Vue");
}

#[test]
fn unknown_paths_resolve_to_other() {
    assert_eq!(detect_language("Makefile"), "Other");
    assert_eq!(detect_language("Dockerfile"), "Other");
    assert_eq!(detect_language("main.PY"), "Other");
    assert_eq!(detect_language(".bashrc"), "Other");
    assert_eq!(detect_language("notes.txt"), "Other");
    assert_eq!(detect_language(""), "Other");
}

#[test]
fn path_extension_is_taken_from_last_component() {
    assert_eq!(Language::from_path("dir.rb/file"), Language::Other);
    assert_eq!(Language::from_path("a.b/file.rb"), Language::Ruby);
    assert_eq!(Language::from_path("archive.tar.go"), Language::Go);
    assert_eq!(Language::from_extension(Some("kts")), Language::Kotlin);
    assert_eq!(Language::from_extension(None), Language::Other);
    assert_eq!(Language::Cpp.name(), "C++");
    assert_eq!(Language::Other.to_string(), "Other");
}

#[test]
fn format_resolution() {
    assert_eq!(resolve_format(Some(OutputFormat::Plain), "json"), OutputFormat::Plain);
    assert_eq!(resolve_format(None, "json"), OutputFormat::Json);
    assert_eq!(resolve_format(None, "plain"), OutputFormat::Plain);
    assert_eq!(resolve_format(None, "human"), OutputFormat::Human);
    assert_eq!(resolve_format(None, "JSON"), OutputFormat::Human);
}

#[test]
fn configuration_defaults() {
    assert_eq!(default_base(), "origin/main");
    assert_eq!(default_format(), "human");
    assert_eq!(default_include(), vec!["**/*".to_string()]);
    assert_eq!(
        default_exclude(),
        vec![
            "**/*.lock".to_string(),
            "dist/**".to_string(),
            "target/**".to_string(),
            "node_modules/**".to_string(),
            ".git/**".to_string()
        ]
    );
}
