use purecode::classifier::{
    get_classifier, CStyleClassifier, Classifier, DefaultClassifier, HtmlClassifier, LineType,
    PythonClassifier, RubyClassifier, ShellClassifier,
};
use purecode::language::Language;

#[test]
fn test_python_classifier() {
    let mut c = PythonClassifier::new();
    assert_eq!(c.classify("x = 1"), LineType::Pure);
    assert_eq!(c.classify("# comment"), LineType::Comment);
    assert_eq!(c.classify("   "), LineType::Blank);
}

#[test]
fn test_html_classifier() {
    let mut c = HtmlClassifier::new();
    assert_eq!(c.classify("<div>"), LineType::Pure);
    assert_eq!(c.classify("<!-- comment -->"), LineType::Comment);
    assert_eq!(c.classify("<div> <!-- comment -->"), LineType::Pure);

    assert_eq!(c.classify("<!--"), LineType::Comment);
    assert_eq!(c.classify("inside"), LineType::Comment);
    assert_eq!(c.classify("-->"), LineType::Comment);

    // Mixed
    let mut c2 = HtmlClassifier::new();
    assert_eq!(c2.classify("<!--"), LineType::Comment);
    assert_eq!(c2.classify("--> <div>"), LineType::Pure);
}

#[test]
fn test_python_fixture() {
    let lines = [
        "def hello():",
        "    print(\"hello\")",
        "",
        "# comment",
        "\"\"\"",
        "This is a",
        "multiline docstring",
        "\"\"\"",
        "x = 1",
    ];
    let mut classifier = get_classifier(Language::Python);
    assert_eq!(classifier.classify(lines[0]), LineType::Pure);
    assert_eq!(classifier.classify(lines[1]), LineType::Pure);
    assert_eq!(classifier.classify(lines[2]), LineType::Blank);
    assert_eq!(classifier.classify(lines[3]), LineType::Comment);
    assert_eq!(classifier.classify(lines[4]), LineType::Docstring);
    assert_eq!(classifier.classify(lines[5]), LineType::Docstring);
    assert_eq!(classifier.classify(lines[6]), LineType::Docstring);
    assert_eq!(classifier.classify(lines[7]), LineType::Docstring);
    assert_eq!(classifier.classify(lines[8]), LineType::Pure);
}

#[test]
fn test_html_fixture() {
    let lines = [
        "<!-- start comment -->",
        "<div>",
        "  <h1>Title</h1>",
        "  <!-- inline --> <p>text</p>",
        "</div>",
        "<!--",
        "multiline",
        "comment",
        "-->",
    ];
    let mut classifier = get_classifier(Language::Html);
    assert_eq!(classifier.classify(lines[0]), LineType::Comment);
    assert_eq!(classifier.classify(lines[1]), LineType::Pure);
    assert_eq!(classifier.classify(lines[2]), LineType::Pure);
    assert_eq!(classifier.classify(lines[3]), LineType::Pure);
    assert_eq!(classifier.classify(lines[4]), LineType::Pure);
    assert_eq!(classifier.classify(lines[5]), LineType::Comment);
    assert_eq!(classifier.classify(lines[6]), LineType::Comment);
    assert_eq!(classifier.classify(lines[7]), LineType::Comment);
    assert_eq!(classifier.classify(lines[8]), LineType::Comment);
}

#[test]
fn python_docstring_round_trip() {
    let mut c = PythonClassifier::new();
    assert_eq!(c.classify("\"\"\""), LineType::Docstring);
    assert_eq!(c.classify("body text"), LineType::Docstring);
    assert_eq!(c.classify("\"\"\""), LineType::Docstring);
    assert_eq!(c.classify("x = 1"), LineType::Pure);
    let mut fresh = PythonClassifier::new();
    assert_eq!(fresh.classify("x = 1"), LineType::Pure);
}

#[test]
fn python_one_line_docstring() {
    let mut c = PythonClassifier::new();
    assert_eq!(c.classify("\"\"\" one line docs \"\"\""), LineType::Docstring);
    assert_eq!(c.classify("x = 1"), LineType::Pure);
}

#[test]
fn python_single_quote_docstring() {
    let mut c = PythonClassifier::default();
    assert_eq!(c.classify("    '''"), LineType::Docstring);
    assert_eq!(c.classify("# not a comment here"), LineType::Docstring);
    assert_eq!(c.classify(""), LineType::Blank);
    assert_eq!(c.classify("end '''"), LineType::Docstring);
    assert_eq!(c.classify("y = 2"), LineType::Pure);
    assert_eq!(c.classify("'''one'''"), LineType::Docstring);
    assert_eq!(c.classify("z = 3"), LineType::Pure);
}

#[test]
fn python_four_quotes_open_a_docstring() {
    let mut c = PythonClassifier::new();
    // Non-overlapping matches: four quotes hold one marker only.
    assert_eq!(c.classify("\"\"\"\""), LineType::Docstring);
    assert_eq!(c.classify("still inside"), LineType::Docstring);
}

#[test]
fn cstyle_mixed_inline_comment() {
    let mut c = CStyleClassifier::new();
    assert_eq!(c.classify("code(); /* note */"), LineType::Pure);
    assert_eq!(c.classify("/* note */"), LineType::Comment);
    assert_eq!(c.classify("/* note */ code();"), LineType::Pure);
    assert_eq!(c.classify("int x = 1;"), LineType::Pure);
}

#[test]
fn cstyle_block_comment() {
    let mut c = CStyleClassifier::default();
    assert_eq!(c.classify("  // line comment"), LineType::Comment);
    assert_eq!(c.classify("/**"), LineType::Comment);
    assert_eq!(c.classify(" * javadoc"), LineType::Comment);
    assert_eq!(c.classify("   "), LineType::Blank);
    assert_eq!(c.classify(" */"), LineType::Comment);
    assert_eq!(c.classify("x++;"), LineType::Pure);
    assert_eq!(c.classify("y(); /* open"), LineType::Pure);
    assert_eq!(c.classify("still comment"), LineType::Comment);
    assert_eq!(c.classify("*/ z();"), LineType::Pure);
    assert_eq!(c.classify("w();"), LineType::Pure);
}

#[test]
fn shell_and_default_classifiers() {
    let mut s = ShellClassifier;
    assert_eq!(s.classify("  # note"), LineType::Comment);
    assert_eq!(s.classify("echo hi # trailing"), LineType::Pure);
    assert_eq!(s.classify("\t"), LineType::Blank);
    let mut d = DefaultClassifier;
    assert_eq!(d.classify("# anything"), LineType::Pure);
    assert_eq!(d.classify(" \u{3000} "), LineType::Blank);
}

#[test]
fn ruby_block_comment() {
    let mut c = RubyClassifier::new();
    assert_eq!(c.classify("# note"), LineType::Comment);
    assert_eq!(c.classify("=begin"), LineType::Comment);
    assert_eq!(c.classify("puts 'inside'"), LineType::Comment);
    assert_eq!(c.classify("=end"), LineType::Comment);
    assert_eq!(c.classify("puts 'outside'"), LineType::Pure);
    let mut d = RubyClassifier::default();
    assert_eq!(d.classify("=end"), LineType::Pure);
}

#[test]
fn html_comment_with_code_before_opener() {
    let mut c = HtmlClassifier::default();
    assert_eq!(c.classify("<p> <!-- open"), LineType::Pure);
    assert_eq!(c.classify("hidden"), LineType::Comment);
    assert_eq!(c.classify("-->"), LineType::Comment);
    assert_eq!(c.classify("<p>"), LineType::Pure);
}

#[test]
fn registry_picks_dialect() {
    let mut js = get_classifier(Language::JavaScript);
    assert_eq!(js.classify("// c"), LineType::Comment);
    let mut sh = get_classifier(Language::PowerShell);
    assert_eq!(sh.classify("# c"), LineType::Comment);
    let mut rb = get_classifier(Language::Ruby);
    assert_eq!(rb.classify("=begin"), LineType::Comment);
    let mut vue = get_classifier(Language::Vue);
    assert_eq!(vue.classify("<!-- c -->"), LineType::Comment);
    let mut other = get_classifier(Language::Other);
    assert_eq!(other.classify("// c"), LineType::Pure);
    let mut py = get_classifier(Language::Python);
    assert_eq!(py.classify("// c"), LineType::Pure);
}

#[test]
fn cstyle_closer_may_overlap_opener() {
    let mut c = CStyleClassifier::new();
    assert_eq!(c.classify("/*/ x"), LineType::Pure);
    // The comment closed on that line: the next one is code.
    assert_eq!(c.classify("int y;"), LineType::Pure);
    let mut d = CStyleClassifier::new();
    assert_eq!(d.classify("/*/"), LineType::Comment);
    assert_eq!(d.classify("int z;"), LineType::Pure);
}

#[test]
fn html_closer_may_overlap_opener() {
    let mut c = HtmlClassifier::new();
    assert_eq!(c.classify("<!-->"), LineType::Comment);
    // The comment closed on that line: the next one is markup.
    assert_eq!(c.classify("<div>"), LineType::Pure);
    let mut d = HtmlClassifier::new();
    assert_eq!(d.classify("<!--> <p>"), LineType::Pure);
    assert_eq!(d.classify("<p>"), LineType::Pure);
}
