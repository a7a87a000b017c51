use purecode::parser::parse_diff;
use purecode::stats::FileStats;

fn scan(text: &str) -> (Vec<FileStats>, bool) {
    let lines: Vec<String> = text.lines().map(|l| l.to_string()).collect();
    let mut stats = Vec::new();
    let warned = parse_diff(&lines, &mut stats);
    (stats, warned)
}

#[test]
fn test_parse_diff_synthetic() {
    let diff_input = "\
diff --git a/test.py b/test.py
index 123..456 100644
--- a/test.py
+++ b/test.py
@@ -1,3 +1,3 @@
-def foo():
-# comment
+def bar():
+    pass
";
    let (stats, _) = scan(diff_input);

    assert_eq!(stats.len(), 1);
    let file_stats = &stats[0];
    assert_eq!(file_stats.path, "test.py");
    assert_eq!(file_stats.language, "Python");

    let lang_stats = &file_stats.lang_stats;
    assert_eq!(lang_stats.total_removed, 2);
    assert_eq!(lang_stats.total_added, 2);
    assert_eq!(lang_stats.pure_removed, 1);
    assert_eq!(lang_stats.pure_added, 2);
}

#[test]
fn end_to_end_diff_counts() {
    let diff_input = "diff --git a/test.py b/test.py\nindex 123..456 100644\n--- a/test.py\n+++ b/test.py\n@@ -1,3 +1,3 @@\n-def foo():\n-# comment\n+def bar():\n+    pass\n";
    let (stats, warned) = scan(diff_input);
    assert!(!warned);
    assert_eq!(stats.len(), 1);
    let s = &stats[0].lang_stats;
    assert_eq!(stats[0].path, "test.py");
    assert_eq!(stats[0].language, "Python");
    assert_eq!(s.total_removed, 2);
    assert_eq!(s.total_added, 2);
    assert_eq!(s.pure_removed, 1);
    assert_eq!(s.pure_added, 2);
    assert_eq!(s.comment_lines_removed, 1);
    assert_eq!(s.comment_lines_added, 0);
    assert_eq!(s.code_words_added, 3);
    assert_eq!(s.code_words_removed, 2);
}

#[test]
fn hunk_header_resets_classifier() {
    let diff_input = "--- a/x.c\n+++ b/x.c\n@@ -1 +1 @@\n+int a; /* open\n@@ -40 +40 @@\n+int b;\n";
    let (stats, _) = scan(diff_input);
    assert_eq!(stats.len(), 1);
    let s = &stats[0].lang_stats;
    assert_eq!(s.total_added, 2);
    assert_eq!(s.pure_added, 2);
    assert_eq!(s.comment_lines_added, 0);
}

#[test]
fn open_comment_carries_within_a_hunk() {
    let diff_input = "--- a/x.c\n+++ b/x.c\n@@ -1 +1 @@\n+/* open\n+int b;\n";
    let (stats, _) = scan(diff_input);
    let s = &stats[0].lang_stats;
    assert_eq!(s.comment_lines_added, 2);
    assert_eq!(s.pure_added, 0);
}

#[test]
fn binary_section_is_not_emitted() {
    let diff_input = "diff --git a/img.png b/img.png\nindex 1..2 100644\nBinary files a/img.png and b/img.png differ\n+stray\ndiff --git a/x.rb b/x.rb\n--- a/x.rb\n+++ b/x.rb\n@@ -0,0 +1 @@\n+puts 1\n";
    let (stats, _) = scan(diff_input);
    assert_eq!(stats.len(), 1);
    assert_eq!(stats[0].path, "x.rb");
    assert_eq!(stats[0].language, "Ruby");
    assert_eq!(stats[0].lang_stats.pure_added, 1);
}

#[test]
fn new_and_deleted_files() {
    let diff_input = "--- /dev/null\n+++ b/new.go\n@@ -0,0 +1,2 @@\n+// doc\n+package main\n--- a/old.sh\n+++ /dev/null\n@@ -1 +0,0 @@\n-# gone\n";
    let (stats, _) = scan(diff_input);
    assert_eq!(stats.len(), 2);
    assert_eq!(stats[0].path, "new.go");
    assert_eq!(stats[0].language, "Go");
    assert_eq!(stats[0].lang_stats.comment_lines_added, 1);
    assert_eq!(stats[0].lang_stats.pure_added, 1);
    assert_eq!(stats[1].path, "old.sh");
    assert_eq!(stats[1].language, "Shell");
    assert_eq!(stats[1].lang_stats.comment_lines_removed, 1);
    assert_eq!(stats[1].lang_stats.total_removed, 1);
}

#[test]
fn renamed_file_takes_new_language() {
    let diff_input = "--- a/script\n+++ b/script.py\n@@ -1 +1 @@\n+# note\n";
    let (stats, _) = scan(diff_input);
    assert_eq!(stats.len(), 1);
    assert_eq!(stats[0].path, "script.py");
    assert_eq!(stats[0].language, "Python");
    assert_eq!(stats[0].lang_stats.comment_lines_added, 1);
}

#[test]
fn files_without_changes_are_not_emitted() {
    let diff_input = "--- a/a.js\n+++ b/a.js\n--- a/b.js\n+++ b/b.js\n@@ -1 +1 @@\n+\n";
    let (stats, _) = scan(diff_input);
    assert_eq!(stats.len(), 1);
    assert_eq!(stats[0].path, "b.js");
    assert_eq!(stats[0].lang_stats.blank_lines_added, 1);
}

#[test]
fn context_lines_are_reported_not_counted() {
    let diff_input = "--- a/a.css\n+++ b/a.css\n@@ -1,2 +1,2 @@\n context\n+a { }\n";
    let (stats, warned) = scan(diff_input);
    assert!(warned);
    assert_eq!(stats[0].lang_stats.total_added, 1);
    assert_eq!(stats[0].lang_stats.total_removed, 0);
}

#[test]
fn lines_before_any_header_are_ignored() {
    let (stats, warned) = scan("+stray\n-stray\n garbage\n@@ -1 +1 @@\n");
    assert!(stats.is_empty());
    assert!(!warned);
}

#[test]
fn counts_stay_balanced_on_messy_input() {
    let diff_input = "--- a/m.py\n+++ b/m.py\n+\"\"\"\n+doc\n-x = 1\n+   \n-# c\n@@\n+'''a'''\n--- a/n.html\n+<!-- a --> b\n-<!--\n--- a/o.rb\n+=begin\n+x\n";
    let (stats, _) = scan(diff_input);
    assert_eq!(stats.len(), 3);
    for f in &stats {
        let s = &f.lang_stats;
        assert_eq!(
            s.total_added,
            s.pure_added + s.comment_lines_added + s.docstring_lines_added + s.blank_lines_added
        );
        assert_eq!(
            s.total_removed,
            s.pure_removed
                + s.comment_lines_removed
                + s.docstring_lines_removed
                + s.blank_lines_removed
        );
    }
    assert_eq!(stats[0].lang_stats.docstring_lines_added, 3);
    assert_eq!(stats[0].lang_stats.blank_lines_added, 1);
    assert_eq!(stats[1].path, "n.html");
    assert_eq!(stats[1].lang_stats.pure_added, 1);
    assert_eq!(stats[1].lang_stats.comment_lines_removed, 1);
    assert_eq!(stats[2].lang_stats.comment_lines_added, 2);
}

#[test]
fn header_paths_are_trimmed() {
    let (stats, _) = scan("---   a/t.ts  \n+++ b/t.ts\t\n+let x = 1;\n");
    assert_eq!(stats.len(), 1);
    assert_eq!(stats[0].path, "t.ts");
    assert_eq!(stats[0].language, "TypeScript");
}

#[test]
fn second_hunk_counts_removed_lines_afresh() {
    let diff_input = "--- a/p.py\n+++ b/p.py\n@@ -1 +1 @@\n+\"\"\"\n@@ -9,2 +9,2 @@\n-x = 1\n+# note\n";
    let (stats, _) = scan(diff_input);
    let s = &stats[0].lang_stats;
    assert_eq!(s.docstring_lines_added, 1);
    assert_eq!(s.pure_removed, 1);
    assert_eq!(s.comment_lines_added, 1);
    assert_eq!(s.code_words_removed, 3);
}
