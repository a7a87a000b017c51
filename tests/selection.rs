use purecode::select::PathFilter;

fn strings(v: &[&str]) -> Vec<String> {
    v.iter().map(|s| s.to_string()).collect()
}

#[test]
fn path_filter_keeps_and_skips() {
    let f = PathFilter::new(&strings(&["**/*.rs"]), &strings(&["target/**", "***"]));
    assert!(f.selects("./src/lib.rs"));
    assert!(f.selects("src/lib.rs"));
    assert!(!f.selects("./target/debug/build.rs"));
    assert!(!f.selects("target/x.rs"));
    assert!(!f.selects("./README.md"));
}

#[test]
fn invalid_patterns_are_dropped() {
    let f = PathFilter::new(&strings(&["***"]), &strings(&[]));
    assert!(!f.selects("a.rs"));
    let g = PathFilter::new(&strings(&["***", "*.py"]), &strings(&["***"]));
    assert!(g.selects("./a.py"));
    assert!(!g.selects("./a.rs"));
}
