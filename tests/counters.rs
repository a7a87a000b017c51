use purecode::classifier::LineType;
use purecode::stats::{estimate_tokens, LangStats};

#[test]
fn token_estimates() {
    assert_eq!(estimate_tokens(0), 0);
    assert_eq!(estimate_tokens(-4), 0);
    assert_eq!(estimate_tokens(1), 1);
    assert_eq!(estimate_tokens(5), 7);
    assert_eq!(estimate_tokens(10), 13);
    assert_eq!(estimate_tokens(100), 130);
}

#[test]
fn net_pure_and_noise() {
    let mut s = LangStats::default();
    s.count_line(true, LineType::Pure, 3);
    s.count_line(true, LineType::Comment, 9);
    s.count_line(true, LineType::Blank, 0);
    s.count_line(false, LineType::Pure, 2);
    s.count_line(false, LineType::Pure, 1);
    s.count_line(false, LineType::Docstring, 4);
    assert_eq!(s.total_added, 3);
    assert_eq!(s.total_removed, 3);
    assert_eq!(s.code_words_added, 3);
    assert_eq!(s.code_words_removed, 3);
    assert_eq!(s.net_pure(), -1);
    assert_eq!(s.noise_added(), 2);
    assert_eq!(s.noise_removed(), 1);
    assert_eq!(LangStats::new(), LangStats::default());
}

#[test]
fn merged_scopes_add_every_counter() {
    let mut a = LangStats::new();
    a.count_line(true, LineType::Pure, 4);
    a.count_line(false, LineType::Comment, 0);
    let mut b = LangStats::new();
    b.count_line(true, LineType::Docstring, 0);
    b.count_line(true, LineType::Pure, 2);
    let m = a.checked_merge(&b).unwrap();
    assert_eq!(m.total_added, 3);
    assert_eq!(m.pure_added, 2);
    assert_eq!(m.docstring_lines_added, 1);
    assert_eq!(m.comment_lines_removed, 1);
    assert_eq!(m.total_removed, 1);
    assert_eq!(m.code_words_added, 6);
    assert_eq!(m.total_added, m.pure_added + m.comment_lines_added + m.docstring_lines_added + m.blank_lines_added);
}

#[test]
fn merge_that_overflows_is_refused() {
    let mut a = LangStats::new();
    a.code_words_removed = i64::MAX;
    let mut b = LangStats::new();
    b.code_words_removed = 1;
    assert!(a.checked_merge(&b).is_none());
    assert!(a.checked_merge(&LangStats::new()).is_some());
}
