//! Snapshot mode: one file read whole, every line counted as added.
use vstd::prelude::*;
use crate::classifier::{get_classifier, initial_classifier, LineClassifier, LineType};
use crate::language::{language_name, language_of_path, Language};
use crate::parser::{line_views, text_size};
use crate::stats::{FileRecord, FileStats, LangStats, Tally};
use crate::text::{count_words, lemma_word_count_bound, word_count};
use crate::chars_of;

verus! {

/// How many leading bytes of a file are searched for a NUL byte.
pub const SNIFF_LEN: usize = 1024;

/// Why a file yields no record.
#[derive(Debug, Clone, Copy, PartialEq, Eq, Structural)]
pub enum FileSkip {
    /// A NUL byte stands among its first `SNIFF_LEN` bytes.
    BinaryFile,
    /// It has no lines.
    Empty,
}

/// A NUL byte stands among the first `SNIFF_LEN` bytes.
pub open spec fn looks_binary(head: Seq<u8>) -> bool {
    exists|i: int| 0 <= i < head.len() && i < SNIFF_LEN && head[i] == 0
}

/// The classifier and counters after the lines of a file, all counted as added.
pub open spec fn snapshot_run(c: LineClassifier, lines: Seq<Seq<char>>) -> (LineClassifier, Tally)
    decreases lines.len(),
{
    if lines.len() == 0 {
        (c, Tally::zero())
    } else {
        let (c1, t1) = snapshot_run(c, lines.drop_last());
        let (c2, v) = c1.next(lines.last());
        (c2, t1.count_line(true, v, word_count(lines.last())))
    }
}

/// The counters of a whole file in a language.
pub open spec fn snapshot_tally(lang: Language, lines: Seq<Seq<char>>) -> Tally {
    snapshot_run(initial_classifier(lang), lines).1
}

/// Whether the leading bytes of a file mark it binary (an empty file is not).
pub fn is_binary(head: &[u8]) -> (r: bool)
    ensures
        r == looks_binary(head@),
{
    let mut i: usize = 0;
    while i < head.len() && i < SNIFF_LEN
        invariant
            i <= head@.len(),
            i <= SNIFF_LEN,
            forall|k: int| 0 <= k < i ==> head@[k] != 0,
        decreases head@.len() - i,
    {
        if head[i] == 0 {
            return true;
        }
        i = i + 1;
    }
    false
}

/// Counts every line of a file as added, with one classifier for the whole file.
pub fn count_snapshot_lines(lang: Language, lines: &Vec<String>) -> (r: LangStats)
    requires
        text_size(line_views(lines@)) <= i64::MAX,
    ensures
        r@ == snapshot_tally(lang, line_views(lines@)),
{
    let ghost views = line_views(lines@);
    let mut c = get_classifier(lang);
    let mut st = LangStats::new();
    assert(views.take(0) =~= Seq::<Seq<char>>::empty());
    let mut i: usize = 0;
    while i < lines.len()
        invariant
            i <= lines@.len(),
            views == line_views(lines@),
            text_size(views) <= i64::MAX,
            (c, st@) == snapshot_run(initial_classifier(lang), views.take(i as int)),
            st@.within(text_size(views.take(i as int)) as int),
        decreases lines@.len() - i,
    {
        proof {
            crate::parser::lemma_text_size_prefix(views, i + 1);
            assert(views.take(i + 1).drop_last() =~= views.take(i as int));
        }
        let cs = chars_of(lines[i].as_str());
        let t = c.classify_chars(cs.as_slice());
        let words = count_words(cs.as_slice());
        proof {
            lemma_word_count_bound(cs@);
        }
        st.count_line(true, t, words);
        i = i + 1;
    }
    assert(views.take(i as int) =~= views);
    st
}

/// The record of one file in snapshot mode: skipped when its leading bytes
/// `head` mark it binary or it has no lines, else every line counted as added.
pub fn process_file(path: &str, head: &[u8], lines: &Vec<String>) -> (r: Result<
    FileStats,
    FileSkip,
>)
    requires
        !looks_binary(head@) ==> text_size(line_views(lines@)) <= i64::MAX,
    ensures
        match r {
            Err(FileSkip::BinaryFile) => looks_binary(head@),
            Err(FileSkip::Empty) => !looks_binary(head@) && lines@.len() == 0,
            Ok(fs) => {
                &&& !looks_binary(head@)
                &&& lines@.len() > 0
                &&& fs@ == (FileRecord {
                    path: path@,
                    language: language_name(language_of_path(path@)),
                    tally: snapshot_tally(language_of_path(path@), line_views(lines@)),
                })
                &&& fs.lang_stats.total_added == lines@.len()
                &&& fs.lang_stats@.balanced()
                &&& fs.lang_stats.total_removed == 0
                &&& fs.lang_stats.pure_removed == 0
                &&& fs.lang_stats.comment_lines_removed == 0
                &&& fs.lang_stats.docstring_lines_removed == 0
                &&& fs.lang_stats.blank_lines_removed == 0
                &&& fs.lang_stats.code_words_removed == 0
            },
        },
{
    if is_binary(head) {
        return Err(FileSkip::BinaryFile);
    }
    if lines.len() == 0 {
        return Err(FileSkip::Empty);
    }
    let lang = Language::from_path(path);
    let lang_stats = count_snapshot_lines(lang, lines);
    proof {
        lemma_snapshot_run_balanced(initial_classifier(lang), line_views(lines@));
    }
    Ok(FileStats { path: path.to_string(), language: lang.to_string(), lang_stats })
}


/// Whatever the file, its counters are balanced: `total_added` is its number
/// of lines and the sum of the pure, comment, docstring and blank lines added,
/// and nothing is removed.
pub proof fn lemma_snapshot_balanced(lang: Language, lines: Seq<Seq<char>>)
    ensures
        snapshot_tally(lang, lines).balanced(),
        snapshot_tally(lang, lines).total_added == lines.len(),
        snapshot_tally(lang, lines).total_removed == 0,
{
    lemma_snapshot_run_balanced(initial_classifier(lang), lines);
}

proof fn lemma_snapshot_run_balanced(c: LineClassifier, lines: Seq<Seq<char>>)
    ensures
        snapshot_run(c, lines).1.balanced(),
        snapshot_run(c, lines).1.total_added == lines.len(),
        snapshot_run(c, lines).1.total_removed == 0,
        snapshot_run(c, lines).1.pure_removed == 0,
        snapshot_run(c, lines).1.comment_lines_removed == 0,
        snapshot_run(c, lines).1.docstring_lines_removed == 0,
        snapshot_run(c, lines).1.blank_lines_removed == 0,
        snapshot_run(c, lines).1.code_words_removed == 0,
    decreases lines.len(),
{
    if lines.len() > 0 {
        lemma_snapshot_run_balanced(c, lines.drop_last());
    }
}

} // verus!
