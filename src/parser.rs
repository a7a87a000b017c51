//! The unified-diff scanner: a state machine over the lines of a diff that
//! tracks the file being read, drives its classifier, and counts each added
//! and removed line.
use vstd::prelude::*;
use crate::chars_of;
use vstd::string::StrSliceExecFns;
use crate::classifier::{get_classifier, initial_classifier, LineClassifier, LineType};
use crate::language::{language_name, language_of_path, Language};
use crate::stats::{FileRecord, FileStats, LangStats, Tally};
use crate::text::{
    contains, count_words, eq_str, has_prefix_str, contains_str, lemma_word_count_bound,
    starts_with, strip_prefix, trim, trim_bounds, word_count,
};

verus! {

/// The file section being read.
pub struct OpenFile {
    pub path: Seq<char>,
    pub language: Language,
    pub tally: Tally,
    pub classifier: LineClassifier,
}

/// The scanner's state between two lines.
pub struct DiffState {
    /// The file section being read, if any.
    pub current: Option<OpenFile>,
    /// The section was reported binary: its lines are ignored, and it is not emitted.
    pub binary: bool,
    /// A context line was met.
    pub context_seen: bool,
    /// The records of the sections already closed.
    pub emitted: Seq<FileRecord>,
}

pub open spec fn initial_diff_state() -> DiffState {
    DiffState { current: None, binary: false, context_seen: false, emitted: Seq::empty() }
}

/// A fresh section for a path: its language, no lines counted, its classifier new.
pub open spec fn open_file(path: Seq<char>) -> OpenFile {
    let lang = language_of_path(path);
    OpenFile { path, language: lang, tally: Tally::zero(), classifier: initial_classifier(lang) }
}

pub open spec fn record_of(f: OpenFile) -> FileRecord {
    FileRecord { path: f.path, language: language_name(f.language), tally: f.tally }
}

/// The records once the current section closes: it is emitted when it counted
/// a line and was not binary.
pub open spec fn flushed(st: DiffState) -> Seq<FileRecord> {
    match st.current {
        Some(f) => if !st.binary && f.tally.has_changes() {
            st.emitted.push(record_of(f))
        } else {
            st.emitted
        },
        None => st.emitted,
    }
}

/// The path named by a `--- ` or `+++ ` header, trimmed.
pub open spec fn header_path(line: Seq<char>) -> Seq<char> {
    trim(line.subrange(4, line.len() as int))
}

pub open spec fn is_binary_notice(line: Seq<char>) -> bool {
    starts_with(line, "Binary files"@) && contains(line, "differ"@)
}

pub open spec fn is_metadata(line: Seq<char>) -> bool {
    ||| starts_with(line, "diff --git"@)
    ||| starts_with(line, "index "@)
    ||| starts_with(line, "new file mode"@)
    ||| starts_with(line, "deleted file mode"@)
}

/// A content line counted against the current section.
pub open spec fn count_content(f: OpenFile, added: bool, content: Seq<char>) -> OpenFile {
    let (c, t) = f.classifier.next(content);
    OpenFile { classifier: c, tally: f.tally.count_line(added, t, word_count(content)), ..f }
}

/// One line of a unified diff.
pub open spec fn diff_step(st: DiffState, line: Seq<char>) -> DiffState {
    if is_binary_notice(line) {
        DiffState { current: None, binary: true, ..st }
    } else if starts_with(line, "--- "@) {
        let emitted = flushed(st);
        let p = header_path(line);
        if p == "/dev/null"@ {
            DiffState { current: None, binary: false, emitted, ..st }
        } else {
            DiffState {
                current: Some(open_file(strip_prefix(p, "a/"@))),
                binary: false,
                emitted,
                ..st
            }
        }
    } else if starts_with(line, "+++ "@) {
        let p = header_path(line);
        if p == "/dev/null"@ {
            st
        } else {
            let path = strip_prefix(p, "b/"@);
            match st.current {
                Some(f) => if f.path == path {
                    st
                } else {
                    let lang = language_of_path(path);
                    DiffState {
                        current: Some(
                            OpenFile {
                                path,
                                language: lang,
                                classifier: initial_classifier(lang),
                                ..f
                            },
                        ),
                        ..st
                    }
                },
                None => DiffState { current: Some(open_file(path)), ..st },
            }
        }
    } else if starts_with(line, "@@"@) {
        match st.current {
            Some(f) => DiffState {
                current: Some(OpenFile { classifier: initial_classifier(f.language), ..f }),
                ..st
            },
            None => st,
        }
    } else if is_metadata(line) || st.binary {
        st
    } else {
        match st.current {
            Some(f) => if starts_with(line, "+"@) && !starts_with(line, "+++"@) {
                DiffState {
                    current: Some(count_content(f, true, line.subrange(1, line.len() as int))),
                    ..st
                }
            } else if starts_with(line, "-"@) && !starts_with(line, "---"@) {
                DiffState {
                    current: Some(count_content(f, false, line.subrange(1, line.len() as int))),
                    ..st
                }
            } else if starts_with(line, " "@) {
                DiffState { context_seen: true, ..st }
            } else {
                st
            },
            None => st,
        }
    }
}

/// The state after a sequence of lines.
pub open spec fn diff_run(lines: Seq<Seq<char>>) -> DiffState
    decreases lines.len(),
{
    if lines.len() == 0 {
        initial_diff_state()
    } else {
        diff_step(diff_run(lines.drop_last()), lines.last())
    }
}

/// The records that a whole diff yields, in the order its sections close.
pub open spec fn diff_records(lines: Seq<Seq<char>>) -> Seq<FileRecord> {
    flushed(diff_run(lines))
}

/// The characters of each line.
pub open spec fn line_views(lines: Seq<String>) -> Seq<Seq<char>> {
    lines.map_values(|l: String| l@)
}

/// The records of a sequence of `FileStats`.
pub open spec fn record_views(stats: Seq<FileStats>) -> Seq<FileRecord> {
    stats.map_values(|f: FileStats| f@)
}

/// The size of a text: its characters and one line break per line.
pub open spec fn text_size(lines: Seq<Seq<char>>) -> nat
    decreases lines.len(),
{
    if lines.len() == 0 {
        0
    } else {
        text_size(lines.drop_last()) + lines.last().len() + 1
    }
}

pub proof fn lemma_text_size_prefix(lines: Seq<Seq<char>>, i: int)
    requires
        0 <= i <= lines.len(),
    ensures
        text_size(lines.take(i)) <= text_size(lines),
    decreases lines.len(),
{
    if i < lines.len() {
        lemma_text_size_prefix(lines.drop_last(), i);
        assert(lines.drop_last().take(i) =~= lines.take(i));
    } else {
        assert(lines.take(i) =~= lines);
    }
}

fn flush(current: Option<FileStats>, is_binary: bool, stats: &mut Vec<FileStats>)
    ensures
        record_views(final(stats)@) == match current {
            Some(fs) => if !is_binary && fs.lang_stats@.has_changes() {
                record_views(old(stats)@).push(fs@)
            } else {
                record_views(old(stats)@)
            },
            None => record_views(old(stats)@),
        },
{
    if let Some(fs) = current {
        if !is_binary && (fs.lang_stats.total_added > 0 || fs.lang_stats.total_removed > 0) {
            let ghost v = fs@;
            stats.push(fs);
            assert(record_views(stats@) =~= record_views(old(stats)@).push(v));
        }
    }
}

fn new_file_stats(path: String) -> (r: (FileStats, Language))
    ensures
        r.0@ == record_of(open_file(path@)),
        r.1 == open_file(path@).language,
{
    let lang = Language::from_path(path.as_str());
    let name = lang.to_string();
    (FileStats { path, language: name, lang_stats: LangStats::new() }, lang)
}


/// The executable state of the scanner.
struct Scanner {
    current: Option<FileStats>,
    lang: Language,
    classifier: LineClassifier,
    binary: bool,
    context_seen: bool,
}

impl Scanner {
    /// Holds what `st` holds, but for the records already emitted.
    spec fn tracks(self, st: DiffState) -> bool {
        &&& self.binary == st.binary
        &&& self.context_seen == st.context_seen
        &&& match st.current {
            None => self.current is None,
            Some(f) => match self.current {
                Some(fs) => fs@ == record_of(f) && self.lang == f.language && self.classifier
                    == f.classifier,
                None => false,
            },
        }
    }

    spec fn within(self, n: int) -> bool {
        match self.current {
            Some(fs) => fs.lang_stats@.within(n),
            None => true,
        }
    }

    fn count(&mut self, content: &[char], added: bool, Ghost(n): Ghost<int>)
        requires
            old(self).current is Some,
            old(self).within(n),
            0 <= n,
            n + content@.len() + 2 <= i64::MAX,
        ensures
            final(self).within(n + content@.len() + 2),
            final(self).binary == old(self).binary,
            final(self).context_seen == old(self).context_seen,
            final(self).lang == old(self).lang,
            ({
                let (c, t) = old(self).classifier.next(content@);
                &&& final(self).classifier == c
                &&& match (old(self).current, final(self).current) {
                    (Some(a), Some(b)) => b.path@ == a.path@ && b.language@ == a.language@
                        && b.lang_stats@ == a.lang_stats@.count_line(
                        added,
                        t,
                        word_count(content@),
                    ),
                    _ => false,
                }
            }),
    {
        let t = self.classifier.classify_chars(content);
        let words = count_words(content);
        proof {
            lemma_word_count_bound(content@);
        }
        match &mut self.current {
            Some(fs) => fs.lang_stats.count_line(added, t, words),
            None => {},
        }
    }

    fn step(
        &mut self,
        line: &str,
        stats: &mut Vec<FileStats>,
        Ghost(st): Ghost<DiffState>,
        Ghost(base): Ghost<Seq<FileRecord>>,
        Ghost(n): Ghost<int>,
    )
        requires
            old(self).tracks(st),
            record_views(old(stats)@) == base + st.emitted,
            old(self).within(n),
            0 <= n,
            n + line@.len() + 1 <= i64::MAX,
        ensures
            final(self).tracks(diff_step(st, line@)),
            record_views(final(stats)@) == base + diff_step(st, line@).emitted,
            final(self).within(n + line@.len() + 1),
    {
        let cs = chars_of(line);
        let s = cs.as_slice();
        let len = s.len();
        proof {
            reveal_strlit("--- ");
            reveal_strlit("+++ ");
            reveal_strlit("a/");
            reveal_strlit("b/");
            reveal_strlit("+");
            reveal_strlit("-");
        }
        if has_prefix_str(s, "Binary files") && contains_str(s, "differ") {
            self.current = None;
            self.binary = true;
        } else if has_prefix_str(s, "--- ") {
            let cur = self.current.take();
            flush(cur, self.binary, stats);
            proof {
                assert(base + flushed(st) =~= record_views(stats@));
            }
            self.binary = false;
            let (lo0, hi0) = trim_bounds(&s[4..len]);
            let lo = lo0 + 4;
            let hi = hi0 + 4;
            assert(s@.subrange(4, len as int).subrange(lo0 as int, hi0 as int) =~= s@.subrange(
                lo as int,
                hi as int,
            ));
            let p = &s[lo..hi];
            if eq_str(p, "/dev/null") {
                self.current = None;
            } else {
                let start = if has_prefix_str(p, "a/") {
                    lo + 2
                } else {
                    lo
                };
                assert(s@.subrange(lo as int, hi as int).subrange(
                    (start - lo) as int,
                    (hi - lo) as int,
                ) =~= s@.subrange(start as int, hi as int));
                let path = line.substring_char(start, hi).to_string();
                let (fs, lang) = new_file_stats(path);
                self.classifier = get_classifier(lang);
                self.lang = lang;
                self.current = Some(fs);
            }
        } else if has_prefix_str(s, "+++ ") {
            let (lo0, hi0) = trim_bounds(&s[4..len]);
            let lo = lo0 + 4;
            let hi = hi0 + 4;
            assert(s@.subrange(4, len as int).subrange(lo0 as int, hi0 as int) =~= s@.subrange(
                lo as int,
                hi as int,
            ));
            let p = &s[lo..hi];
            if !eq_str(p, "/dev/null") {
                let start = if has_prefix_str(p, "b/") {
                    lo + 2
                } else {
                    lo
                };
                assert(s@.subrange(lo as int, hi as int).subrange(
                    (start - lo) as int,
                    (hi - lo) as int,
                ) =~= s@.subrange(start as int, hi as int));
                let path = line.substring_char(start, hi);
                match &mut self.current {
                    Some(fs) => {
                        let path_chars = chars_of(path);
                        if !eq_str(path_chars.as_slice(), fs.path.as_str()) {
                            let lang = Language::from_path(path);
                            self.classifier = get_classifier(lang);
                            self.lang = lang;
                            fs.path = path.to_string();
                            fs.language = lang.to_string();
                        }
                    },
                    None => {
                        let (fs, lang) = new_file_stats(path.to_string());
                        self.classifier = get_classifier(lang);
                        self.lang = lang;
                        self.current = Some(fs);
                    },
                }
            }
        } else if has_prefix_str(s, "@@") {
            if self.current.is_some() {
                self.classifier = get_classifier(self.lang);
            }
        } else if has_prefix_str(s, "diff --git") || has_prefix_str(s, "index ") || has_prefix_str(
            s,
            "new file mode",
        ) || has_prefix_str(s, "deleted file mode") || self.binary {
        } else if self.current.is_some() {
            if has_prefix_str(s, "+") && !has_prefix_str(s, "+++") {
                self.count(&s[1..len], true, Ghost(n));
            } else if has_prefix_str(s, "-") && !has_prefix_str(s, "---") {
                self.count(&s[1..len], false, Ghost(n));
            } else if has_prefix_str(s, " ") {
                self.context_seen = true;
            }
        }
    }
}


/// Scans the lines of a unified diff and appends to `stats` one record per
/// file section that counted at least one line and was not reported binary,
/// in the order the sections close. Returns whether a context line was met.
pub fn parse_diff(lines: &Vec<String>, stats: &mut Vec<FileStats>) -> (context_seen: bool)
    requires
        text_size(line_views(lines@)) <= i64::MAX,
    ensures
        record_views(final(stats)@) == record_views(old(stats)@) + diff_records(
            line_views(lines@),
        ),
        context_seen == diff_run(line_views(lines@)).context_seen,
        forall|k: int|
            old(stats)@.len() <= k < final(stats)@.len() ==> (
            #[trigger] final(stats)@[k]).lang_stats@.balanced(),
{
    let ghost base = record_views(stats@);
    let ghost views = line_views(lines@);
    let mut sc = Scanner {
        current: None,
        lang: Language::Other,
        classifier: get_classifier(Language::Other),
        binary: false,
        context_seen: false,
    };
    assert(views.take(0) =~= Seq::<Seq<char>>::empty());
    assert(base + Seq::<FileRecord>::empty() =~= base);
    let mut i: usize = 0;
    while i < lines.len()
        invariant
            i <= lines@.len(),
            views == line_views(lines@),
            text_size(views) <= i64::MAX,
            sc.tracks(diff_run(views.take(i as int))),
            record_views(stats@) == base + diff_run(views.take(i as int)).emitted,
            sc.within(text_size(views.take(i as int)) as int),
        decreases lines@.len() - i,
    {
        proof {
            lemma_text_size_prefix(views, i + 1);
            assert(views.take(i + 1).drop_last() =~= views.take(i as int));
        }
        sc.step(
            lines[i].as_str(),
            stats,
            Ghost(diff_run(views.take(i as int))),
            Ghost(base),
            Ghost(text_size(views.take(i as int)) as int),
        );
        i = i + 1;
    }
    assert(views.take(i as int) =~= views);
    let ghost st = diff_run(views);
    flush(sc.current, sc.binary, stats);
    proof {
        assert(base + flushed(st) =~= record_views(stats@));
        lemma_diff_records_balanced(views);
        assert forall|k: int| base.len() <= k < stats@.len() implies (
        #[trigger] stats@[k]).lang_stats@.balanced() by {
            assert(record_views(stats@).len() == stats@.len());
            assert(record_views(stats@)[k] == stats@[k]@);
            assert(record_views(stats@)[k] == flushed(st)[k - base.len()]);
            assert(diff_records(views)[k - base.len()].tally.balanced());
        }
    }
    sc.context_seen
}


/// Every counter set of the state, emitted or open, is balanced.
pub open spec fn state_balanced(st: DiffState) -> bool {
    &&& forall|k: int| 0 <= k < st.emitted.len() ==> (#[trigger] st.emitted[k]).tally.balanced()
    &&& match st.current {
        Some(f) => f.tally.balanced(),
        None => true,
    }
}

proof fn lemma_step_balanced(st: DiffState, line: Seq<char>)
    requires
        state_balanced(st),
    ensures
        state_balanced(diff_step(st, line)),
{
    let e = flushed(st);
    assert forall|k: int| 0 <= k < e.len() implies (#[trigger] e[k]).tally.balanced() by {
        if k < st.emitted.len() {
            assert(e[k] == st.emitted[k]);
        }
    }
    match st.current {
        Some(f) => {
            let (c, t) = f.classifier.next(line.subrange(1, line.len() as int));
            crate::stats::lemma_count_line_balanced(
                f.tally,
                true,
                t,
                word_count(line.subrange(1, line.len() as int)),
            );
            crate::stats::lemma_count_line_balanced(
                f.tally,
                false,
                t,
                word_count(line.subrange(1, line.len() as int)),
            );
        },
        None => {},
    }
}

proof fn lemma_run_balanced(lines: Seq<Seq<char>>)
    ensures
        state_balanced(diff_run(lines)),
    decreases lines.len(),
{
    if lines.len() > 0 {
        lemma_run_balanced(lines.drop_last());
        lemma_step_balanced(diff_run(lines.drop_last()), lines.last());
    }
}

/// Whatever the diff, malformed or not, every record it yields counts each
/// added line under exactly one verdict, and each removed line too:
/// `total_added` is the sum of the pure, comment, docstring and blank lines
/// added, and likewise for the lines removed.
pub proof fn lemma_diff_records_balanced(lines: Seq<Seq<char>>)
    ensures
        forall|k: int|
            0 <= k < diff_records(lines).len() ==> (#[trigger] diff_records(lines)[k]).tally.balanced(),
{
    lemma_run_balanced(lines);
    let st = diff_run(lines);
    let e = flushed(st);
    assert forall|k: int| 0 <= k < e.len() implies (#[trigger] e[k]).tally.balanced() by {
        if k < st.emitted.len() {
            assert(e[k] == st.emitted[k]);
        }
    }
}

/// A hunk header resets the classifier of the open file section to the fresh
/// one for its language, so that no comment or docstring left open at the end
/// of one hunk reaches into the next; the path and the counters stay.
pub proof fn lemma_hunk_header_resets(st: DiffState, line: Seq<char>)
    requires
        starts_with(line, "@@"@),
        st.current is Some,
    ensures
        diff_step(st, line).current == Some(
            OpenFile { classifier: initial_classifier(st.current->0.language), ..st.current->0 },
        ),
        diff_step(st, line).emitted == st.emitted,
{
    reveal_strlit("@@");
    reveal_strlit("Binary files");
    reveal_strlit("--- ");
    reveal_strlit("+++ ");
    assert(line.subrange(0, 2)[0] == line[0]);
    assert(line[0] == '@');
    assert(!starts_with(line, "Binary files"@)) by {
        if starts_with(line, "Binary files"@) {
            assert(line.subrange(0, 12)[0] == line[0]);
        }
    }
    assert(!starts_with(line, "--- "@)) by {
        if starts_with(line, "--- "@) {
            assert(line.subrange(0, 4)[0] == line[0]);
        }
    }
    assert(!starts_with(line, "+++ "@)) by {
        if starts_with(line, "+++ "@) {
            assert(line.subrange(0, 4)[0] == line[0]);
        }
    }
}


/// The state after further lines.
pub open spec fn diff_steps(st: DiffState, lines: Seq<Seq<char>>) -> DiffState
    decreases lines.len(),
{
    if lines.len() == 0 {
        st
    } else {
        diff_step(diff_steps(st, lines.drop_last()), lines.last())
    }
}

/// An added or a removed line of a hunk.
pub open spec fn is_change_line(line: Seq<char>) -> bool {
    ||| starts_with(line, "+"@) && !starts_with(line, "+++"@)
    ||| starts_with(line, "-"@) && !starts_with(line, "---"@)
}

/// The classifier and counters after the changed lines of a hunk, each
/// classified without its marker, from a classifier and counters.
pub open spec fn hunk_run(c: LineClassifier, t: Tally, lines: Seq<Seq<char>>) -> (
    LineClassifier,
    Tally,
)
    decreases lines.len(),
{
    if lines.len() == 0 {
        (c, t)
    } else {
        let (c1, t1) = hunk_run(c, t, lines.drop_last());
        let l = lines.last();
        let content = l.subrange(1, l.len() as int);
        let (c2, v) = c1.next(content);
        (c2, t1.count_line(starts_with(l, "+"@), v, word_count(content)))
    }
}

proof fn lemma_first_char(l: Seq<char>, p: Seq<char>)
    requires
        starts_with(l, p),
        p.len() > 0,
    ensures
        l[0] == p[0],
{
    assert(l.subrange(0, p.len() as int)[0] == l[0]);
}

proof fn lemma_change_line_is_content(l: Seq<char>)
    requires
        is_change_line(l),
    ensures
        !is_binary_notice(l),
        !starts_with(l, "--- "@),
        !starts_with(l, "+++ "@),
        !starts_with(l, "@@"@),
        !is_metadata(l),
        starts_with(l, "+"@) ==> !starts_with(l, "-"@),
{
    reveal_strlit("+");
    reveal_strlit("-");
    reveal_strlit("+++");
    reveal_strlit("---");
    reveal_strlit("+++ ");
    reveal_strlit("--- ");
    reveal_strlit("@@");
    reveal_strlit("Binary files");
    reveal_strlit("diff --git");
    reveal_strlit("index ");
    reveal_strlit("new file mode");
    reveal_strlit("deleted file mode");
    if starts_with(l, "+"@) {
        lemma_first_char(l, "+"@);
    } else {
        lemma_first_char(l, "-"@);
    }
    assert(l[0] == '+' || l[0] == '-');
    if starts_with(l, "Binary files"@) {
        lemma_first_char(l, "Binary files"@);
    }
    if starts_with(l, "@@"@) {
        lemma_first_char(l, "@@"@);
    }
    if starts_with(l, "diff --git"@) {
        lemma_first_char(l, "diff --git"@);
    }
    if starts_with(l, "index "@) {
        lemma_first_char(l, "index "@);
    }
    if starts_with(l, "new file mode"@) {
        lemma_first_char(l, "new file mode"@);
    }
    if starts_with(l, "deleted file mode"@) {
        lemma_first_char(l, "deleted file mode"@);
    }
    if starts_with(l, "-"@) {
        lemma_first_char(l, "-"@);
    }
    if starts_with(l, "--- "@) {
        lemma_first_char(l, "--- "@);
        assert(l.subrange(0, 3) =~= l.subrange(0, 4).subrange(0, 3));
        assert("--- "@.subrange(0, 3) =~= "---"@);
    }
    if starts_with(l, "+++ "@) {
        lemma_first_char(l, "+++ "@);
        assert(l.subrange(0, 3) =~= l.subrange(0, 4).subrange(0, 3));
        assert("+++ "@.subrange(0, 3) =~= "+++"@);
    }
}

/// After a hunk header, the changed lines of the hunk are classified by the
/// fresh classifier of the file's language and counted onto the file's
/// counters: what they add does not depend on any line before the header.
pub proof fn lemma_hunk_counted_afresh(st: DiffState, header: Seq<char>, hunk: Seq<Seq<char>>)
    requires
        st.current is Some,
        !st.binary,
        starts_with(header, "@@"@),
        forall|i: int| 0 <= i < hunk.len() ==> is_change_line(#[trigger] hunk[i]),
    ensures
        ({
            let f = st.current->0;
            let (c, t) = hunk_run(initial_classifier(f.language), f.tally, hunk);
            let after = diff_steps(diff_step(st, header), hunk);
            &&& after.current == Some(OpenFile { classifier: c, tally: t, ..f })
            &&& after.binary == st.binary
            &&& after.emitted == st.emitted
        }),
    decreases hunk.len(),
{
    lemma_hunk_header_resets(st, header);
    reveal_strlit("Binary files");
    reveal_strlit("@@");
    reveal_strlit("--- ");
    reveal_strlit("+++ ");
    assert(header.subrange(0, 2)[0] == header[0]);
    if is_binary_notice(header) {
        lemma_first_char(header, "Binary files"@);
    }
    if hunk.len() > 0 {
        let prev = hunk.drop_last();
        assert forall|i: int| 0 <= i < prev.len() implies is_change_line(#[trigger] prev[i]) by {
            assert(prev[i] == hunk[i]);
        }
        lemma_hunk_counted_afresh(st, header, prev);
        let l = hunk.last();
        assert(is_change_line(hunk[hunk.len() - 1]));
        lemma_change_line_is_content(l);
    }
}

} // verus!
