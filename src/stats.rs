//! Per-file counters of added and removed lines by verdict.
use vstd::prelude::*;
use crate::classifier::LineType;

verus! {

/// The counters of one scope (a file, a language, a whole run).
#[derive(Debug, Clone, Copy, PartialEq, Eq, Structural)]
pub struct LangStats {
    pub total_added: i64,
    pub total_removed: i64,
    pub pure_added: i64,
    pub pure_removed: i64,
    pub comment_lines_added: i64,
    pub comment_lines_removed: i64,
    pub docstring_lines_added: i64,
    pub docstring_lines_removed: i64,
    pub blank_lines_added: i64,
    pub blank_lines_removed: i64,
    pub code_words_added: i64,
    pub code_words_removed: i64,
}

/// The counters of a `LangStats` as mathematical integers.
pub struct Tally {
    pub total_added: int,
    pub total_removed: int,
    pub pure_added: int,
    pub pure_removed: int,
    pub comment_lines_added: int,
    pub comment_lines_removed: int,
    pub docstring_lines_added: int,
    pub docstring_lines_removed: int,
    pub blank_lines_added: int,
    pub blank_lines_removed: int,
    pub code_words_added: int,
    pub code_words_removed: int,
}

impl View for LangStats {
    type V = Tally;

    open spec fn view(&self) -> Tally {
        Tally {
            total_added: self.total_added as int,
            total_removed: self.total_removed as int,
            pure_added: self.pure_added as int,
            pure_removed: self.pure_removed as int,
            comment_lines_added: self.comment_lines_added as int,
            comment_lines_removed: self.comment_lines_removed as int,
            docstring_lines_added: self.docstring_lines_added as int,
            docstring_lines_removed: self.docstring_lines_removed as int,
            blank_lines_added: self.blank_lines_added as int,
            blank_lines_removed: self.blank_lines_removed as int,
            code_words_added: self.code_words_added as int,
            code_words_removed: self.code_words_removed as int,
        }
    }
}

impl Tally {
    pub open spec fn zero() -> Tally {
        Tally {
            total_added: 0,
            total_removed: 0,
            pure_added: 0,
            pure_removed: 0,
            comment_lines_added: 0,
            comment_lines_removed: 0,
            docstring_lines_added: 0,
            docstring_lines_removed: 0,
            blank_lines_added: 0,
            blank_lines_removed: 0,
            code_words_added: 0,
            code_words_removed: 0,
        }
    }

    /// Every line counted in a total is counted under exactly one verdict.
    pub open spec fn balanced(self) -> bool {
        &&& self.total_added == self.pure_added + self.comment_lines_added
            + self.docstring_lines_added + self.blank_lines_added
        &&& self.total_removed == self.pure_removed + self.comment_lines_removed
            + self.docstring_lines_removed + self.blank_lines_removed
    }

    /// At least one line was added or removed.
    pub open spec fn has_changes(self) -> bool {
        self.total_added > 0 || self.total_removed > 0
    }

    /// Every counter lies in `0..=n`.
    pub open spec fn within(self, n: int) -> bool {
        &&& 0 <= self.total_added <= n
        &&& 0 <= self.total_removed <= n
        &&& 0 <= self.pure_added <= n
        &&& 0 <= self.pure_removed <= n
        &&& 0 <= self.comment_lines_added <= n
        &&& 0 <= self.comment_lines_removed <= n
        &&& 0 <= self.docstring_lines_added <= n
        &&& 0 <= self.docstring_lines_removed <= n
        &&& 0 <= self.blank_lines_added <= n
        &&& 0 <= self.blank_lines_removed <= n
        &&& 0 <= self.code_words_added <= n
        &&& 0 <= self.code_words_removed <= n
    }

    /// The counters of two scopes taken together.
    pub open spec fn plus(self, o: Tally) -> Tally {
        Tally {
            total_added: self.total_added + o.total_added,
            total_removed: self.total_removed + o.total_removed,
            pure_added: self.pure_added + o.pure_added,
            pure_removed: self.pure_removed + o.pure_removed,
            comment_lines_added: self.comment_lines_added + o.comment_lines_added,
            comment_lines_removed: self.comment_lines_removed + o.comment_lines_removed,
            docstring_lines_added: self.docstring_lines_added + o.docstring_lines_added,
            docstring_lines_removed: self.docstring_lines_removed + o.docstring_lines_removed,
            blank_lines_added: self.blank_lines_added + o.blank_lines_added,
            blank_lines_removed: self.blank_lines_removed + o.blank_lines_removed,
            code_words_added: self.code_words_added + o.code_words_added,
            code_words_removed: self.code_words_removed + o.code_words_removed,
        }
    }

    /// Every counter of the two scopes taken together fits in an `i64`.
    pub open spec fn sum_fits(self, o: Tally) -> bool {
        &&& i64::MIN <= self.total_added + o.total_added <= i64::MAX
        &&& i64::MIN <= self.total_removed + o.total_removed <= i64::MAX
        &&& i64::MIN <= self.pure_added + o.pure_added <= i64::MAX
        &&& i64::MIN <= self.pure_removed + o.pure_removed <= i64::MAX
        &&& i64::MIN <= self.comment_lines_added + o.comment_lines_added <= i64::MAX
        &&& i64::MIN <= self.comment_lines_removed + o.comment_lines_removed <= i64::MAX
        &&& i64::MIN <= self.docstring_lines_added + o.docstring_lines_added <= i64::MAX
        &&& i64::MIN <= self.docstring_lines_removed + o.docstring_lines_removed <= i64::MAX
        &&& i64::MIN <= self.blank_lines_added + o.blank_lines_added <= i64::MAX
        &&& i64::MIN <= self.blank_lines_removed + o.blank_lines_removed <= i64::MAX
        &&& i64::MIN <= self.code_words_added + o.code_words_added <= i64::MAX
        &&& i64::MIN <= self.code_words_removed + o.code_words_removed <= i64::MAX
    }

    /// One more line, added or removed, with its verdict; a code line also
    /// brings its words.
    pub open spec fn count_line(self, added: bool, t: LineType, words: nat) -> Tally {
        if added {
            Tally {
                total_added: self.total_added + 1,
                pure_added: self.pure_added + if t == LineType::Pure { 1int } else { 0 },
                comment_lines_added: self.comment_lines_added + if t == LineType::Comment {
                    1int
                } else {
                    0
                },
                docstring_lines_added: self.docstring_lines_added + if t == LineType::Docstring {
                    1int
                } else {
                    0
                },
                blank_lines_added: self.blank_lines_added + if t == LineType::Blank {
                    1int
                } else {
                    0
                },
                code_words_added: self.code_words_added + if t == LineType::Pure {
                    words as int
                } else {
                    0
                },
                ..self
            }
        } else {
            Tally {
                total_removed: self.total_removed + 1,
                pure_removed: self.pure_removed + if t == LineType::Pure { 1int } else { 0 },
                comment_lines_removed: self.comment_lines_removed + if t == LineType::Comment {
                    1int
                } else {
                    0
                },
                docstring_lines_removed: self.docstring_lines_removed + if t
                    == LineType::Docstring {
                    1int
                } else {
                    0
                },
                blank_lines_removed: self.blank_lines_removed + if t == LineType::Blank {
                    1int
                } else {
                    0
                },
                code_words_removed: self.code_words_removed + if t == LineType::Pure {
                    words as int
                } else {
                    0
                },
                ..self
            }
        }
    }
}

/// Counting a line keeps the counters balanced.
pub proof fn lemma_count_line_balanced(s: Tally, added: bool, t: LineType, words: nat)
    requires
        s.balanced(),
    ensures
        s.count_line(added, t, words).balanced(),
{
}

/// Scopes taken together stay balanced: a language's or a whole run's
/// counters, summed from balanced files, are balanced.
pub proof fn lemma_plus_balanced(a: Tally, b: Tally)
    requires
        a.balanced(),
        b.balanced(),
    ensures
        a.plus(b).balanced(),
{
}

impl Default for LangStats {
    fn default() -> (r: Self)
        ensures
            r@ == Tally::zero(),
    {
        LangStats::new()
    }
}

impl LangStats {
    /// All counters at zero.
    pub fn new() -> (r: Self)
        ensures
            r@ == Tally::zero(),
    {
        LangStats {
            total_added: 0,
            total_removed: 0,
            pure_added: 0,
            pure_removed: 0,
            comment_lines_added: 0,
            comment_lines_removed: 0,
            docstring_lines_added: 0,
            docstring_lines_removed: 0,
            blank_lines_added: 0,
            blank_lines_removed: 0,
            code_words_added: 0,
            code_words_removed: 0,
        }
    }

    /// Counts one added (or removed) line with its verdict and, for a code
    /// line, its words.
    pub fn count_line(&mut self, added: bool, t: LineType, words: usize)
        requires
            old(self)@.within(i64::MAX - 1 - words),
        ensures
            final(self)@ == old(self)@.count_line(added, t, words as nat),
    {
        if added {
            self.total_added = self.total_added + 1;
            match t {
                LineType::Pure => {
                    self.pure_added = self.pure_added + 1;
                    self.code_words_added = self.code_words_added + words as i64;
                },
                LineType::Comment => self.comment_lines_added = self.comment_lines_added + 1,
                LineType::Docstring => self.docstring_lines_added = self.docstring_lines_added
                    + 1,
                LineType::Blank => self.blank_lines_added = self.blank_lines_added + 1,
            }
        } else {
            self.total_removed = self.total_removed + 1;
            match t {
                LineType::Pure => {
                    self.pure_removed = self.pure_removed + 1;
                    self.code_words_removed = self.code_words_removed + words as i64;
                },
                LineType::Comment => self.comment_lines_removed = self.comment_lines_removed
                    + 1,
                LineType::Docstring => self.docstring_lines_removed = self.docstring_lines_removed
                    + 1,
                LineType::Blank => self.blank_lines_removed = self.blank_lines_removed + 1,
            }
        }
    }

    /// The counters of this scope and `other` taken together; none where a
    /// sum does not fit in an `i64`.
    pub fn checked_merge(&self, other: &LangStats) -> (r: Option<LangStats>)
        ensures
            match r {
                Some(m) => self@.sum_fits(other@) && m@ == self@.plus(other@),
                None => !self@.sum_fits(other@),
            },
    {
        let total_added = self.total_added.checked_add(other.total_added)?;
        let total_removed = self.total_removed.checked_add(other.total_removed)?;
        let pure_added = self.pure_added.checked_add(other.pure_added)?;
        let pure_removed = self.pure_removed.checked_add(other.pure_removed)?;
        let comment_lines_added = self.comment_lines_added.checked_add(other.comment_lines_added)?;
        let comment_lines_removed = self.comment_lines_removed.checked_add(other.comment_lines_removed)?;
        let docstring_lines_added = self.docstring_lines_added.checked_add(other.docstring_lines_added)?;
        let docstring_lines_removed = self.docstring_lines_removed.checked_add(other.docstring_lines_removed)?;
        let blank_lines_added = self.blank_lines_added.checked_add(other.blank_lines_added)?;
        let blank_lines_removed = self.blank_lines_removed.checked_add(other.blank_lines_removed)?;
        let code_words_added = self.code_words_added.checked_add(other.code_words_added)?;
        let code_words_removed = self.code_words_removed.checked_add(other.code_words_removed)?;
        Some(LangStats {
            total_added,
            total_removed,
            pure_added,
            pure_removed,
            comment_lines_added,
            comment_lines_removed,
            docstring_lines_added,
            docstring_lines_removed,
            blank_lines_added,
            blank_lines_removed,
            code_words_added,
            code_words_removed,
        })
    }

    /// Pure lines added less pure lines removed.
    pub fn net_pure(&self) -> (r: i64)
        requires
            i64::MIN <= self.pure_added - self.pure_removed <= i64::MAX,
        ensures
            r == self.pure_added - self.pure_removed,
    {
        self.pure_added - self.pure_removed
    }

    /// Comment, docstring and blank lines added (summed in that order).
    pub fn noise_added(&self) -> (r: i64)
        requires
            i64::MIN <= self.comment_lines_added + self.docstring_lines_added <= i64::MAX,
            i64::MIN <= self.comment_lines_added + self.docstring_lines_added
                + self.blank_lines_added <= i64::MAX,
        ensures
            r == self.comment_lines_added + self.docstring_lines_added + self.blank_lines_added,
    {
        self.comment_lines_added + self.docstring_lines_added + self.blank_lines_added
    }

    /// Comment, docstring and blank lines removed (summed in that order).
    pub fn noise_removed(&self) -> (r: i64)
        requires
            i64::MIN <= self.comment_lines_removed + self.docstring_lines_removed <= i64::MAX,
            i64::MIN <= self.comment_lines_removed + self.docstring_lines_removed
                + self.blank_lines_removed <= i64::MAX,
        ensures
            r == self.comment_lines_removed + self.docstring_lines_removed
                + self.blank_lines_removed,
    {
        self.comment_lines_removed + self.docstring_lines_removed + self.blank_lines_removed
    }
}

/// A rough count of language-model tokens for a number of words: 1.3 tokens a
/// word, rounded to the nearest whole number (halves up); none for a count
/// that is not positive.
pub open spec fn tokens_for_words(word_count: int) -> int {
    if word_count <= 0 {
        0
    } else {
        (13 * word_count + 5) / 10
    }
}

pub fn estimate_tokens(word_count: i64) -> (r: u64)
    ensures
        r == tokens_for_words(word_count as int),
{
    if word_count <= 0 {
        0
    } else {
        let w = word_count as u128;
        let t = (w * 13 + 5) / 10;
        assert(t <= u64::MAX) by (nonlinear_arith)
            requires
                t == (w * 13 + 5) / 10,
                w <= i64::MAX,
        ;
        t as u64
    }
}

/// The counters of one file, under its path and the name of its language.
#[derive(Debug, Clone)]
pub struct FileStats {
    pub path: String,
    pub language: String,
    pub lang_stats: LangStats,
}

/// The model of a `FileStats`.
pub struct FileRecord {
    pub path: Seq<char>,
    pub language: Seq<char>,
    pub tally: Tally,
}

impl View for FileStats {
    type V = FileRecord;

    open spec fn view(&self) -> FileRecord {
        FileRecord { path: self.path@, language: self.language@, tally: self.lang_stats@ }
    }
}

} // verus!
