//! Line classifiers: one small state machine per comment dialect. Each is
//! given as a transition function over its state (a spec function) and an
//! executable classifier proved to follow it.
use vstd::prelude::*;
use crate::chars_of;
use crate::language::Language;
use crate::text::{
    contains, count_from, find_from, is_blank, starts_with, trim_start, contains_chars,
    count_occurrences, find_chars, is_blank_chars, starts_with_after_whitespace,
};

verus! {

/// The verdict on one line.
#[derive(Debug, PartialEq, Eq, Structural, Clone, Copy)]
pub enum LineType {
    Pure,
    Comment,
    Docstring,
    Blank,
}

pub open spec fn hash_mark() -> Seq<char> {
    seq!['#']
}

pub open spec fn triple_double() -> Seq<char> {
    seq!['"', '"', '"']
}

pub open spec fn triple_single() -> Seq<char> {
    seq!['\'', '\'', '\'']
}

pub open spec fn line_comment_mark() -> Seq<char> {
    seq!['/', '/']
}

pub open spec fn star_mark() -> Seq<char> {
    seq!['*']
}

pub open spec fn block_open() -> Seq<char> {
    seq!['/', '*']
}

pub open spec fn block_close() -> Seq<char> {
    seq!['*', '/']
}

pub open spec fn html_open() -> Seq<char> {
    seq!['<', '!', '-', '-']
}

pub open spec fn html_close() -> Seq<char> {
    seq!['-', '-', '>']
}

pub open spec fn ruby_begin() -> Seq<char> {
    seq!['=', 'b', 'e', 'g', 'i', 'n']
}

pub open spec fn ruby_end() -> Seq<char> {
    seq!['=', 'e', 'n', 'd']
}

/// Plain text: blank or code.
pub open spec fn default_line_type(line: Seq<char>) -> LineType {
    if is_blank(line) {
        LineType::Blank
    } else {
        LineType::Pure
    }
}

/// Shell-style: a `#` after the leading whitespace starts a comment line.
pub open spec fn shell_line_type(line: Seq<char>) -> LineType {
    if is_blank(line) {
        LineType::Blank
    } else if starts_with(trim_start(line), hash_mark()) {
        LineType::Comment
    } else {
        LineType::Pure
    }
}

/// Python: the state is (inside a `"""` docstring, inside a `'''` docstring).
pub open spec fn python_step(st: (bool, bool), line: Seq<char>) -> ((bool, bool), LineType) {
    let t = trim_start(line);
    if is_blank(line) {
        (st, LineType::Blank)
    } else if st.0 {
        ((!contains(line, triple_double()), st.1), LineType::Docstring)
    } else if st.1 {
        ((st.0, !contains(line, triple_single())), LineType::Docstring)
    } else if starts_with(t, hash_mark()) {
        (st, LineType::Comment)
    } else if starts_with(t, triple_double()) {
        ((count_from(line, triple_double(), 0) < 2, st.1), LineType::Docstring)
    } else if starts_with(t, triple_single()) {
        ((st.0, count_from(line, triple_single(), 0) < 2), LineType::Docstring)
    } else {
        (st, LineType::Pure)
    }
}

/// A line met inside an open block comment: the block closes at the first
/// `close`, and the line is code when anything but whitespace follows it.
pub open spec fn close_step(line: Seq<char>, close: Seq<char>) -> (bool, LineType) {
    match find_from(line, close, 0) {
        Some(k) => (
            false,
            if is_blank(line.subrange(k + close.len(), line.len() as int)) {
                LineType::Comment
            } else {
                LineType::Pure
            },
        ),
        None => (true, LineType::Comment),
    }
}

/// A line met outside any block comment. Where `open` first occurs, a `close`
/// that starts at a later index (it may share characters with the opener, as in
/// `/*/`) makes the comment inline, and none leaves a block open; the line is
/// code when anything but whitespace stands outside the comment.
pub open spec fn open_step(line: Seq<char>, open: Seq<char>, close: Seq<char>) -> (bool, LineType) {
    match find_from(line, open, 0) {
        Some(a) => {
            let before_blank = is_blank(line.subrange(0, a));
            match find_from(line, close, a + 1) {
                Some(b) => (
                    false,
                    if before_blank && is_blank(line.subrange(b + close.len(), line.len() as int)) {
                        LineType::Comment
                    } else {
                        LineType::Pure
                    },
                ),
                None => (true, if before_blank { LineType::Comment } else { LineType::Pure }),
            }
        },
        None => (false, LineType::Pure),
    }
}

/// C-style: the state is whether a `/* ... */` block is open.
pub open spec fn cstyle_step(in_block: bool, line: Seq<char>) -> (bool, LineType) {
    let t = trim_start(line);
    if is_blank(line) {
        (in_block, LineType::Blank)
    } else if in_block {
        close_step(line, block_close())
    } else if starts_with(t, line_comment_mark()) || starts_with(t, star_mark()) {
        (false, LineType::Comment)
    } else {
        open_step(line, block_open(), block_close())
    }
}

/// HTML/XML: the state is whether a `<!-- ... -->` comment is open.
pub open spec fn html_step(in_comment: bool, line: Seq<char>) -> (bool, LineType) {
    if is_blank(line) {
        (in_comment, LineType::Blank)
    } else if in_comment {
        close_step(line, html_close())
    } else {
        open_step(line, html_open(), html_close())
    }
}

/// Ruby: the state is whether a `=begin ... =end` block is open; every line of
/// the block, both markers included, is a comment.
pub open spec fn ruby_step(in_block: bool, line: Seq<char>) -> (bool, LineType) {
    let t = trim_start(line);
    if is_blank(line) {
        (in_block, LineType::Blank)
    } else if in_block {
        (!starts_with(t, ruby_end()), LineType::Comment)
    } else if starts_with(t, hash_mark()) {
        (false, LineType::Comment)
    } else if starts_with(t, ruby_begin()) {
        (true, LineType::Comment)
    } else {
        (false, LineType::Pure)
    }
}

fn default_transition(line: &[char]) -> (r: LineType)
    ensures
        r == default_line_type(line@),
{
    if is_blank_chars(line) {
        LineType::Blank
    } else {
        LineType::Pure
    }
}

fn shell_transition(line: &[char]) -> (r: LineType)
    ensures
        r == shell_line_type(line@),
{
    let hash: [char; 1] = ['#'];
    assert(hash@ =~= hash_mark());
    if is_blank_chars(line) {
        LineType::Blank
    } else if starts_with_after_whitespace(line, &hash) {
        LineType::Comment
    } else {
        LineType::Pure
    }
}

fn python_transition(st: (bool, bool), line: &[char]) -> (r: ((bool, bool), LineType))
    ensures
        r == python_step(st, line@),
{
    let hash: [char; 1] = ['#'];
    let dq: [char; 3] = ['"', '"', '"'];
    let sq: [char; 3] = ['\'', '\'', '\''];
    assert(hash@ =~= hash_mark());
    assert(dq@ =~= triple_double());
    assert(sq@ =~= triple_single());
    if is_blank_chars(line) {
        (st, LineType::Blank)
    } else if st.0 {
        ((!contains_chars(line, &dq), st.1), LineType::Docstring)
    } else if st.1 {
        ((st.0, !contains_chars(line, &sq)), LineType::Docstring)
    } else if starts_with_after_whitespace(line, &hash) {
        (st, LineType::Comment)
    } else if starts_with_after_whitespace(line, &dq) {
        ((count_occurrences(line, &dq) < 2, st.1), LineType::Docstring)
    } else if starts_with_after_whitespace(line, &sq) {
        ((st.0, count_occurrences(line, &sq) < 2), LineType::Docstring)
    } else {
        (st, LineType::Pure)
    }
}

fn close_transition(line: &[char], close: &[char]) -> (r: (bool, LineType))
    requires
        close@.len() > 0,
    ensures
        r == close_step(line@, close@),
{
    let n = line.len();
    match find_chars(line, close, 0) {
        Some(k) => {
            proof {
                crate::text::lemma_find_from(line@, close@, 0);
            }
            let rest = &line[k + close.len()..n];
            assert(rest@ =~= line@.subrange(k + close@.len(), line@.len() as int));
            if is_blank_chars(rest) {
                (false, LineType::Comment)
            } else {
                (false, LineType::Pure)
            }
        },
        None => (true, LineType::Comment),
    }
}

fn open_transition(line: &[char], open: &[char], close: &[char]) -> (r: (bool, LineType))
    requires
        open@.len() > 0,
        close@.len() > 0,
    ensures
        r == open_step(line@, open@, close@),
{
    let n = line.len();
    match find_chars(line, open, 0) {
        Some(a) => {
            proof {
                crate::text::lemma_find_from(line@, open@, 0);
            }
            let before = &line[0..a];
            assert(before@ =~= line@.subrange(0, a as int));
            let before_blank = is_blank_chars(before);
            match find_chars(line, close, a + 1) {
                Some(b) => {
                    proof {
                        crate::text::lemma_find_from(line@, close@, a + 1);
                    }
                    let after = &line[b + close.len()..n];
                    assert(after@ =~= line@.subrange(b + close@.len(), line@.len() as int));
                    if before_blank && is_blank_chars(after) {
                        (false, LineType::Comment)
                    } else {
                        (false, LineType::Pure)
                    }
                },
                None => (true, if before_blank { LineType::Comment } else { LineType::Pure }),
            }
        },
        None => (false, LineType::Pure),
    }
}

fn cstyle_transition(in_block: bool, line: &[char]) -> (r: (bool, LineType))
    ensures
        r == cstyle_step(in_block, line@),
{
    let slashes: [char; 2] = ['/', '/'];
    let star: [char; 1] = ['*'];
    let open: [char; 2] = ['/', '*'];
    let close: [char; 2] = ['*', '/'];
    assert(slashes@ =~= line_comment_mark());
    assert(star@ =~= star_mark());
    assert(open@ =~= block_open());
    assert(close@ =~= block_close());
    if is_blank_chars(line) {
        (in_block, LineType::Blank)
    } else if in_block {
        close_transition(line, &close)
    } else if starts_with_after_whitespace(line, &slashes) || starts_with_after_whitespace(
        line,
        &star,
    ) {
        (false, LineType::Comment)
    } else {
        open_transition(line, &open, &close)
    }
}

fn html_transition(in_comment: bool, line: &[char]) -> (r: (bool, LineType))
    ensures
        r == html_step(in_comment, line@),
{
    let open: [char; 4] = ['<', '!', '-', '-'];
    let close: [char; 3] = ['-', '-', '>'];
    assert(open@ =~= html_open());
    assert(close@ =~= html_close());
    if is_blank_chars(line) {
        (in_comment, LineType::Blank)
    } else if in_comment {
        close_transition(line, &close)
    } else {
        open_transition(line, &open, &close)
    }
}

fn ruby_transition(in_block: bool, line: &[char]) -> (r: (bool, LineType))
    ensures
        r == ruby_step(in_block, line@),
{
    let hash: [char; 1] = ['#'];
    let begin: [char; 6] = ['=', 'b', 'e', 'g', 'i', 'n'];
    let end: [char; 4] = ['=', 'e', 'n', 'd'];
    assert(hash@ =~= hash_mark());
    assert(begin@ =~= ruby_begin());
    assert(end@ =~= ruby_end());
    if is_blank_chars(line) {
        (in_block, LineType::Blank)
    } else if in_block {
        (!starts_with_after_whitespace(line, &end), LineType::Comment)
    } else if starts_with_after_whitespace(line, &hash) {
        (false, LineType::Comment)
    } else if starts_with_after_whitespace(line, &begin) {
        (true, LineType::Comment)
    } else {
        (false, LineType::Pure)
    }
}


/// A classifier: one line in, one verdict out, with the state it keeps from
/// one line to the next given by its view.
pub trait Classifier: View + Sized {
    /// The state and verdict after one line.
    spec fn step(state: Self::V, line: Seq<char>) -> (Self::V, LineType);

    fn classify(&mut self, line: &str) -> (r: LineType)
        ensures
            (final(self)@, r) == Self::step(old(self)@, line@),
    ;
}

/// For text of no known language: blank or code.
pub struct DefaultClassifier;

impl View for DefaultClassifier {
    type V = ();

    open spec fn view(&self) -> () {
        ()
    }
}

impl Classifier for DefaultClassifier {
    open spec fn step(state: (), line: Seq<char>) -> ((), LineType) {
        ((), default_line_type(line))
    }

    fn classify(&mut self, line: &str) -> (r: LineType) {
        let cs = chars_of(line);
        default_transition(cs.as_slice())
    }
}


/// For Python: tracks an open `"""` or `'''` docstring.
pub struct PythonClassifier {
    in_triple_double: bool,
    in_triple_single: bool,
}

impl View for PythonClassifier {
    type V = (bool, bool);

    closed spec fn view(&self) -> (bool, bool) {
        (self.in_triple_double, self.in_triple_single)
    }
}

impl PythonClassifier {
    pub fn new() -> (r: Self)
        ensures
            r@ == (false, false),
    {
        Self { in_triple_double: false, in_triple_single: false }
    }
}

impl Default for PythonClassifier {
    fn default() -> (r: Self)
        ensures
            r@ == (false, false),
    {
        Self::new()
    }
}

impl Classifier for PythonClassifier {
    open spec fn step(state: (bool, bool), line: Seq<char>) -> ((bool, bool), LineType) {
        python_step(state, line)
    }

    fn classify(&mut self, line: &str) -> (r: LineType) {
        let cs = chars_of(line);
        let (st, r) = python_transition(
            (self.in_triple_double, self.in_triple_single),
            cs.as_slice(),
        );
        self.in_triple_double = st.0;
        self.in_triple_single = st.1;
        r
    }
}

/// For C-like languages: tracks an open `/* ... */` block.
pub struct CStyleClassifier {
    in_block: bool,
}

impl View for CStyleClassifier {
    type V = bool;

    closed spec fn view(&self) -> bool {
        self.in_block
    }
}

impl CStyleClassifier {
    pub fn new() -> (r: Self)
        ensures
            r@ == false,
    {
        Self { in_block: false }
    }
}

impl Default for CStyleClassifier {
    fn default() -> (r: Self)
        ensures
            r@ == false,
    {
        Self::new()
    }
}

impl Classifier for CStyleClassifier {
    open spec fn step(state: bool, line: Seq<char>) -> (bool, LineType) {
        cstyle_step(state, line)
    }

    fn classify(&mut self, line: &str) -> (r: LineType) {
        let cs = chars_of(line);
        let (st, r) = cstyle_transition(self.in_block, cs.as_slice());
        self.in_block = st;
        r
    }
}

/// For shell-like languages: `#` comments, no blocks.
pub struct ShellClassifier;

impl View for ShellClassifier {
    type V = ();

    open spec fn view(&self) -> () {
        ()
    }
}

impl Classifier for ShellClassifier {
    open spec fn step(state: (), line: Seq<char>) -> ((), LineType) {
        ((), shell_line_type(line))
    }

    fn classify(&mut self, line: &str) -> (r: LineType) {
        let cs = chars_of(line);
        shell_transition(cs.as_slice())
    }
}

/// For Ruby: `#` comments and `=begin ... =end` blocks.
pub struct RubyClassifier {
    in_block: bool,
}

impl View for RubyClassifier {
    type V = bool;

    closed spec fn view(&self) -> bool {
        self.in_block
    }
}

impl RubyClassifier {
    pub fn new() -> (r: Self)
        ensures
            r@ == false,
    {
        Self { in_block: false }
    }
}

impl Default for RubyClassifier {
    fn default() -> (r: Self)
        ensures
            r@ == false,
    {
        Self::new()
    }
}

impl Classifier for RubyClassifier {
    open spec fn step(state: bool, line: Seq<char>) -> (bool, LineType) {
        ruby_step(state, line)
    }

    fn classify(&mut self, line: &str) -> (r: LineType) {
        let cs = chars_of(line);
        let (st, r) = ruby_transition(self.in_block, cs.as_slice());
        self.in_block = st;
        r
    }
}

/// For HTML, XML and Vue: tracks an open `<!-- ... -->` comment.
pub struct HtmlClassifier {
    in_comment: bool,
}

impl View for HtmlClassifier {
    type V = bool;

    closed spec fn view(&self) -> bool {
        self.in_comment
    }
}

impl HtmlClassifier {
    pub fn new() -> (r: Self)
        ensures
            r@ == false,
    {
        Self { in_comment: false }
    }
}

impl Default for HtmlClassifier {
    fn default() -> (r: Self)
        ensures
            r@ == false,
    {
        Self::new()
    }
}

impl Classifier for HtmlClassifier {
    open spec fn step(state: bool, line: Seq<char>) -> (bool, LineType) {
        html_step(state, line)
    }

    fn classify(&mut self, line: &str) -> (r: LineType) {
        let cs = chars_of(line);
        let (st, r) = html_transition(self.in_comment, cs.as_slice());
        self.in_comment = st;
        r
    }
}

/// Any of the classifiers, as a tagged union of the dialects and the state
/// each one keeps.
#[derive(Debug, Clone, Copy, PartialEq, Eq, Structural)]
pub enum LineClassifier {
    Plain,
    Shell,
    Python { in_triple_double: bool, in_triple_single: bool },
    CStyle { in_block: bool },
    Ruby { in_block: bool },
    Html { in_comment: bool },
}

impl LineClassifier {
    /// The state and verdict after one line.
    pub open spec fn next(self, line: Seq<char>) -> (LineClassifier, LineType) {
        match self {
            LineClassifier::Plain => (self, default_line_type(line)),
            LineClassifier::Shell => (self, shell_line_type(line)),
            LineClassifier::Python { in_triple_double, in_triple_single } => {
                let (st, r) = python_step((in_triple_double, in_triple_single), line);
                (LineClassifier::Python { in_triple_double: st.0, in_triple_single: st.1 }, r)
            },
            LineClassifier::CStyle { in_block } => {
                let (st, r) = cstyle_step(in_block, line);
                (LineClassifier::CStyle { in_block: st }, r)
            },
            LineClassifier::Ruby { in_block } => {
                let (st, r) = ruby_step(in_block, line);
                (LineClassifier::Ruby { in_block: st }, r)
            },
            LineClassifier::Html { in_comment } => {
                let (st, r) = html_step(in_comment, line);
                (LineClassifier::Html { in_comment: st }, r)
            },
        }
    }

    /// Classifies a line already split into characters.
    pub fn classify_chars(&mut self, line: &[char]) -> (r: LineType)
        ensures
            (*final(self), r) == old(self).next(line@),
    {
        match *self {
            LineClassifier::Plain => default_transition(line),
            LineClassifier::Shell => shell_transition(line),
            LineClassifier::Python { in_triple_double, in_triple_single } => {
                let (st, r) = python_transition((in_triple_double, in_triple_single), line);
                *self = LineClassifier::Python { in_triple_double: st.0, in_triple_single: st.1 };
                r
            },
            LineClassifier::CStyle { in_block } => {
                let (st, r) = cstyle_transition(in_block, line);
                *self = LineClassifier::CStyle { in_block: st };
                r
            },
            LineClassifier::Ruby { in_block } => {
                let (st, r) = ruby_transition(in_block, line);
                *self = LineClassifier::Ruby { in_block: st };
                r
            },
            LineClassifier::Html { in_comment } => {
                let (st, r) = html_transition(in_comment, line);
                *self = LineClassifier::Html { in_comment: st };
                r
            },
        }
    }
}

impl View for LineClassifier {
    type V = LineClassifier;

    open spec fn view(&self) -> LineClassifier {
        *self
    }
}

impl Classifier for LineClassifier {
    open spec fn step(state: LineClassifier, line: Seq<char>) -> (LineClassifier, LineType) {
        state.next(line)
    }

    fn classify(&mut self, line: &str) -> (r: LineType) {
        let cs = chars_of(line);
        self.classify_chars(cs.as_slice())
    }
}

/// The fresh classifier for a language: no comment or docstring open.
pub open spec fn initial_classifier(lang: Language) -> LineClassifier {
    match lang {
        Language::Python => LineClassifier::Python {
            in_triple_double: false,
            in_triple_single: false,
        },
        Language::TypeScript | Language::JavaScript | Language::C | Language::Cpp
        | Language::Csharp | Language::Java | Language::Go | Language::Php | Language::Swift
        | Language::Kotlin | Language::Scala | Language::Css => LineClassifier::CStyle {
            in_block: false,
        },
        Language::Shell | Language::PowerShell => LineClassifier::Shell,
        Language::Ruby => LineClassifier::Ruby { in_block: false },
        Language::Html | Language::Vue => LineClassifier::Html { in_comment: false },
        Language::Other => LineClassifier::Plain,
    }
}

/// The fresh classifier for a language.
pub fn get_classifier(lang: Language) -> (r: LineClassifier)
    ensures
        r == initial_classifier(lang),
{
    match lang {
        Language::Python => LineClassifier::Python {
            in_triple_double: false,
            in_triple_single: false,
        },
        Language::TypeScript | Language::JavaScript | Language::C | Language::Cpp
        | Language::Csharp | Language::Java | Language::Go | Language::Php | Language::Swift
        | Language::Kotlin | Language::Scala | Language::Css => LineClassifier::CStyle {
            in_block: false,
        },
        Language::Shell | Language::PowerShell => LineClassifier::Shell,
        Language::Ruby => LineClassifier::Ruby { in_block: false },
        Language::Html | Language::Vue => LineClassifier::Html { in_comment: false },
        Language::Other => LineClassifier::Plain,
    }
}

} // verus!
