//! Which files a snapshot scans: a path is taken when some pattern to keep
//! matches it and no pattern to skip does. Patterns that do not compile are
//! left out, as if they had not been given.
use vstd::prelude::*;
use crate::chars_of;
use crate::text::{has_prefix_str, strip_prefix};
use vstd::string::StrSliceExecFns;

verus! {

#[verifier::external_type_specification]
#[verifier::external_body]
pub struct ExPattern(glob::Pattern);

/// Whether `glob::Pattern::new` accepts a pattern.
pub uninterp spec fn glob_compiles(pattern: Seq<char>) -> bool;

/// Whether a compiled pattern matches a path under `glob`'s default options.
pub uninterp spec fn glob_matches(pattern: Seq<char>, path: Seq<char>) -> bool;

/// A compiled glob pattern, with the text it was compiled from.
pub struct GlobPattern {
    text: String,
    compiled: glob::Pattern,
}

impl View for GlobPattern {
    type V = Seq<char>;

    closed spec fn view(&self) -> Seq<char> {
        self.text@
    }
}

/// Relies on `glob::Pattern::new`: whether a pattern compiles depends on its
/// text alone.
#[verifier::external_body]
fn compile_glob(text: &str) -> (r: Option<GlobPattern>)
    ensures
        match r {
            Some(g) => g@ == text@ && glob_compiles(text@),
            None => !glob_compiles(text@),
        },
{
    match glob::Pattern::new(text) {
        Ok(compiled) => Some(GlobPattern { text: text.to_string(), compiled }),
        Err(_) => None,
    }
}

/// Relies on `glob::Pattern::matches`: the answer depends on the pattern's
/// text and the path alone.
#[verifier::external_body]
fn glob_match(g: &GlobPattern, path: &str) -> (r: bool)
    ensures
        r == glob_matches(g@, path@),
{
    g.compiled.matches(path)
}

/// The patterns that compile, in the order given.
pub open spec fn compiled_patterns(texts: Seq<Seq<char>>) -> Seq<Seq<char>>
    decreases texts.len(),
{
    if texts.len() == 0 {
        Seq::empty()
    } else {
        let r = compiled_patterns(texts.drop_last());
        if glob_compiles(texts.last()) {
            r.push(texts.last())
        } else {
            r
        }
    }
}

/// Some pattern matches the path.
pub open spec fn any_matches(patterns: Seq<Seq<char>>, path: Seq<char>) -> bool {
    exists|i: int| 0 <= i < patterns.len() && glob_matches(#[trigger] patterns[i], path)
}

/// A path is selected when, less a leading `./`, some pattern to keep matches
/// it and no pattern to skip does.
pub open spec fn is_selected(
    keep: Seq<Seq<char>>,
    skip: Seq<Seq<char>>,
    path: Seq<char>,
) -> bool {
    let p = strip_prefix(path, "./"@);
    !any_matches(skip, p) && any_matches(keep, p)
}

pub open spec fn text_views(texts: Seq<String>) -> Seq<Seq<char>> {
    texts.map_values(|t: String| t@)
}

/// The compiled patterns of the files a snapshot keeps and skips.
pub struct PathFilter {
    keep: Vec<GlobPattern>,
    skip: Vec<GlobPattern>,
}

fn compile_all(texts: &Vec<String>) -> (r: Vec<GlobPattern>)
    ensures
        r@.map_values(|g: GlobPattern| g@) == compiled_patterns(text_views(texts@)),
{
    let ghost views = text_views(texts@);
    let mut r: Vec<GlobPattern> = Vec::new();
    let mut i: usize = 0;
    assert(views.take(0) =~= Seq::<Seq<char>>::empty());
    assert(r@.map_values(|g: GlobPattern| g@) =~= Seq::<Seq<char>>::empty());
    while i < texts.len()
        invariant
            i <= texts@.len(),
            views == text_views(texts@),
            r@.map_values(|g: GlobPattern| g@) == compiled_patterns(views.take(i as int)),
        decreases texts@.len() - i,
    {
        assert(views.take(i + 1).drop_last() =~= views.take(i as int));
        match compile_glob(texts[i].as_str()) {
            Some(g) => {
                let ghost before = r@;
                r.push(g);
                assert(r@.map_values(|g: GlobPattern| g@) =~= before.map_values(
                    |g: GlobPattern| g@,
                ).push(views[i as int]));
            },
            None => {},
        }
        i = i + 1;
    }
    assert(views.take(i as int) =~= views);
    r
}

fn any_match(patterns: &Vec<GlobPattern>, path: &str) -> (r: bool)
    ensures
        r == any_matches(patterns@.map_values(|g: GlobPattern| g@), path@),
{
    let ghost ps = patterns@.map_values(|g: GlobPattern| g@);
    let mut i: usize = 0;
    while i < patterns.len()
        invariant
            i <= patterns@.len(),
            ps == patterns@.map_values(|g: GlobPattern| g@),
            forall|k: int| 0 <= k < i ==> !glob_matches(#[trigger] ps[k], path@),
        decreases patterns@.len() - i,
    {
        if glob_match(&patterns[i], path) {
            assert(glob_matches(ps[i as int], path@));
            return true;
        }
        i = i + 1;
    }
    false
}

impl PathFilter {
    /// The compiled patterns of the files to keep.
    pub closed spec fn keeps(&self) -> Seq<Seq<char>> {
        self.keep@.map_values(|g: GlobPattern| g@)
    }

    /// The compiled patterns of the files to skip.
    pub closed spec fn skips(&self) -> Seq<Seq<char>> {
        self.skip@.map_values(|g: GlobPattern| g@)
    }

    /// Compiles the patterns; those that do not compile are dropped.
    pub fn new(keep: &Vec<String>, skip: &Vec<String>) -> (r: PathFilter)
        ensures
            r.keeps() == compiled_patterns(text_views(keep@)),
            r.skips() == compiled_patterns(text_views(skip@)),
    {
        PathFilter { keep: compile_all(keep), skip: compile_all(skip) }
    }

    /// Whether a snapshot scans the file at `path`.
    pub fn selects(&self, path: &str) -> (r: bool)
        ensures
            r == is_selected(self.keeps(), self.skips(), path@),
    {
        let cs = chars_of(path);
        proof {
            reveal_strlit("./");
        }
        let p = if has_prefix_str(cs.as_slice(), "./") {
            path.substring_char(2, cs.len())
        } else {
            path
        };
        !any_match(&self.skip, p) && any_match(&self.keep, p)
    }
}

} // verus!
