//! Measures how much of a change is code ("pure" lines) and how much is noise
//! (comments, docstrings, blank lines), for a unified diff or for whole files.
use vstd::prelude::*;

pub mod classifier;
pub mod config;
pub mod files;
pub mod language;
pub mod parser;
pub mod report;
pub mod select;
pub mod stats;
pub mod text;

verus! {

/// The characters of a string, one by one.
pub fn chars_of(s: &str) -> (r: Vec<char>)
    ensures
        r@ == s@,
{
    let mut r: Vec<char> = Vec::new();
    for c in it: s.chars()
        invariant
            r@ == it.seq().take(it.index() as int),
            it.seq() == s@,
    {
        r.push(c);
    }
    r
}

/// The name of the language of a file path, by its extension.
pub fn detect_language(path: &str) -> (r: String)
    ensures
        r@ == language::language_name(language::language_of_path(path@)),
{
    language::Language::from_path(path).to_string()
}

} // verus!
