//! Path arithmetic, left to the standard library's path parser.
//!
//! Paths are carried as text. Where a path's last component begins is a
//! matter of separators and prefixes, which `std::path` knows for the
//! platform the crate is built for. The two questions the browser asks of a
//! path are therefore answered by `std::path`; each answer depends on the
//! text alone, and the rest of the crate reasons about it by name.

use vstd::prelude::*;

verus! {

/// The parent that `std::path::Path::parent` gives for the path with this
/// text, or `None` where the path ends in a root or prefix or is empty.
pub uninterp spec fn parent_text(path: Seq<char>) -> Option<Seq<char>>;

/// The text of the path that `std::path::Path::join` gives for `base`
/// extended by `name`.
pub uninterp spec fn joined_text(base: Seq<char>, name: Seq<char>) -> Seq<char>;

/// The text inside an optional string.
pub open spec fn text_of(s: Option<String>) -> Option<Seq<char>> {
    match s {
        Some(t) => Some(t@),
        None => None,
    }
}

/// The directory in which a sibling of `path` lives: its parent, or the path
/// itself where it has none.
pub open spec fn sibling_base(path: Seq<char>) -> Seq<char> {
    match parent_text(path) {
        Some(parent) => parent,
        None => path,
    }
}

/// The path of the entry called `name` beside `path`.
pub open spec fn sibling_text(path: Seq<char>, name: Seq<char>) -> Seq<char> {
    joined_text(sibling_base(path), name)
}

/// Calls `std::path::Path::parent`. Trusted: the result is the named parent of
/// the argument, and the empty path has none, as the documentation of `parent`
/// says.
#[verifier::external_body]
pub(crate) fn parent_of(path: &str) -> (parent: Option<String>)
    ensures
        text_of(parent) == parent_text(path@),
        path@.len() == 0 ==> parent is None,
{
    match std::path::Path::new(path).parent() {
        Some(p) => Some(p.to_string_lossy().into_owned()),
        None => None,
    }
}

/// Calls `std::path::Path::join`. Trusted: the result is the named join of the
/// two arguments.
#[verifier::external_body]
pub(crate) fn join(base: &str, name: &str) -> (joined: String)
    ensures
        joined@ == joined_text(base@, name@),
{
    std::path::Path::new(base).join(name).to_string_lossy().into_owned()
}

/// Calls `String::push`. Trusted: the character is appended at the end and
/// nothing else changes.
#[verifier::external_body]
pub(crate) fn push_char(text: &mut String, c: char)
    ensures
        final(text)@ == old(text)@.push(c),
{
    text.push(c);
}

/// The path of the entry called `name` beside `path`: `name` joined to the
/// parent of `path`, or to `path` itself where it has no parent.
pub fn sibling_path(path: &str, name: &str) -> (sibling: String)
    ensures
        sibling@ == sibling_text(path@, name@),
{
    match parent_of(path) {
        Some(parent) => join(parent.as_str(), name),
        None => join(path, name),
    }
}

} // verus!
