//! Paths as text, and the questions the engine asks of `std::path`.
//!
//! The engine holds every path as a `String`. It never looks at the disk: what
//! a path resolves to is found by the caller and handed in as a [`Resolved`].
//! Taking a path apart or putting two together is left to `std::path`, whose
//! answers are named here and not spelled out.

use vstd::prelude::*;
use vstd::string::*;
use crate::types::State;

verus! {

/// The text of the path that `PathBuf::push` leaves when `rel` is pushed onto
/// the path `base`, on the platform the library is built for.
pub uninterp spec fn joined(base: Seq<char>, rel: Seq<char>) -> Seq<char>;

/// The final component that `Path::file_name` finds in `path`, if it finds one,
/// on the platform the library is built for.
pub uninterp spec fn final_component(path: Seq<char>) -> Option<Seq<char>>;

/// The path that `Path::parent` gives for `path`, if it gives one, on the
/// platform the library is built for.
pub uninterp spec fn parent_path(path: Seq<char>) -> Option<Seq<char>>;

/// Whether `std::path::is_separator` takes `c` for a separator of path
/// components, on the platform the library is built for.
pub uninterp spec fn is_separator(c: char) -> bool;

/// `std::path::is_separator` says whether the character parts the components
/// of a path on this platform. Trusted: the result is the one that
/// [`is_separator`] names.
pub assume_specification[ std::path::is_separator ](c: char) -> (yes: bool)
    ensures
        yes == is_separator(c),
;

/// Calls `PathBuf::push`: builds the path `base`, pushes `rel` onto it and
/// hands back the text of the result. Trusted: the result is the one that
/// [`joined`] names. Both inputs are UTF-8, so the result is too and
/// nothing is lost in turning it into a `String`.
#[verifier::external_body]
pub(crate) fn join(base: &str, rel: &str) -> (path: String)
    ensures
        path@ == joined(base@, rel@),
{
    let mut buf = std::path::PathBuf::from(base);
    buf.push(rel);
    buf.to_string_lossy().into_owned()
}

/// Calls `Path::file_name` on the path `path`. Trusted: the result is the one
/// that [`final_component`] names. A component of a UTF-8 path is UTF-8.
#[verifier::external_body]
pub(crate) fn file_name(path: &str) -> (name: Option<String>)
    ensures
        name.deep_view() == final_component(path@),
{
    match std::path::Path::new(path).file_name() {
        Some(name) => Some(name.to_string_lossy().into_owned()),
        None => None,
    }
}

/// Calls `Path::parent` on the path `path`. Trusted: the result is the one that
/// [`parent_path`] names. A prefix of a UTF-8 path is UTF-8.
#[verifier::external_body]
pub(crate) fn parent(path: &str) -> (dir: Option<String>)
    ensures
        dir.deep_view() == parent_path(path@),
{
    match std::path::Path::new(path).parent() {
        Some(dir) => Some(dir.to_string_lossy().into_owned()),
        None => None,
    }
}

/// What the caller found on disk for one path.
#[derive(Debug, PartialEq, Eq)]
pub struct Resolved {
    /// The canonical, absolute path.
    pub path: String,
    /// Whether it is a directory.
    pub is_dir: bool,
}

/// What a [`Resolved`] holds, as plain values.
#[verifier::ext_equal]
pub struct ResolvedView {
    pub path: Seq<char>,
    pub is_dir: bool,
}

impl View for Resolved {
    type V = ResolvedView;

    open spec fn view(&self) -> ResolvedView {
        ResolvedView { path: self.path@, is_dir: self.is_dir }
    }
}

impl DeepView for Resolved {
    type V = ResolvedView;

    open spec fn deep_view(&self) -> ResolvedView {
        self@
    }
}

impl Resolved {
    pub fn new(path: String, is_dir: bool) -> (found: Resolved)
        ensures
            found@ == (ResolvedView { path: path@, is_dir }),
    {
        Resolved { path, is_dir }
    }
}

/// Whether the last character of `path` is a separator.
pub open spec fn ends_with_separator(path: Seq<char>) -> bool {
    path.len() > 0 && is_separator(path.last())
}

/// Whether the last character of `path` is a separator.
pub fn ends_in_separator(path: &str) -> (ends: bool)
    ensures
        ends == ends_with_separator(path@),
{
    let count = path.unicode_len();
    count > 0 && std::path::is_separator(path.get_char(count - 1))
}

/// The text of a path, for messages.
pub fn get_file_name(path: &str) -> (name: String)
    ensures
        name@ == path@,
{
    path.to_owned()
}

/// The path to canonicalise for the argument `path`: `path` pushed onto the
/// current directory, as `PathBuf::push` does it. The caller canonicalises the
/// result and reports what it found as a [`Resolved`], or as nothing where it
/// does not exist.
pub fn get_canon_path(path: &str, state: &State) -> (target: String)
    ensures
        target@ == joined(state@.cwd, path@),
{
    join(state.get_cwd().as_str(), path)
}

} // verus!
