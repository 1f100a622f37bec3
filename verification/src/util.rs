//! Small helpers on paths and options.

use vstd::prelude::*;

verus! {

/// The final component of `path` as `std::path::Path::file_name` gives it,
/// or `None` where the path has none (it is empty, the root, or ends in `..`).
pub uninterp spec fn path_file_name(path: Seq<char>) -> Option<Seq<char>>;

/// The path that `std::path::Path::join` builds from `base` and `rel`.
pub uninterp spec fn joined_path(base: Seq<char>, rel: Seq<char>) -> Seq<char>;

/// Calls `std::path::Path::file_name`. Trusted: the result is the final
/// component of `path`, a function of the path's text alone.
#[verifier::external_body]
pub(crate) fn file_name(path: &str) -> (r: Option<String>)
    ensures
        r matches Some(name) ==> path_file_name(path@) == Some(name@),
        r is None ==> path_file_name(path@) is None,
{
    match std::path::Path::new(path).file_name() {
        Some(name) => Some(name.to_string_lossy().into_owned()),
        None => None,
    }
}

/// Calls `std::path::Path::join`. Trusted: the result is `rel` appended to
/// `base` as a path, a function of the two texts alone.
#[verifier::external_body]
pub(crate) fn join_path(base: &str, rel: &str) -> (r: String)
    ensures
        r@ == joined_path(base@, rel@),
{
    std::path::Path::new(base).join(rel).to_string_lossy().into_owned()
}

/// The name of the entry that `path` points at: its final component.
pub fn get_entry_name(path: &str) -> (r: String)
    requires
        path_file_name(path@) is Some,
    ensures
        Some(r@) == path_file_name(path@),
{
    match file_name(path) {
        Some(name) => name,
        None => String::new(),
    }
}

/// The entry name of `path`, or `None` where the path has no final component.
pub fn try_entry_name(path: &str) -> (r: Option<String>)
    ensures
        r is Some <==> path_file_name(path@) is Some,
        r matches Some(name) ==> Some(name@) == path_file_name(path@),
{
    match file_name(path) {
        Some(_) => Some(get_entry_name(path)),
        None => None,
    }
}

/// A vector holding the option's value, or nothing.
pub fn option_to_vec<T>(opt: Option<T>) -> (v: Vec<T>)
    ensures
        v@ == (match opt {
            Some(t) => seq![t],
            None => Seq::<T>::empty(),
        }),
{
    let mut v = Vec::new();
    if let Some(t) = opt {
        v.push(t);
    }
    v
}

} // verus!
