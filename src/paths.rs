use vstd::prelude::*;

verus! {

/// The last component of a path, as `std::path::Path::file_name` gives it.
pub uninterp spec fn path_file_name(path: Seq<char>) -> Option<Seq<char>>;

/// `name` adjoined to `base`, as `std::path::Path::join` gives it.
pub uninterp spec fn path_join(base: Seq<char>, name: Seq<char>) -> Seq<char>;

/// The path inside the directory `dir` that has the file name of `target`.
pub open spec fn child_path(target: Seq<char>, dir: Seq<char>) -> Option<Seq<char>> {
    match path_file_name(target) {
        Some(name) => Some(path_join(dir, name)),
        None => None,
    }
}

/// Relies on `std::path::Path::file_name`: the final component of a path,
/// if there is one. A component of a `str` is valid UTF-8, so it converts
/// without loss.
#[verifier::external_body]
pub(crate) fn file_name_of(path: &str) -> (r: Option<String>)
    ensures
        match r {
            Some(name) => path_file_name(path@) == Some(name@),
            None => path_file_name(path@) is None,
        },
{
    std::path::Path::new(path).file_name().map(|name| name.to_string_lossy().into_owned())
}

/// Relies on `std::path::Path::join`: `name` adjoined to `base`. A path built
/// from two `str` is valid UTF-8, so it converts without loss.
#[verifier::external_body]
pub(crate) fn join_path(base: &str, name: &str) -> (r: String)
    ensures
        r@ == path_join(base@, name@),
{
    std::path::Path::new(base).join(name).to_string_lossy().into_owned()
}

} // verus!
