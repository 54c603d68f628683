//! Paths as text: joining a name onto a directory, stepping to the parent,
//! and plain concatenation.

use vstd::prelude::*;
use vstd::string::StringExecFns;

verus! {

/// The path that results from pushing `name` onto the directory `base`, as
/// `std::path::PathBuf::push` builds it on the target platform.
pub uninterp spec fn joined_path(base: Seq<char>, name: Seq<char>) -> Seq<char>;

/// The path without its final component, as `std::path::Path::parent`
/// gives it on the target platform; `None` where the path ends in a root
/// or is empty.
pub uninterp spec fn parent_path(path: Seq<char>) -> Option<Seq<char>>;

/// Calls `std::path::PathBuf::push` on a copy of `base`. Trusted: the
/// result is the path that std builds, named by `joined_path`. Both
/// arguments are valid text, so the result is too.
#[verifier::external_body]
pub(crate) fn path_join(base: &str, name: &str) -> (r: String)
    ensures
        r@ == joined_path(base@, name@),
{
    let mut path = std::path::PathBuf::from(base);
    path.push(name);
    path.to_string_lossy().into_owned()
}

/// Calls `std::path::Path::parent`. Trusted: the result is what std
/// returns, named by `parent_path`. The parent of a path that is valid
/// text is valid text.
#[verifier::external_body]
pub(crate) fn path_parent(path: &str) -> (r: Option<String>)
    ensures
        match r {
            Some(p) => parent_path(path@) == Some(p@),
            None => parent_path(path@) is None,
        },
{
    match std::path::Path::new(path).parent() {
        Some(p) => Some(p.to_string_lossy().into_owned()),
        None => None,
    }
}

/// Appends `s` to `p` as text, with no separator put between them.
pub fn append_to_path(p: String, s: &str) -> (r: String)
    ensures
        r@ == p@ + s@,
{
    p.concat(s)
}

/// The directory that holds the browser's configuration, below the
/// user's configuration directory `base`.
pub fn config_directory(base: String) -> (r: String)
    ensures
        r@ == base@ + "/fee"@,
{
    append_to_path(base, "/fee")
}

/// The configuration file in the browser's configuration directory.
pub fn config_file_path(config_directory: String) -> (r: String)
    ensures
        r@ == config_directory@ + "/config.json"@,
{
    append_to_path(config_directory, "/config.json")
}

} // verus!
