//! Where the managed binaries live, and the two path operations of std that
//! the library relies on.
use vstd::prelude::*;

use crate::platform::{spec_binary_file_name, binary_file_name, Platform};

verus! {

/// What `std::path::Path::join` gives for a base and a relative part.
pub uninterp spec fn joined_path(base: Seq<char>, rel: Seq<char>) -> Seq<char>;

/// What `std::path::Path::parent` gives for a path, as text.
pub uninterp spec fn parent_of(path: Seq<char>) -> Option<Seq<char>>;

/// Relies on `std::path::Path::join`: `base` extended by `rel` with the
/// target's separator (or `rel` alone if it is absolute); the result depends
/// on the two paths alone.
#[verifier::external_body]
pub(crate) fn join_path(base: &str, rel: &str) -> (r: String)
    ensures
        r@ == joined_path(base@, rel@),
{
    std::path::Path::new(base).join(rel).to_string_lossy().to_string()
}

/// Relies on `std::path::Path::parent`: the path without its last
/// component, or nothing for a root or an empty path.
#[verifier::external_body]
pub(crate) fn parent_path(path: &str) -> (r: Option<String>)
    ensures
        r matches Some(p) ==> parent_of(path@) == Some(p@),
        r is None ==> parent_of(path@) is None,
{
    std::path::Path::new(path).parent().map(|p| p.to_string_lossy().to_string())
}

/// The managed binaries directory inside the application's data directory.
pub open spec fn spec_binaries_path(data_dir: Seq<char>) -> Seq<char> {
    joined_path(data_dir, "bin"@)
}

/// Where the managed binary `name` is installed on `platform`.
pub open spec fn spec_binary_path(bin_dir: Seq<char>, name: Seq<char>, platform: Platform) -> Seq<
    char,
> {
    joined_path(bin_dir, spec_binary_file_name(name, platform))
}

/// The managed binaries directory: `bin` inside the application's data
/// directory.
pub fn get_binaries_path(data_dir: &str) -> (r: String)
    ensures
        r@ == spec_binaries_path(data_dir@),
{
    join_path(data_dir, "bin")
}

/// The path at which the managed binary `name` is installed.
pub fn binary_path(bin_dir: &str, name: &str, platform: Platform) -> (r: String)
    ensures
        r@ == spec_binary_path(bin_dir@, name@, platform),
{
    let file = binary_file_name(name, platform);
    join_path(bin_dir, file.as_str())
}

/// Resolves the managed binary `name` inside `bin_dir`; `exists` tells
/// whether a file is at that path. Absence is no error: the binary is not yet
/// provisioned. The general search path is never consulted.
pub fn resolve_binary_path(bin_dir: &str, name: &str, platform: Platform, exists: bool) -> (r:
    Option<String>)
    ensures
        exists ==> (r matches Some(p) && p@ == spec_binary_path(bin_dir@, name@, platform)),
        !exists ==> r is None,
{
    if exists {
        Some(binary_path(bin_dir, name, platform))
    } else {
        None
    }
}

} // verus!
