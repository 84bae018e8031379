//! Questions about the file system that the command-line checks ask.
use vstd::prelude::*;

verus! {

/// Calls `std::path::Path::exists` on `path`. The answer depends on what is on
/// disk at the time of the call, so nothing is stated of it.
#[verifier::external_body]
pub(crate) fn path_exists(path: &str) -> bool {
    std::path::Path::new(path).exists()
}

/// Calls `std::path::Path::is_dir` on `path`. The answer depends on what is on
/// disk at the time of the call, so nothing is stated of it.
#[verifier::external_body]
pub(crate) fn path_is_dir(path: &str) -> bool {
    std::path::Path::new(path).is_dir()
}

} // verus!
