//! The reply of the file server to a request for a path.
use vstd::prelude::*;

verus! {

/// The reply to a request for a file, given its text when a file exists at
/// the requested path: `404` with `File not found` when none exists, else
/// `200` with the file's text.
pub fn file_reply(contents: Option<String>) -> (res: (u16, String))
    ensures
        match contents {
            None => res.0 == 404 && res.1@ == "File not found"@,
            Some(c) => res.0 == 200 && res.1@ == c@,
        },
{
    match contents {
        None => (404, "File not found".to_owned()),
        Some(c) => (200, c),
    }
}

} // verus!
