//! The extension of a file path, as `std::path::Path::extension` sees it.

use vstd::prelude::*;

verus! {

/// What `Path::extension` gives for a path written as text: the part of the
/// file name after its last `.`, when there is one and the name is not a bare
/// dot-file (`None` otherwise).
pub uninterp spec fn path_extension(path: Seq<char>) -> Option<Seq<char>>;

/// Calls `std::path::Path::extension` on the path; the result, as text, is
/// named `path_extension` of the path.  A path given as UTF-8 text has a UTF-8
/// extension, so the conversion back to text never drops one.
#[verifier::external_body]
pub fn file_extension(path: &str) -> (r: Option<String>)
    ensures
        r.deep_view() == path_extension(path@),
{
    std::path::Path::new(path).extension().and_then(|e| e.to_str()).map(|e| e.to_string())
}

} // verus!
