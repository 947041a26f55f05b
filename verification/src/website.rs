//! The decisions behind the serving of the embedded web site: which file a
//! request asks for, and what to answer once it is known which files exist.

use vstd::prelude::*;
use vstd::string::StringExecFns;

verus! {

/// The file that a request path asks for: the path itself, or `index.html`
/// for the empty path.
pub open spec fn asset_for(path: Seq<char>) -> Seq<char> {
    if path.len() == 0 {
        "index.html"@
    } else {
        path
    }
}

/// Names the file that a request path asks for.
pub fn asset_key(path: String) -> (r: String)
    ensures
        r@ == asset_for(path@),
{
    if path.as_str().is_empty() {
        String::from_str("index.html")
    } else {
        path
    }
}

/// What to answer a request for a file of the site.
#[derive(Debug, PartialEq, Eq)]
pub enum Served {
    /// The file that was asked for, with this content type.
    File { content_type: String },
    /// `index.html` in place of a file that does not exist, as `text/html`:
    /// the site routes its own paths.
    Index,
    /// Nothing: not even `index.html` exists.
    NotFound,
}

/// `mime_guess::from_path` and `MimeGuess::first_or_octet_stream`: the media
/// type that goes with the extension of `path`.
///
/// Nothing is claimed of the result: what counts as the extension of a path
/// depends on the platform.
#[verifier::external_body]
fn guess_content_type(path: &str) -> (r: String) {
    mime_guess::from_path(path).first_or_octet_stream().as_ref().to_string()
}

/// Decides what to answer a request for the file `key`, given whether that
/// file exists and whether `index.html` does.
pub fn serve_file(key: &str, found: bool, index_found: bool) -> (r: Served)
    ensures
        found ==> r is File,
        !found && index_found ==> r == Served::Index,
        !found && !index_found ==> r == Served::NotFound,
{
    if found {
        Served::File { content_type: guess_content_type(key) }
    } else if index_found {
        Served::Index
    } else {
        Served::NotFound
    }
}

} // verus!
