//! The names of the directories and files that a download writes.

use crate::entity::Chapter;
use crate::text::{decimal_digits, decimal_of, extension, extension_spec, option_view};
use vstd::prelude::*;

verus! {

/// `name` made fit to be a file name, by the rules of Windows where
/// `windows` is set and by those of the other systems where not.
pub uninterp spec fn sanitized(name: Seq<char>, windows: bool) -> Seq<char>;

/// `sanitize_filename::sanitize_with_options`, with the crate's default
/// options but for `windows`, which the caller says. The contract only
/// names the result: the same name and flag always give the same text.
#[verifier::external_body]
fn sanitize(name: &str, windows: bool) -> (r: String)
    ensures
        r@ == sanitized(name@, windows),
{
    sanitize_filename::sanitize_with_options(
        name,
        sanitize_filename::Options { windows, ..Default::default() },
    )
}

/// The names of the two directories that hold a chapter: that of its
/// manga, inside the download directory, and its own, inside that. Both
/// are the titles made fit to be file names.
pub fn chapter_directories(chapter: &Chapter, windows: bool) -> (r: (String, String))
    ensures
        r.0@ == sanitized(chapter@.manga.title, windows),
        r.1@ == sanitized(chapter@.title, windows),
{
    (sanitize(chapter.manga.title.as_str(), windows), sanitize(chapter.title.as_str(), windows))
}

/// The name of the file for the page with index `index`, found at
/// `page_url`: the index, a dot, and the extension of the address.
pub open spec fn page_file_name_spec(index: nat, page_url: Seq<char>) -> Option<Seq<char>> {
    match extension_spec(page_url) {
        Some(e) => Some(decimal_digits(index) + "."@ + e),
        None => None,
    }
}

/// The name of the file for the page with index `index`, found at
/// `page_url`; `None` where the address has no extension.
pub fn page_file_name(index: usize, page_url: &str) -> (r: Option<String>)
    ensures
        option_view(r) == page_file_name_spec(index as nat, page_url@),
{
    match extension(page_url) {
        Some(e) => {
            let mut name = decimal_of(index as u64);
            name.append(".");
            name.append(e.as_str());
            Some(name)
        },
        None => None,
    }
}

} // verus!
