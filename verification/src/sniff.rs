//! The media type that the `mime_guess` crate knows for a path.

use vstd::prelude::*;

verus! {

/// The media type that `mime_guess` lists first for the extension of `path`,
/// or `None` where it lists none. Which type that is lies in the table of
/// that crate; nothing about it is stated here.
pub uninterp spec fn sniffed_label(path: Seq<char>) -> Option<Seq<char>>;

/// The text of an optional label.
pub open spec fn label_text(label: Option<&str>) -> Option<Seq<char>> {
    match label {
        Some(text) => Some(text@),
        None => None,
    }
}

/// Asks `mime_guess::from_path` for its guess and `MimeGuess::first_raw` for
/// the first media type of that guess. `from_path` takes the extension that
/// `std::path::Path::extension` finds in `path` and looks it up, without
/// regard to case, in a table that is compiled into the crate; `first_raw`
/// hands out the first entry, or `None` where the extension is missing or
/// unknown. Nothing else is read and neither call panics, so the answer
/// depends on `path` alone. The contract claims that and no more: what is
/// believed here without proof is that `sniffed_label` is this function.
#[verifier::external_body]
pub(crate) fn sniff(path: &str) -> (label: Option<&'static str>)
    ensures
        label_text(label) == sniffed_label(path@),
{
    mime_guess::from_path(path).first_raw()
}

} // verus!
