//! Texts in quotation marks, as Rust's debug formatting writes them.
use vstd::prelude::*;

verus! {

/// What `format!("{:?}", s)` writes for a text `s`.
pub uninterp spec fn debug_text(s: Seq<char>) -> Seq<char>;

/// Whether a character stands for itself between quotation marks: printable
/// ASCII, but neither a quotation mark nor a backslash.
pub open spec fn plain_char(c: char) -> bool {
    ' ' <= c && c <= '~' && c != '"' && c != '\'' && c != '\\'
}

/// Quotes a text with std's `Debug` formatting of `str`, through `format!`.
/// The result is named, and a text of plain characters is put between
/// quotation marks as it stands; how other characters are escaped is not said.
#[verifier::external_body]
pub(crate) fn debug_quoted(s: &str) -> (out: String)
    ensures
        out@ == debug_text(s@),
        (forall|i: int| 0 <= i < s@.len() ==> plain_char(#[trigger] s@[i])) ==> out@ == seq!['"']
            + s@ + seq!['"'],
{
    format!("{:?}", s)
}

} // verus!
