//! Breaking a text into lines, which the `textwrap` crate does.

use vstd::prelude::*;

verus! {

/// The lines into which `textwrap::wrap` breaks `text` for lines of
/// `width` columns.
pub uninterp spec fn wrapped_lines(text: Seq<char>, width: int) -> Seq<Seq<char>>;

/// Breaks `text` into lines of at most `width` columns where its words
/// allow it. This calls `textwrap::wrap` with the width alone, so with the
/// crate's default options, and copies each line it returns. Nothing is
/// proved of this function: it is taken on trust that the lines depend on
/// the text and the width only, which is all that the contract says.
#[verifier::external_body]
pub(crate) fn wrap_text(text: &str, width: usize) -> (lines: Vec<String>)
    ensures
        lines.deep_view() == wrapped_lines(text@, width as int),
{
    textwrap::wrap(text, width).into_iter().map(|line| line.into_owned()).collect()
}

} // verus!
