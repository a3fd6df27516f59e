//! Conversion of the extracted HTML to Markdown, done by the `htmd` crate.

use vstd::prelude::*;

verus! {

/// The Markdown that `htmd::convert` produces for an HTML text, or the empty text where
/// it reports an error. It depends on the HTML alone.
pub uninterp spec fn htmd_markdown(html: Seq<char>) -> Seq<char>;

/// Converts HTML to Markdown with `htmd::convert`. The contract claims only that the
/// result is a function of the HTML (`htmd_markdown`); what that Markdown is for given
/// HTML is htmd's own rendering and is not stated here.
#[verifier::external_body]
pub(crate) fn convert_html_to_markdown(html: &str) -> (res: String)
    ensures
        res@ == htmd_markdown(html@),
{
    htmd::convert(html).unwrap_or_default()
}

} // verus!
