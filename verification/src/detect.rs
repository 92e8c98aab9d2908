//! The language detector, an external collaborator.
//!
//! Detection itself is a black box: the library only relies on the engine
//! reading nothing but the text, so the code it assigns is a function of the
//! characters alone, named here without being stated.

use vstd::prelude::*;

verus! {

/// The language code that the detection engine assigns to `s`: a short
/// lower-case identifier, or `"unknown"` when no language can be made out.
pub uninterp spec fn lang_code_of(s: Seq<char>) -> Seq<char>;

/// The detected language of `text` as a short code such as `"eng"`, or
/// `"unknown"` when detection is indeterminate. Detection never fails: an
/// empty or ambiguous text yields the sentinel, not an error.
///
/// Relies on `whatlang::detect` and `whatlang::Lang::code`: detection reads
/// nothing but the text (its internal hash-map orders are all resolved by
/// total-order sorts before they reach the outcome), and `code` maps the
/// detected language to its ISO 639-3 identifier from a fixed table.
#[verifier::external_body]
pub fn detect_language(text: &str) -> (r: String)
    ensures
        r@ == lang_code_of(text@),
{
    match whatlang::detect(text) {
        Some(info) => info.lang().code().to_string(),
        None => "unknown".to_string(),
    }
}

} // verus!
