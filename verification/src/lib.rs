//! Estimates how many tokens a piece of text would occupy in a downstream
//! tokenizer, without running that tokenizer. Cheap surface features
//! (character count, word count, average word length, whitespace count,
//! detected language) are fed to a pre-fit linear model whose coefficients
//! are fixed-point scaled integers.

use vstd::prelude::*;

pub mod detect;
pub mod lexing;
pub mod method_multilingual;
pub mod method_multilingual_simple;
pub mod scaled;
pub mod store;
pub mod text;

pub use detect::detect_language;
pub use method_multilingual::{
    MultilingualFeatures, MultilingualMethod, MultilingualMethodParameters, MultilingualParameters,
};
pub use method_multilingual_simple::{
    MultilingualSimpleFeatures, MultilingualSimpleMethod, MultilingualSimpleMethodParameters,
    MultilingualSimpleParameters,
};
pub use text::BasicFeatures;

verus! {

/// Selects one of the estimation methods.
#[derive(Clone, Copy, Debug, PartialEq, Eq, Structural)]
pub enum Method {
    Simple,
    Basic,
    Multilingual,
}

impl Default for Method {
    fn default() -> (r: Self)
        ensures
            r == Method::Simple,
    {
        Method::Simple
    }
}

/// Estimates how many tokens `text` would occupy, with the minimal method
/// and its built-in parameters: the convenience entry point. Never fails
/// and never returns a negative count, whatever the text.
pub fn estimate_tokens(text: &str) -> (r: usize)
    ensures
        r == method_multilingual_simple::spec_simple_estimate(
            method_multilingual_simple::default_simple_store_model(),
            text@,
        ),
{
    let estimator = MultilingualSimpleMethod::new();
    estimator.estimate(text)
}

/// Estimates how many tokens `text` would occupy, with the language-aware
/// method and its built-in parameters.
pub fn estimate_tokens_multilingual(text: &str) -> (r: usize)
    ensures
        r == method_multilingual::spec_estimate(
            method_multilingual::default_store_model(),
            text@,
        ),
{
    let estimator = MultilingualMethod::new();
    estimator.estimate(text)
}

/// Estimates how many tokens `text` would occupy, with the minimal method
/// and its built-in parameters.
pub fn estimate_tokens_multilingual_simple(text: &str) -> (r: usize)
    ensures
        r == method_multilingual_simple::spec_simple_estimate(
            method_multilingual_simple::default_simple_store_model(),
            text@,
        ),
{
    let estimator = MultilingualSimpleMethod::new();
    estimator.estimate(text)
}

/// The feature record the language-aware method reads from `text`.
pub fn count_multilingual(text: &str) -> (r: MultilingualFeatures)
    ensures
        r.is_features_of(text@),
{
    let estimator = MultilingualMethod::new();
    estimator.count(text)
}

/// The feature record the minimal method reads from `text`.
pub fn count_multilingual_simple(text: &str) -> (r: MultilingualSimpleFeatures)
    ensures
        r.is_features_of(text@),
{
    let estimator = MultilingualSimpleMethod::new();
    estimator.count(text)
}

} // verus!
