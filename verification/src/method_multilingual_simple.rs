//! The minimal, language-aware estimation method.
//!
//! It reads a single feature — the character count — and multiplies it by
//! one coefficient, chosen per detected language with fallback to a default
//! coefficient. There is no intercept, so an empty text always estimates to
//! zero.

use vstd::prelude::*;
use crate::detect::{detect_language, lang_code_of};
use crate::lexing::{spec_tokens, tokenize, tokens_view};
use crate::scaled::{
    lemma_mul_bound, lemma_parse_coef_in_range, parse_coef, parse_coef_token, round_clamp,
    round_clamp_saturate, saturate_usize, COEF_LIMIT, COEF_SCALE,
};
use crate::store::{
    code_key, has_code, lemma_absent_code_lookup_none, lemma_lookup_some_is_entry,
    lemma_lookup_some_iff_has_code, lemma_sorted_codes_unique, lookup_code, pairs_view,
    sorted_codes, spec_lookup, unique_codes,
};

verus! {

/// The features the minimal model reads: the character count and the
/// detected language code.
#[derive(Clone, Debug)]
pub struct MultilingualSimpleFeatures {
    /// Unicode scalar values in the text.
    pub char_count: usize,
    /// The detected language code, or `"unknown"`.
    pub language: String,
}

impl MultilingualSimpleFeatures {
    /// Whether these are exactly the features of `s`.
    pub open spec fn is_features_of(self, s: Seq<char>) -> bool {
        &&& self.char_count == s.len()
        &&& self.language@ == lang_code_of(s)
    }
}

/// The single coefficient of the minimal model, scaled by [`COEF_SCALE`].
/// It has no intercept.
#[derive(Clone, Copy, Debug, PartialEq, Eq, Structural)]
pub struct MultilingualSimpleParameters {
    /// Weight of the character count.
    pub coefficient: i64,
}

impl MultilingualSimpleParameters {
    /// The coefficient lies within [`COEF_LIMIT`], so the product with any
    /// character count fits in an `i128`.
    pub open spec fn wf(self) -> bool {
        -COEF_LIMIT <= self.coefficient <= COEF_LIMIT
    }

    /// The built-in default coefficient.
    pub open spec fn default_spec() -> Self {
        MultilingualSimpleParameters { coefficient: 329_268_293i64 }
    }
}

impl Default for MultilingualSimpleParameters {
    /// The built-in default coefficient.
    fn default() -> (r: Self)
        ensures
            r == Self::default_spec(),
            r.wf(),
    {
        MultilingualSimpleParameters { coefficient: 329_268_293 }
    }
}

/// The mathematical content of a minimal parameter store: the default
/// coefficient and the override pairs, each key as its character sequence.
pub struct MultilingualSimpleStoreModel {
    /// The coefficient any unmatched code falls back to.
    pub default_params: MultilingualSimpleParameters,
    /// The per-language overrides, looked up by first match.
    pub language_params: Seq<(Seq<char>, MultilingualSimpleParameters)>,
}

/// Whether every override holds a well-formed coefficient under a key
/// other than the sentinel `"unknown"`.
pub open spec fn ok_simple_pairs(pairs: Seq<(Seq<char>, MultilingualSimpleParameters)>) -> bool {
    forall|i: int|
        0 <= i < pairs.len() ==> (#[trigger] pairs[i]).1.wf() && pairs[i].0 != "unknown"@
}

impl MultilingualSimpleStoreModel {
    /// Whether the store is well formed: the default coefficient and every
    /// override are within bounds, no two overrides share a key, and no
    /// override is keyed by the sentinel `"unknown"`.
    pub open spec fn wf(self) -> bool {
        &&& self.default_params.wf()
        &&& ok_simple_pairs(self.language_params)
        &&& unique_codes(self.language_params)
    }

    /// The coefficient the dispatch policy selects for `code`: the
    /// override stored under it, or the default when no override — the
    /// sentinel `"unknown"` included — is stored under it.
    pub open spec fn params_for(self, code: Seq<char>) -> MultilingualSimpleParameters {
        match spec_lookup(self.language_params, code) {
            Some(p) => p,
            None => self.default_params,
        }
    }
}

/// The minimal parameter store: one default coefficient, and per-language
/// overrides with unique keys, replaced only wholesale.
#[derive(Debug, PartialEq)]
pub struct MultilingualSimpleMethodParameters {
    /// The coefficient any unmatched code falls back to.
    pub default_params: MultilingualSimpleParameters,
    /// The per-language overrides, one pair per code: sources with a
    /// duplicated or `"unknown"` key are rejected when loaded.
    pub language_params: Vec<(String, MultilingualSimpleParameters)>,
}

impl View for MultilingualSimpleMethodParameters {
    type V = MultilingualSimpleStoreModel;

    open spec fn view(&self) -> MultilingualSimpleStoreModel {
        MultilingualSimpleStoreModel {
            default_params: self.default_params,
            language_params: pairs_view(self.language_params@),
        }
    }
}

/// Appends one override, keeping the list well formed.
fn push_simple_override(
    pairs: &mut Vec<(String, MultilingualSimpleParameters)>,
    code: &str,
    params: MultilingualSimpleParameters,
)
    requires
        ok_simple_pairs(pairs_view(old(pairs)@)),
        sorted_codes(pairs_view(old(pairs)@)),
        pairs_view(old(pairs)@).len() > 0 ==> code_key(pairs_view(old(pairs)@).last().0)
            < code_key(code@),
        code@ != "unknown"@,
        params.wf(),
    ensures
        pairs_view(final(pairs)@) == pairs_view(old(pairs)@).push((code@, params)),
        ok_simple_pairs(pairs_view(final(pairs)@)),
        sorted_codes(pairs_view(final(pairs)@)),
{
    let owned = code.to_owned();
    pairs.push((owned, params));
    proof {
        let old_view = pairs_view(old(pairs)@);
        let new_view = pairs_view(pairs@);
        assert(new_view =~= old_view.push((code@, params)));
        assert forall|i: int| 0 <= i < new_view.len() implies (#[trigger] new_view[i]).1.wf()
            && new_view[i].0 != "unknown"@ by {
            if i < old_view.len() {
                assert(new_view[i] == old_view[i]);
            }
        }
        assert forall|i: int| 0 <= i < new_view.len() - 1 implies code_key(
            (#[trigger] new_view[i]).0,
        ) < code_key(new_view[i + 1].0) by {
            if i < old_view.len() - 1 {
                assert(new_view[i] == old_view[i]);
                assert(new_view[i + 1] == old_view[i + 1]);
            } else {
                assert(old_view.last() == old_view[old_view.len() - 1]);
                assert(new_view[i] == old_view[old_view.len() - 1]);
                assert(new_view[i + 1] == (code@, params));
            }
        }
    }
}

/// The estimate a coefficient yields on a character count: the product
/// rounded to the nearest whole number, clamped at zero and saturated at
/// `usize::MAX`.
pub open spec fn spec_simple_estimate_with(p: MultilingualSimpleParameters, c: nat) -> nat {
    saturate_usize(round_clamp(p.coefficient * c, COEF_SCALE as int))
}

/// The estimate the minimal method yields on `text`.
pub open spec fn spec_simple_estimate(m: MultilingualSimpleStoreModel, text: Seq<char>) -> nat {
    spec_simple_estimate_with(m.params_for(lang_code_of(text)), text.len())
}

/// Evaluates the single-coefficient model exactly in 128-bit arithmetic.
fn eval_simple(p: &MultilingualSimpleParameters, char_count: usize) -> (r: usize)
    requires
        p.wf(),
    ensures
        r == spec_simple_estimate_with(*p, char_count as nat),
{
    let c = char_count as i128;
    proof {
        assert(c <= u64::MAX);
        lemma_mul_bound(p.coefficient as int, c as int, COEF_LIMIT as int, u64::MAX as int);
    }
    let num = (p.coefficient as i128) * c;
    round_clamp_saturate(num, COEF_SCALE as u128)
}

/// The minimal estimation method: one character-count coefficient per
/// language, with fallback to a default coefficient.
pub struct MultilingualSimpleMethod {
    parameters: MultilingualSimpleMethodParameters,
}

impl View for MultilingualSimpleMethod {
    type V = MultilingualSimpleStoreModel;

    closed spec fn view(&self) -> MultilingualSimpleStoreModel {
        self.parameters@
    }
}

impl MultilingualSimpleMethod {
    /// A method holding the built-in default parameters.
    pub fn new() -> (r: Self)
        ensures
            r@ == default_simple_store_model(),
            r@.wf(),
    {
        MultilingualSimpleMethod { parameters: MultilingualSimpleMethodParameters::default() }
    }

    /// Extracts the features of `text`: its character count and detected
    /// language. Every string, including the empty one, yields a
    /// well-defined record.
    pub fn count(&self, text: &str) -> (r: MultilingualSimpleFeatures)
        ensures
            r.is_features_of(text@),
    {
        let char_count = text.unicode_len();
        let language = detect_language(text);
        MultilingualSimpleFeatures { char_count, language }
    }

    /// The estimate for a feature record: the coefficient selected by the
    /// record's language code, times its character count. Exact for every
    /// record, whatever its language field holds.
    pub fn estimate_features(&self, features: &MultilingualSimpleFeatures) -> (r: usize)
        requires
            self@.wf(),
        ensures
            r == spec_simple_estimate_with(
                self@.params_for(features.language@),
                features.char_count as nat,
            ),
    {
        let p: MultilingualSimpleParameters = match lookup_code(
            &self.parameters.language_params,
            &features.language,
        ) {
            Some(found) => *found,
            None => self.parameters.default_params,
        };
        proof {
            if spec_lookup(self@.language_params, features.language@) is Some {
                lemma_lookup_some_is_entry(self@.language_params, features.language@);
            }
        }
        eval_simple(&p, features.char_count)
    }

    /// The estimate for `text`: never negative, never an error, for every
    /// string including the empty one.
    pub fn estimate(&self, text: &str) -> (r: usize)
        requires
            self@.wf(),
        ensures
            r == spec_simple_estimate(self@, text@),
    {
        let features = self.count(text);
        self.estimate_features(&features)
    }

    /// The current in-memory parameters.
    pub fn parameters(&self) -> (r: MultilingualSimpleMethodParameters)
        ensures
            r@ == self@,
    {
        let mut language_params: Vec<(String, MultilingualSimpleParameters)> = Vec::new();
        let n = self.parameters.language_params.len();
        let mut i: usize = 0;
        while i < n
            invariant
                n == self.parameters.language_params.len(),
                0 <= i <= n,
                pairs_view(language_params@) =~= pairs_view(
                    self.parameters.language_params@.take(i as int),
                ),
            decreases n - i,
        {
            let ghost prev = language_params@;
            let code = self.parameters.language_params[i].0.clone();
            let params = self.parameters.language_params[i].1;
            language_params.push((code, params));
            proof {
                let src = self.parameters.language_params@;
                assert(code == src[i as int].0);
                assert(pairs_view(prev.push((code, params))) =~= pairs_view(prev).push(
                    (code@, params),
                ));
                assert(pairs_view(src.take(i + 1)) =~= pairs_view(src.take(i as int)).push(
                    (src[i as int].0@, src[i as int].1),
                ));
                assert(pairs_view(language_params@) =~= pairs_view(src.take(i + 1)));
            }
            i = i + 1;
        }
        proof {
            assert(self.parameters.language_params@.take(n as int)
                =~= self.parameters.language_params@);
        }
        MultilingualSimpleMethodParameters {
            default_params: self.parameters.default_params,
            language_params,
        }
    }

    /// Replaces the in-memory parameters wholesale: no merging, no partial
    /// update.
    pub fn set_parameters(&mut self, params: MultilingualSimpleMethodParameters)
        requires
            params@.wf(),
        ensures
            final(self)@ == params@,
            final(self)@.wf(),
    {
        self.parameters = params;
    }

    /// Reads `source` as a parameter store and, when it is well formed,
    /// replaces the current parameters wholesale. On a malformed source
    /// the parameters are left exactly as they were and failure is
    /// reported; nothing is ever partially applied.
    pub fn load_parameters(&mut self, source: &str) -> (r: bool)
        ensures
            r == (spec_parse_simple(source@) is Some),
            r ==> final(self)@ == spec_parse_simple(source@).unwrap() && final(self)@.wf(),
            !r ==> final(self)@ == old(self)@,
    {
        let toks = tokenize(source);
        match parse_simple_tokens(&toks) {
            Some(params) => {
                self.parameters = params;
                true
            },
            None => false,
        }
    }
}

impl Default for MultilingualSimpleMethod {
    /// The same method that [`MultilingualSimpleMethod::new`] yields.
    fn default() -> (r: Self)
        ensures
            r@ == default_simple_store_model(),
            r@.wf(),
    {
        MultilingualSimpleMethod::new()
    }
}

/// The built-in minimal parameter store: the default coefficient and the
/// calibrated per-language overrides.
pub open spec fn default_simple_store_model() -> MultilingualSimpleStoreModel {
    MultilingualSimpleStoreModel {
        default_params: MultilingualSimpleParameters::default_spec(),
        language_params: simple_overrides(),
    }
}

/// The built-in per-language overrides, calibrated constants fit by
/// regression and carried as opaque data, sorted by code.
pub closed spec fn simple_overrides() -> Seq<(Seq<char>, MultilingualSimpleParameters)> {
    simple_chunk_0() + simple_chunk_1() + simple_chunk_2() + simple_chunk_3() + simple_chunk_4() + simple_chunk_5() + simple_chunk_6()
}

spec fn simple_chunk_0() -> Seq<(Seq<char>, MultilingualSimpleParameters)> {
    seq![
        ("Afr"@, MultilingualSimpleParameters { coefficient: 354_978_359i64 }),
        ("Aka"@, MultilingualSimpleParameters { coefficient: 359_999_995i64 }),
        ("Amh"@, MultilingualSimpleParameters { coefficient: 1_763_736_277i64 }),
        ("Ara"@, MultilingualSimpleParameters { coefficient: 347_826_088i64 }),
        ("Aze"@, MultilingualSimpleParameters { coefficient: 324_503_311i64 }),
        ("Bel"@, MultilingualSimpleParameters { coefficient: 357_142_864i64 }),
        ("Ben"@, MultilingualSimpleParameters { coefficient: 399_999_999i64 }),
        ("Bul"@, MultilingualSimpleParameters { coefficient: 346_153_841i64 }),
        ("Cat"@, MultilingualSimpleParameters { coefficient: 290_123_458i64 }),
        ("Ces"@, MultilingualSimpleParameters { coefficient: 350_253_812i64 }),
    ]
}

fn build_simple_chunk_0(pairs: &mut Vec<(String, MultilingualSimpleParameters)>)
    requires
        ok_simple_pairs(pairs_view(old(pairs)@)),
        sorted_codes(pairs_view(old(pairs)@)),
        pairs_view(old(pairs)@).len() > 0 ==> code_key(pairs_view(old(pairs)@).last().0)
            < 4286066,
    ensures
        pairs_view(final(pairs)@) == pairs_view(old(pairs)@) + simple_chunk_0(),
        ok_simple_pairs(pairs_view(final(pairs)@)),
        sorted_codes(pairs_view(final(pairs)@)),
        pairs_view(final(pairs)@).len() > 0,
        code_key(pairs_view(final(pairs)@).last().0) == 4416883,
{
    proof {
        reveal_strlit("unknown");
        reveal_strlit("Afr");
        assert("unknown"@.len() == 7);
        assert("Afr"@.len() == 3);
        assert(code_key("Afr"@) == 4286066);
    }
    push_simple_override(pairs, "Afr", MultilingualSimpleParameters { coefficient: 354_978_359 });
    proof {
        assert(pairs_view(pairs@).last().0 == "Afr"@);
    }
    proof {
        reveal_strlit("unknown");
        reveal_strlit("Aka");
        assert("unknown"@.len() == 7);
        assert("Aka"@.len() == 3);
        assert(code_key("Aka"@) == 4287329);
    }
    push_simple_override(pairs, "Aka", MultilingualSimpleParameters { coefficient: 359_999_995 });
    proof {
        assert(pairs_view(pairs@).last().0 == "Aka"@);
    }
    proof {
        reveal_strlit("unknown");
        reveal_strlit("Amh");
        assert("unknown"@.len() == 7);
        assert("Amh"@.len() == 3);
        assert(code_key("Amh"@) == 4287848);
    }
    push_simple_override(pairs, "Amh", MultilingualSimpleParameters { coefficient: 1_763_736_277 });
    proof {
        assert(pairs_view(pairs@).last().0 == "Amh"@);
    }
    proof {
        reveal_strlit("unknown");
        reveal_strlit("Ara");
        assert("unknown"@.len() == 7);
        assert("Ara"@.len() == 3);
        assert(code_key("Ara"@) == 4289121);
    }
    push_simple_override(pairs, "Ara", MultilingualSimpleParameters { coefficient: 347_826_088 });
    proof {
        assert(pairs_view(pairs@).last().0 == "Ara"@);
    }
    proof {
        reveal_strlit("unknown");
        reveal_strlit("Aze");
        assert("unknown"@.len() == 7);
        assert("Aze"@.len() == 3);
        assert(code_key("Aze"@) == 4291173);
    }
    push_simple_override(pairs, "Aze", MultilingualSimpleParameters { coefficient: 324_503_311 });
    proof {
        assert(pairs_view(pairs@).last().0 == "Aze"@);
    }
    proof {
        reveal_strlit("unknown");
        reveal_strlit("Bel");
        assert("unknown"@.len() == 7);
        assert("Bel"@.len() == 3);
        assert(code_key("Bel"@) == 4351340);
    }
    push_simple_override(pairs, "Bel", MultilingualSimpleParameters { coefficient: 357_142_864 });
    proof {
        assert(pairs_view(pairs@).last().0 == "Bel"@);
    }
    proof {
        reveal_strlit("unknown");
        reveal_strlit("Ben");
        assert("unknown"@.len() == 7);
        assert("Ben"@.len() == 3);
        assert(code_key("Ben"@) == 4351342);
    }
    push_simple_override(pairs, "Ben", MultilingualSimpleParameters { coefficient: 399_999_999 });
    proof {
        assert(pairs_view(pairs@).last().0 == "Ben"@);
    }
    proof {
        reveal_strlit("unknown");
        reveal_strlit("Bul");
        assert("unknown"@.len() == 7);
        assert("Bul"@.len() == 3);
        assert(code_key("Bul"@) == 4355436);
    }
    push_simple_override(pairs, "Bul", MultilingualSimpleParameters { coefficient: 346_153_841 });
    proof {
        assert(pairs_view(pairs@).last().0 == "Bul"@);
    }
    proof {
        reveal_strlit("unknown");
        reveal_strlit("Cat");
        assert("unknown"@.len() == 7);
        assert("Cat"@.len() == 3);
        assert(code_key("Cat"@) == 4415860);
    }
    push_simple_override(pairs, "Cat", MultilingualSimpleParameters { coefficient: 290_123_458 });
    proof {
        assert(pairs_view(pairs@).last().0 == "Cat"@);
    }
    proof {
        reveal_strlit("unknown");
        reveal_strlit("Ces");
        assert("unknown"@.len() == 7);
        assert("Ces"@.len() == 3);
        assert(code_key("Ces"@) == 4416883);
    }
    push_simple_override(pairs, "Ces", MultilingualSimpleParameters { coefficient: 350_253_812 });
    proof {
        assert(pairs_view(pairs@).last().0 == "Ces"@);
    }
    proof {
        assert(pairs_view(pairs@) =~= pairs_view(old(pairs)@) + simple_chunk_0());
    }
}

spec fn simple_chunk_1() -> Seq<(Seq<char>, MultilingualSimpleParameters)> {
    seq![
        ("Cmn"@, MultilingualSimpleParameters { coefficient: 827_160_493i64 }),
        ("Dan"@, MultilingualSimpleParameters { coefficient: 286_135_695i64 }),
        ("Deu"@, MultilingualSimpleParameters { coefficient: 237_424_552i64 }),
        ("Ell"@, MultilingualSimpleParameters { coefficient: 379_310_350i64 }),
        ("Eng"@, MultilingualSimpleParameters { coefficient: 254_237_293i64 }),
        ("Epo"@, MultilingualSimpleParameters { coefficient: 320_754_726i64 }),
        ("Est"@, MultilingualSimpleParameters { coefficient: 320_000_000i64 }),
        ("Fin"@, MultilingualSimpleParameters { coefficient: 315_789_477i64 }),
        ("Fra"@, MultilingualSimpleParameters { coefficient: 299_331_102i64 }),
        ("Guj"@, MultilingualSimpleParameters { coefficient: 395_161_282i64 }),
    ]
}

fn build_simple_chunk_1(pairs: &mut Vec<(String, MultilingualSimpleParameters)>)
    requires
        ok_simple_pairs(pairs_view(old(pairs)@)),
        sorted_codes(pairs_view(old(pairs)@)),
        pairs_view(old(pairs)@).len() > 0 ==> code_key(pairs_view(old(pairs)@).last().0)
            < 4418926,
    ensures
        pairs_view(final(pairs)@) == pairs_view(old(pairs)@) + simple_chunk_1(),
        ok_simple_pairs(pairs_view(final(pairs)@)),
        sorted_codes(pairs_view(final(pairs)@)),
        pairs_view(final(pairs)@).len() > 0,
        code_key(pairs_view(final(pairs)@).last().0) == 4683114,
{
    proof {
        reveal_strlit("unknown");
        reveal_strlit("Cmn");
        assert("unknown"@.len() == 7);
        assert("Cmn"@.len() == 3);
        assert(code_key("Cmn"@) == 4418926);
    }
    push_simple_override(pairs, "Cmn", MultilingualSimpleParameters { coefficient: 827_160_493 });
    proof {
        assert(pairs_view(pairs@).last().0 == "Cmn"@);
    }
    proof {
        reveal_strlit("unknown");
        reveal_strlit("Dan");
        assert("unknown"@.len() == 7);
        assert("Dan"@.len() == 3);
        assert(code_key("Dan"@) == 4481390);
    }
    push_simple_override(pairs, "Dan", MultilingualSimpleParameters { coefficient: 286_135_695 });
    proof {
        assert(pairs_view(pairs@).last().0 == "Dan"@);
    }
    proof {
        reveal_strlit("unknown");
        reveal_strlit("Deu");
        assert("unknown"@.len() == 7);
        assert("Deu"@.len() == 3);
        assert(code_key("Deu"@) == 4482421);
    }
    push_simple_override(pairs, "Deu", MultilingualSimpleParameters { coefficient: 237_424_552 });
    proof {
        assert(pairs_view(pairs@).last().0 == "Deu"@);
    }
    proof {
        reveal_strlit("unknown");
        reveal_strlit("Ell");
        assert("unknown"@.len() == 7);
        assert("Ell"@.len() == 3);
        assert(code_key("Ell"@) == 4549740);
    }
    push_simple_override(pairs, "Ell", MultilingualSimpleParameters { coefficient: 379_310_350 });
    proof {
        assert(pairs_view(pairs@).last().0 == "Ell"@);
    }
    proof {
        reveal_strlit("unknown");
        reveal_strlit("Eng");
        assert("unknown"@.len() == 7);
        assert("Eng"@.len() == 3);
        assert(code_key("Eng"@) == 4550247);
    }
    push_simple_override(pairs, "Eng", MultilingualSimpleParameters { coefficient: 254_237_293 });
    proof {
        assert(pairs_view(pairs@).last().0 == "Eng"@);
    }
    proof {
        reveal_strlit("unknown");
        reveal_strlit("Epo");
        assert("unknown"@.len() == 7);
        assert("Epo"@.len() == 3);
        assert(code_key("Epo"@) == 4550767);
    }
    push_simple_override(pairs, "Epo", MultilingualSimpleParameters { coefficient: 320_754_726 });
    proof {
        assert(pairs_view(pairs@).last().0 == "Epo"@);
    }
    proof {
        reveal_strlit("unknown");
        reveal_strlit("Est");
        assert("unknown"@.len() == 7);
        assert("Est"@.len() == 3);
        assert(code_key("Est"@) == 4551540);
    }
    push_simple_override(pairs, "Est", MultilingualSimpleParameters { coefficient: 320_000_000 });
    proof {
        assert(pairs_view(pairs@).last().0 == "Est"@);
    }
    proof {
        reveal_strlit("unknown");
        reveal_strlit("Fin");
        assert("unknown"@.len() == 7);
        assert("Fin"@.len() == 3);
        assert(code_key("Fin"@) == 4614510);
    }
    push_simple_override(pairs, "Fin", MultilingualSimpleParameters { coefficient: 315_789_477 });
    proof {
        assert(pairs_view(pairs@).last().0 == "Fin"@);
    }
    proof {
        reveal_strlit("unknown");
        reveal_strlit("Fra");
        assert("unknown"@.len() == 7);
        assert("Fra"@.len() == 3);
        assert(code_key("Fra"@) == 4616801);
    }
    push_simple_override(pairs, "Fra", MultilingualSimpleParameters { coefficient: 299_331_102 });
    proof {
        assert(pairs_view(pairs@).last().0 == "Fra"@);
    }
    proof {
        reveal_strlit("unknown");
        reveal_strlit("Guj");
        assert("unknown"@.len() == 7);
        assert("Guj"@.len() == 3);
        assert(code_key("Guj"@) == 4683114);
    }
    push_simple_override(pairs, "Guj", MultilingualSimpleParameters { coefficient: 395_161_282 });
    proof {
        assert(pairs_view(pairs@).last().0 == "Guj"@);
    }
    proof {
        assert(pairs_view(pairs@) =~= pairs_view(old(pairs)@) + simple_chunk_1());
    }
}

spec fn simple_chunk_2() -> Seq<(Seq<char>, MultilingualSimpleParameters)> {
    seq![
        ("Heb"@, MultilingualSimpleParameters { coefficient: 391_705_064i64 }),
        ("Hin"@, MultilingualSimpleParameters { coefficient: 342_281_884i64 }),
        ("Hrv"@, MultilingualSimpleParameters { coefficient: 316_901_411i64 }),
        ("Hun"@, MultilingualSimpleParameters { coefficient: 358_974_356i64 }),
        ("Hye"@, MultilingualSimpleParameters { coefficient: 333_333_332i64 }),
        ("Ind"@, MultilingualSimpleParameters { coefficient: 279_411_767i64 }),
        ("Ita"@, MultilingualSimpleParameters { coefficient: 292_134_831i64 }),
        ("Jav"@, MultilingualSimpleParameters { coefficient: 312_499_996i64 }),
        ("Jpn"@, MultilingualSimpleParameters { coefficient: 744_680_859i64 }),
        ("Kan"@, MultilingualSimpleParameters { coefficient: 391_691_387i64 }),
    ]
}

fn build_simple_chunk_2(pairs: &mut Vec<(String, MultilingualSimpleParameters)>)
    requires
        ok_simple_pairs(pairs_view(old(pairs)@)),
        sorted_codes(pairs_view(old(pairs)@)),
        pairs_view(old(pairs)@).len() > 0 ==> code_key(pairs_view(old(pairs)@).last().0)
            < 4744546,
    ensures
        pairs_view(final(pairs)@) == pairs_view(old(pairs)@) + simple_chunk_2(),
        ok_simple_pairs(pairs_view(final(pairs)@)),
        sorted_codes(pairs_view(final(pairs)@)),
        pairs_view(final(pairs)@).len() > 0,
        code_key(pairs_view(final(pairs)@).last().0) == 4940142,
{
    proof {
        reveal_strlit("unknown");
        reveal_strlit("Heb");
        assert("unknown"@.len() == 7);
        assert("Heb"@.len() == 3);
        assert(code_key("Heb"@) == 4744546);
    }
    push_simple_override(pairs, "Heb", MultilingualSimpleParameters { coefficient: 391_705_064 });
    proof {
        assert(pairs_view(pairs@).last().0 == "Heb"@);
    }
    proof {
        reveal_strlit("unknown");
        reveal_strlit("Hin");
        assert("unknown"@.len() == 7);
        assert("Hin"@.len() == 3);
        assert(code_key("Hin"@) == 4745582);
    }
    push_simple_override(pairs, "Hin", MultilingualSimpleParameters { coefficient: 342_281_884 });
    proof {
        assert(pairs_view(pairs@).last().0 == "Hin"@);
    }
    proof {
        reveal_strlit("unknown");
        reveal_strlit("Hrv");
        assert("unknown"@.len() == 7);
        assert("Hrv"@.len() == 3);
        assert(code_key("Hrv"@) == 4747894);
    }
    push_simple_override(pairs, "Hrv", MultilingualSimpleParameters { coefficient: 316_901_411 });
    proof {
        assert(pairs_view(pairs@).last().0 == "Hrv"@);
    }
    proof {
        reveal_strlit("unknown");
        reveal_strlit("Hun");
        assert("unknown"@.len() == 7);
        assert("Hun"@.len() == 3);
        assert(code_key("Hun"@) == 4748654);
    }
    push_simple_override(pairs, "Hun", MultilingualSimpleParameters { coefficient: 358_974_356 });
    proof {
        assert(pairs_view(pairs@).last().0 == "Hun"@);
    }
    proof {
        reveal_strlit("unknown");
        reveal_strlit("Hye");
        assert("unknown"@.len() == 7);
        assert("Hye"@.len() == 3);
        assert(code_key("Hye"@) == 4749669);
    }
    push_simple_override(pairs, "Hye", MultilingualSimpleParameters { coefficient: 333_333_332 });
    proof {
        assert(pairs_view(pairs@).last().0 == "Hye"@);
    }
    proof {
        reveal_strlit("unknown");
        reveal_strlit("Ind");
        assert("unknown"@.len() == 7);
        assert("Ind"@.len() == 3);
        assert(code_key("Ind"@) == 4812388);
    }
    push_simple_override(pairs, "Ind", MultilingualSimpleParameters { coefficient: 279_411_767 });
    proof {
        assert(pairs_view(pairs@).last().0 == "Ind"@);
    }
    proof {
        reveal_strlit("unknown");
        reveal_strlit("Ita");
        assert("unknown"@.len() == 7);
        assert("Ita"@.len() == 3);
        assert(code_key("Ita"@) == 4813921);
    }
    push_simple_override(pairs, "Ita", MultilingualSimpleParameters { coefficient: 292_134_831 });
    proof {
        assert(pairs_view(pairs@).last().0 == "Ita"@);
    }
    proof {
        reveal_strlit("unknown");
        reveal_strlit("Jav");
        assert("unknown"@.len() == 7);
        assert("Jav"@.len() == 3);
        assert(code_key("Jav"@) == 4874614);
    }
    push_simple_override(pairs, "Jav", MultilingualSimpleParameters { coefficient: 312_499_996 });
    proof {
        assert(pairs_view(pairs@).last().0 == "Jav"@);
    }
    proof {
        reveal_strlit("unknown");
        reveal_strlit("Jpn");
        assert("unknown"@.len() == 7);
        assert("Jpn"@.len() == 3);
        assert(code_key("Jpn"@) == 4878446);
    }
    push_simple_override(pairs, "Jpn", MultilingualSimpleParameters { coefficient: 744_680_859 });
    proof {
        assert(pairs_view(pairs@).last().0 == "Jpn"@);
    }
    proof {
        reveal_strlit("unknown");
        reveal_strlit("Kan");
        assert("unknown"@.len() == 7);
        assert("Kan"@.len() == 3);
        assert(code_key("Kan"@) == 4940142);
    }
    push_simple_override(pairs, "Kan", MultilingualSimpleParameters { coefficient: 391_691_387 });
    proof {
        assert(pairs_view(pairs@).last().0 == "Kan"@);
    }
    proof {
        assert(pairs_view(pairs@) =~= pairs_view(old(pairs)@) + simple_chunk_2());
    }
}

spec fn simple_chunk_3() -> Seq<(Seq<char>, MultilingualSimpleParameters)> {
    seq![
        ("Kat"@, MultilingualSimpleParameters { coefficient: 353_535_350i64 }),
        ("Khm"@, MultilingualSimpleParameters { coefficient: 560_975_618i64 }),
        ("Kor"@, MultilingualSimpleParameters { coefficient: 618_181_818i64 }),
        ("Lat"@, MultilingualSimpleParameters { coefficient: 305_699_477i64 }),
        ("Lav"@, MultilingualSimpleParameters { coefficient: 367_346_937i64 }),
        ("Lit"@, MultilingualSimpleParameters { coefficient: 354_166_676i64 }),
        ("Mal"@, MultilingualSimpleParameters { coefficient: 367_647_050i64 }),
        ("Mar"@, MultilingualSimpleParameters { coefficient: 394_052_049i64 }),
        ("Mkd"@, MultilingualSimpleParameters { coefficient: 348_837_210i64 }),
        ("Mya"@, MultilingualSimpleParameters { coefficient: 545_454_548i64 }),
    ]
}

fn build_simple_chunk_3(pairs: &mut Vec<(String, MultilingualSimpleParameters)>)
    requires
        ok_simple_pairs(pairs_view(old(pairs)@)),
        sorted_codes(pairs_view(old(pairs)@)),
        pairs_view(old(pairs)@).len() > 0 ==> code_key(pairs_view(old(pairs)@).last().0)
            < 4940148,
    ensures
        pairs_view(final(pairs)@) == pairs_view(old(pairs)@) + simple_chunk_3(),
        ok_simple_pairs(pairs_view(final(pairs)@)),
        sorted_codes(pairs_view(final(pairs)@)),
        pairs_view(final(pairs)@).len() > 0,
        code_key(pairs_view(final(pairs)@).last().0) == 5077345,
{
    proof {
        reveal_strlit("unknown");
        reveal_strlit("Kat");
        assert("unknown"@.len() == 7);
        assert("Kat"@.len() == 3);
        assert(code_key("Kat"@) == 4940148);
    }
    push_simple_override(pairs, "Kat", MultilingualSimpleParameters { coefficient: 353_535_350 });
    proof {
        assert(pairs_view(pairs@).last().0 == "Kat"@);
    }
    proof {
        reveal_strlit("unknown");
        reveal_strlit("Khm");
        assert("unknown"@.len() == 7);
        assert("Khm"@.len() == 3);
        assert(code_key("Khm"@) == 4941933);
    }
    push_simple_override(pairs, "Khm", MultilingualSimpleParameters { coefficient: 560_975_618 });
    proof {
        assert(pairs_view(pairs@).last().0 == "Khm"@);
    }
    proof {
        reveal_strlit("unknown");
        reveal_strlit("Kor");
        assert("unknown"@.len() == 7);
        assert("Kor"@.len() == 3);
        assert(code_key("Kor"@) == 4943730);
    }
    push_simple_override(pairs, "Kor", MultilingualSimpleParameters { coefficient: 618_181_818 });
    proof {
        assert(pairs_view(pairs@).last().0 == "Kor"@);
    }
    proof {
        reveal_strlit("unknown");
        reveal_strlit("Lat");
        assert("unknown"@.len() == 7);
        assert("Lat"@.len() == 3);
        assert(code_key("Lat"@) == 5005684);
    }
    push_simple_override(pairs, "Lat", MultilingualSimpleParameters { coefficient: 305_699_477 });
    proof {
        assert(pairs_view(pairs@).last().0 == "Lat"@);
    }
    proof {
        reveal_strlit("unknown");
        reveal_strlit("Lav");
        assert("unknown"@.len() == 7);
        assert("Lav"@.len() == 3);
        assert(code_key("Lav"@) == 5005686);
    }
    push_simple_override(pairs, "Lav", MultilingualSimpleParameters { coefficient: 367_346_937 });
    proof {
        assert(pairs_view(pairs@).last().0 == "Lav"@);
    }
    proof {
        reveal_strlit("unknown");
        reveal_strlit("Lit");
        assert("unknown"@.len() == 7);
        assert("Lit"@.len() == 3);
        assert(code_key("Lit"@) == 5007732);
    }
    push_simple_override(pairs, "Lit", MultilingualSimpleParameters { coefficient: 354_166_676 });
    proof {
        assert(pairs_view(pairs@).last().0 == "Lit"@);
    }
    proof {
        reveal_strlit("unknown");
        reveal_strlit("Mal");
        assert("unknown"@.len() == 7);
        assert("Mal"@.len() == 3);
        assert(code_key("Mal"@) == 5071212);
    }
    push_simple_override(pairs, "Mal", MultilingualSimpleParameters { coefficient: 367_647_050 });
    proof {
        assert(pairs_view(pairs@).last().0 == "Mal"@);
    }
    proof {
        reveal_strlit("unknown");
        reveal_strlit("Mar");
        assert("unknown"@.len() == 7);
        assert("Mar"@.len() == 3);
        assert(code_key("Mar"@) == 5071218);
    }
    push_simple_override(pairs, "Mar", MultilingualSimpleParameters { coefficient: 394_052_049 });
    proof {
        assert(pairs_view(pairs@).last().0 == "Mar"@);
    }
    proof {
        reveal_strlit("unknown");
        reveal_strlit("Mkd");
        assert("unknown"@.len() == 7);
        assert("Mkd"@.len() == 3);
        assert(code_key("Mkd"@) == 5073764);
    }
    push_simple_override(pairs, "Mkd", MultilingualSimpleParameters { coefficient: 348_837_210 });
    proof {
        assert(pairs_view(pairs@).last().0 == "Mkd"@);
    }
    proof {
        reveal_strlit("unknown");
        reveal_strlit("Mya");
        assert("unknown"@.len() == 7);
        assert("Mya"@.len() == 3);
        assert(code_key("Mya"@) == 5077345);
    }
    push_simple_override(pairs, "Mya", MultilingualSimpleParameters { coefficient: 545_454_548 });
    proof {
        assert(pairs_view(pairs@).last().0 == "Mya"@);
    }
    proof {
        assert(pairs_view(pairs@) =~= pairs_view(old(pairs)@) + simple_chunk_3());
    }
}

spec fn simple_chunk_4() -> Seq<(Seq<char>, MultilingualSimpleParameters)> {
    seq![
        ("Nep"@, MultilingualSimpleParameters { coefficient: 353_562_005i64 }),
        ("Nld"@, MultilingualSimpleParameters { coefficient: 258_536_587i64 }),
        ("Nob"@, MultilingualSimpleParameters { coefficient: 288_888_890i64 }),
        ("Ori"@, MultilingualSimpleParameters { coefficient: 992_499_987i64 }),
        ("Pan"@, MultilingualSimpleParameters { coefficient: 550_000_001i64 }),
        ("Pes"@, MultilingualSimpleParameters { coefficient: 359_999_994i64 }),
        ("Pol"@, MultilingualSimpleParameters { coefficient: 320_610_688i64 }),
        ("Por"@, MultilingualSimpleParameters { coefficient: 266_666_664i64 }),
        ("Ron"@, MultilingualSimpleParameters { coefficient: 311_557_791i64 }),
        ("Rus"@, MultilingualSimpleParameters { coefficient: 317_220_544i64 }),
    ]
}

fn build_simple_chunk_4(pairs: &mut Vec<(String, MultilingualSimpleParameters)>)
    requires
        ok_simple_pairs(pairs_view(old(pairs)@)),
        sorted_codes(pairs_view(old(pairs)@)),
        pairs_view(old(pairs)@).len() > 0 ==> code_key(pairs_view(old(pairs)@).last().0)
            < 5137776,
    ensures
        pairs_view(final(pairs)@) == pairs_view(old(pairs)@) + simple_chunk_4(),
        ok_simple_pairs(pairs_view(final(pairs)@)),
        sorted_codes(pairs_view(final(pairs)@)),
        pairs_view(final(pairs)@).len() > 0,
        code_key(pairs_view(final(pairs)@).last().0) == 5404019,
{
    proof {
        reveal_strlit("unknown");
        reveal_strlit("Nep");
        assert("unknown"@.len() == 7);
        assert("Nep"@.len() == 3);
        assert(code_key("Nep"@) == 5137776);
    }
    push_simple_override(pairs, "Nep", MultilingualSimpleParameters { coefficient: 353_562_005 });
    proof {
        assert(pairs_view(pairs@).last().0 == "Nep"@);
    }
    proof {
        reveal_strlit("unknown");
        reveal_strlit("Nld");
        assert("unknown"@.len() == 7);
        assert("Nld"@.len() == 3);
        assert(code_key("Nld"@) == 5139556);
    }
    push_simple_override(pairs, "Nld", MultilingualSimpleParameters { coefficient: 258_536_587 });
    proof {
        assert(pairs_view(pairs@).last().0 == "Nld"@);
    }
    proof {
        reveal_strlit("unknown");
        reveal_strlit("Nob");
        assert("unknown"@.len() == 7);
        assert("Nob"@.len() == 3);
        assert(code_key("Nob"@) == 5140322);
    }
    push_simple_override(pairs, "Nob", MultilingualSimpleParameters { coefficient: 288_888_890 });
    proof {
        assert(pairs_view(pairs@).last().0 == "Nob"@);
    }
    proof {
        reveal_strlit("unknown");
        reveal_strlit("Ori");
        assert("unknown"@.len() == 7);
        assert("Ori"@.len() == 3);
        assert(code_key("Ori"@) == 5206633);
    }
    push_simple_override(pairs, "Ori", MultilingualSimpleParameters { coefficient: 992_499_987 });
    proof {
        assert(pairs_view(pairs@).last().0 == "Ori"@);
    }
    proof {
        reveal_strlit("unknown");
        reveal_strlit("Pan");
        assert("unknown"@.len() == 7);
        assert("Pan"@.len() == 3);
        assert(code_key("Pan"@) == 5267822);
    }
    push_simple_override(pairs, "Pan", MultilingualSimpleParameters { coefficient: 550_000_001 });
    proof {
        assert(pairs_view(pairs@).last().0 == "Pan"@);
    }
    proof {
        reveal_strlit("unknown");
        reveal_strlit("Pes");
        assert("unknown"@.len() == 7);
        assert("Pes"@.len() == 3);
        assert(code_key("Pes"@) == 5268851);
    }
    push_simple_override(pairs, "Pes", MultilingualSimpleParameters { coefficient: 359_999_994 });
    proof {
        assert(pairs_view(pairs@).last().0 == "Pes"@);
    }
    proof {
        reveal_strlit("unknown");
        reveal_strlit("Pol");
        assert("unknown"@.len() == 7);
        assert("Pol"@.len() == 3);
        assert(code_key("Pol"@) == 5271404);
    }
    push_simple_override(pairs, "Pol", MultilingualSimpleParameters { coefficient: 320_610_688 });
    proof {
        assert(pairs_view(pairs@).last().0 == "Pol"@);
    }
    proof {
        reveal_strlit("unknown");
        reveal_strlit("Por");
        assert("unknown"@.len() == 7);
        assert("Por"@.len() == 3);
        assert(code_key("Por"@) == 5271410);
    }
    push_simple_override(pairs, "Por", MultilingualSimpleParameters { coefficient: 266_666_664 });
    proof {
        assert(pairs_view(pairs@).last().0 == "Por"@);
    }
    proof {
        reveal_strlit("unknown");
        reveal_strlit("Ron");
        assert("unknown"@.len() == 7);
        assert("Ron"@.len() == 3);
        assert(code_key("Ron"@) == 5402478);
    }
    push_simple_override(pairs, "Ron", MultilingualSimpleParameters { coefficient: 311_557_791 });
    proof {
        assert(pairs_view(pairs@).last().0 == "Ron"@);
    }
    proof {
        reveal_strlit("unknown");
        reveal_strlit("Rus");
        assert("unknown"@.len() == 7);
        assert("Rus"@.len() == 3);
        assert(code_key("Rus"@) == 5404019);
    }
    push_simple_override(pairs, "Rus", MultilingualSimpleParameters { coefficient: 317_220_544 });
    proof {
        assert(pairs_view(pairs@).last().0 == "Rus"@);
    }
    proof {
        assert(pairs_view(pairs@) =~= pairs_view(old(pairs)@) + simple_chunk_4());
    }
}

spec fn simple_chunk_5() -> Seq<(Seq<char>, MultilingualSimpleParameters)> {
    seq![
        ("Sin"@, MultilingualSimpleParameters { coefficient: 543_543_536i64 }),
        ("Slk"@, MultilingualSimpleParameters { coefficient: 352_380_960i64 }),
        ("Slv"@, MultilingualSimpleParameters { coefficient: 322_580_646i64 }),
        ("Sna"@, MultilingualSimpleParameters { coefficient: 318_181_817i64 }),
        ("Spa"@, MultilingualSimpleParameters { coefficient: 256_198_346i64 }),
        ("Srp"@, MultilingualSimpleParameters { coefficient: 372_670_806i64 }),
        ("Swe"@, MultilingualSimpleParameters { coefficient: 298_136_641i64 }),
        ("Tam"@, MultilingualSimpleParameters { coefficient: 370_967_739i64 }),
        ("Tel"@, MultilingualSimpleParameters { coefficient: 416_666_662i64 }),
        ("Tgl"@, MultilingualSimpleParameters { coefficient: 310_344_825i64 }),
    ]
}

fn build_simple_chunk_5(pairs: &mut Vec<(String, MultilingualSimpleParameters)>)
    requires
        ok_simple_pairs(pairs_view(old(pairs)@)),
        sorted_codes(pairs_view(old(pairs)@)),
        pairs_view(old(pairs)@).len() > 0 ==> code_key(pairs_view(old(pairs)@).last().0)
            < 5466478,
    ensures
        pairs_view(final(pairs)@) == pairs_view(old(pairs)@) + simple_chunk_5(),
        ok_simple_pairs(pairs_view(final(pairs)@)),
        sorted_codes(pairs_view(final(pairs)@)),
        pairs_view(final(pairs)@).len() > 0,
        code_key(pairs_view(final(pairs)@).last().0) == 5531500,
{
    proof {
        reveal_strlit("unknown");
        reveal_strlit("Sin");
        assert("unknown"@.len() == 7);
        assert("Sin"@.len() == 3);
        assert(code_key("Sin"@) == 5466478);
    }
    push_simple_override(pairs, "Sin", MultilingualSimpleParameters { coefficient: 543_543_536 });
    proof {
        assert(pairs_view(pairs@).last().0 == "Sin"@);
    }
    proof {
        reveal_strlit("unknown");
        reveal_strlit("Slk");
        assert("unknown"@.len() == 7);
        assert("Slk"@.len() == 3);
        assert(code_key("Slk"@) == 5467243);
    }
    push_simple_override(pairs, "Slk", MultilingualSimpleParameters { coefficient: 352_380_960 });
    proof {
        assert(pairs_view(pairs@).last().0 == "Slk"@);
    }
    proof {
        reveal_strlit("unknown");
        reveal_strlit("Slv");
        assert("unknown"@.len() == 7);
        assert("Slv"@.len() == 3);
        assert(code_key("Slv"@) == 5467254);
    }
    push_simple_override(pairs, "Slv", MultilingualSimpleParameters { coefficient: 322_580_646 });
    proof {
        assert(pairs_view(pairs@).last().0 == "Slv"@);
    }
    proof {
        reveal_strlit("unknown");
        reveal_strlit("Sna");
        assert("unknown"@.len() == 7);
        assert("Sna"@.len() == 3);
        assert(code_key("Sna"@) == 5467745);
    }
    push_simple_override(pairs, "Sna", MultilingualSimpleParameters { coefficient: 318_181_817 });
    proof {
        assert(pairs_view(pairs@).last().0 == "Sna"@);
    }
    proof {
        reveal_strlit("unknown");
        reveal_strlit("Spa");
        assert("unknown"@.len() == 7);
        assert("Spa"@.len() == 3);
        assert(code_key("Spa"@) == 5468257);
    }
    push_simple_override(pairs, "Spa", MultilingualSimpleParameters { coefficient: 256_198_346 });
    proof {
        assert(pairs_view(pairs@).last().0 == "Spa"@);
    }
    proof {
        reveal_strlit("unknown");
        reveal_strlit("Srp");
        assert("unknown"@.len() == 7);
        assert("Srp"@.len() == 3);
        assert(code_key("Srp"@) == 5468784);
    }
    push_simple_override(pairs, "Srp", MultilingualSimpleParameters { coefficient: 372_670_806 });
    proof {
        assert(pairs_view(pairs@).last().0 == "Srp"@);
    }
    proof {
        reveal_strlit("unknown");
        reveal_strlit("Swe");
        assert("unknown"@.len() == 7);
        assert("Swe"@.len() == 3);
        assert(code_key("Swe"@) == 5470053);
    }
    push_simple_override(pairs, "Swe", MultilingualSimpleParameters { coefficient: 298_136_641 });
    proof {
        assert(pairs_view(pairs@).last().0 == "Swe"@);
    }
    proof {
        reveal_strlit("unknown");
        reveal_strlit("Tam");
        assert("unknown"@.len() == 7);
        assert("Tam"@.len() == 3);
        assert(code_key("Tam"@) == 5529965);
    }
    push_simple_override(pairs, "Tam", MultilingualSimpleParameters { coefficient: 370_967_739 });
    proof {
        assert(pairs_view(pairs@).last().0 == "Tam"@);
    }
    proof {
        reveal_strlit("unknown");
        reveal_strlit("Tel");
        assert("unknown"@.len() == 7);
        assert("Tel"@.len() == 3);
        assert(code_key("Tel"@) == 5530988);
    }
    push_simple_override(pairs, "Tel", MultilingualSimpleParameters { coefficient: 416_666_662 });
    proof {
        assert(pairs_view(pairs@).last().0 == "Tel"@);
    }
    proof {
        reveal_strlit("unknown");
        reveal_strlit("Tgl");
        assert("unknown"@.len() == 7);
        assert("Tgl"@.len() == 3);
        assert(code_key("Tgl"@) == 5531500);
    }
    push_simple_override(pairs, "Tgl", MultilingualSimpleParameters { coefficient: 310_344_825 });
    proof {
        assert(pairs_view(pairs@).last().0 == "Tgl"@);
    }
    proof {
        assert(pairs_view(pairs@) =~= pairs_view(old(pairs)@) + simple_chunk_5());
    }
}

spec fn simple_chunk_6() -> Seq<(Seq<char>, MultilingualSimpleParameters)> {
    seq![
        ("Tha"@, MultilingualSimpleParameters { coefficient: 419_354_841i64 }),
        ("Tuk"@, MultilingualSimpleParameters { coefficient: 347_517_731i64 }),
        ("Tur"@, MultilingualSimpleParameters { coefficient: 308_333_332i64 }),
        ("Ukr"@, MultilingualSimpleParameters { coefficient: 345_312_501i64 }),
        ("Urd"@, MultilingualSimpleParameters { coefficient: 347_593_586i64 }),
        ("Uzb"@, MultilingualSimpleParameters { coefficient: 336_633_660i64 }),
        ("Vie"@, MultilingualSimpleParameters { coefficient: 333_333_333i64 }),
        ("Yid"@, MultilingualSimpleParameters { coefficient: 379_310_346i64 }),
        ("Zul"@, MultilingualSimpleParameters { coefficient: 322_404_373i64 }),
    ]
}

fn build_simple_chunk_6(pairs: &mut Vec<(String, MultilingualSimpleParameters)>)
    requires
        ok_simple_pairs(pairs_view(old(pairs)@)),
        sorted_codes(pairs_view(old(pairs)@)),
        pairs_view(old(pairs)@).len() > 0 ==> code_key(pairs_view(old(pairs)@).last().0)
            < 5531745,
    ensures
        pairs_view(final(pairs)@) == pairs_view(old(pairs)@) + simple_chunk_6(),
        ok_simple_pairs(pairs_view(final(pairs)@)),
        sorted_codes(pairs_view(final(pairs)@)),
        pairs_view(final(pairs)@).len() > 0,
        code_key(pairs_view(final(pairs)@).last().0) == 5928300,
{
    proof {
        reveal_strlit("unknown");
        reveal_strlit("Tha");
        assert("unknown"@.len() == 7);
        assert("Tha"@.len() == 3);
        assert(code_key("Tha"@) == 5531745);
    }
    push_simple_override(pairs, "Tha", MultilingualSimpleParameters { coefficient: 419_354_841 });
    proof {
        assert(pairs_view(pairs@).last().0 == "Tha"@);
    }
    proof {
        reveal_strlit("unknown");
        reveal_strlit("Tuk");
        assert("unknown"@.len() == 7);
        assert("Tuk"@.len() == 3);
        assert(code_key("Tuk"@) == 5535083);
    }
    push_simple_override(pairs, "Tuk", MultilingualSimpleParameters { coefficient: 347_517_731 });
    proof {
        assert(pairs_view(pairs@).last().0 == "Tuk"@);
    }
    proof {
        reveal_strlit("unknown");
        reveal_strlit("Tur");
        assert("unknown"@.len() == 7);
        assert("Tur"@.len() == 3);
        assert(code_key("Tur"@) == 5535090);
    }
    push_simple_override(pairs, "Tur", MultilingualSimpleParameters { coefficient: 308_333_332 });
    proof {
        assert(pairs_view(pairs@).last().0 == "Tur"@);
    }
    proof {
        reveal_strlit("unknown");
        reveal_strlit("Ukr");
        assert("unknown"@.len() == 7);
        assert("Ukr"@.len() == 3);
        assert(code_key("Ukr"@) == 5598066);
    }
    push_simple_override(pairs, "Ukr", MultilingualSimpleParameters { coefficient: 345_312_501 });
    proof {
        assert(pairs_view(pairs@).last().0 == "Ukr"@);
    }
    proof {
        reveal_strlit("unknown");
        reveal_strlit("Urd");
        assert("unknown"@.len() == 7);
        assert("Urd"@.len() == 3);
        assert(code_key("Urd"@) == 5599844);
    }
    push_simple_override(pairs, "Urd", MultilingualSimpleParameters { coefficient: 347_593_586 });
    proof {
        assert(pairs_view(pairs@).last().0 == "Urd"@);
    }
    proof {
        reveal_strlit("unknown");
        reveal_strlit("Uzb");
        assert("unknown"@.len() == 7);
        assert("Uzb"@.len() == 3);
        assert(code_key("Uzb"@) == 5601890);
    }
    push_simple_override(pairs, "Uzb", MultilingualSimpleParameters { coefficient: 336_633_660 });
    proof {
        assert(pairs_view(pairs@).last().0 == "Uzb"@);
    }
    proof {
        reveal_strlit("unknown");
        reveal_strlit("Vie");
        assert("unknown"@.len() == 7);
        assert("Vie"@.len() == 3);
        assert(code_key("Vie"@) == 5663077);
    }
    push_simple_override(pairs, "Vie", MultilingualSimpleParameters { coefficient: 333_333_333 });
    proof {
        assert(pairs_view(pairs@).last().0 == "Vie"@);
    }
    proof {
        reveal_strlit("unknown");
        reveal_strlit("Yid");
        assert("unknown"@.len() == 7);
        assert("Yid"@.len() == 3);
        assert(code_key("Yid"@) == 5859684);
    }
    push_simple_override(pairs, "Yid", MultilingualSimpleParameters { coefficient: 379_310_346 });
    proof {
        assert(pairs_view(pairs@).last().0 == "Yid"@);
    }
    proof {
        reveal_strlit("unknown");
        reveal_strlit("Zul");
        assert("unknown"@.len() == 7);
        assert("Zul"@.len() == 3);
        assert(code_key("Zul"@) == 5928300);
    }
    push_simple_override(pairs, "Zul", MultilingualSimpleParameters { coefficient: 322_404_373 });
    proof {
        assert(pairs_view(pairs@).last().0 == "Zul"@);
    }
    proof {
        assert(pairs_view(pairs@) =~= pairs_view(old(pairs)@) + simple_chunk_6());
    }
}

impl Default for MultilingualSimpleMethodParameters {
    /// The built-in default parameters: the default coefficient and the
    /// calibrated per-language override table.
    fn default() -> (r: Self)
        ensures
            r@ == default_simple_store_model(),
            r@.wf(),
    {
        let mut language_params: Vec<(String, MultilingualSimpleParameters)> = Vec::new();
        proof {
            assert(pairs_view(language_params@) =~= Seq::<
                (Seq<char>, MultilingualSimpleParameters),
            >::empty());
        }
        build_simple_chunk_0(&mut language_params);
        build_simple_chunk_1(&mut language_params);
        build_simple_chunk_2(&mut language_params);
        build_simple_chunk_3(&mut language_params);
        build_simple_chunk_4(&mut language_params);
        build_simple_chunk_5(&mut language_params);
        build_simple_chunk_6(&mut language_params);
        proof {
            assert(pairs_view(language_params@) =~= simple_overrides());
            lemma_sorted_codes_unique(pairs_view(language_params@));
        }
        MultilingualSimpleMethodParameters {
            default_params: MultilingualSimpleParameters::default(),
            language_params,
        }
    }
}

/// An estimate is never negative and always a whole number: a negative
/// coefficient may drive the raw product below zero, but the clamp keeps
/// it from surfacing.
pub proof fn lemma_simple_estimate_never_negative(
    m: MultilingualSimpleStoreModel,
    text: Seq<char>,
)
    ensures
        spec_simple_estimate(m, text) >= 0,
{
}

/// An override that the store holds is selected for its code, and any
/// other code — the sentinel `"unknown"` among them — falls back to the
/// default coefficient.
pub proof fn lemma_simple_unregistered_code_falls_back(
    m: MultilingualSimpleStoreModel,
    code: Seq<char>,
)
    requires
        !has_code(m.language_params, code),
    ensures
        m.params_for(code) == m.default_params,
{
    lemma_absent_code_lookup_none(m.language_params, code);
}

/// A code that the store does not hold estimates exactly as the sentinel
/// `"unknown"` does, on any character count: both fall back to the
/// default coefficient.
pub proof fn lemma_simple_unregistered_matches_unknown(
    m: MultilingualSimpleStoreModel,
    code: Seq<char>,
    c: nat,
)
    requires
        m.wf(),
        !has_code(m.language_params, code),
    ensures
        spec_simple_estimate_with(m.params_for(code), c) == spec_simple_estimate_with(
            m.params_for("unknown"@),
            c,
        ),
{
    lemma_simple_unregistered_code_falls_back(m, code);
    assert(!has_code(m.language_params, "unknown"@));
    lemma_simple_unregistered_code_falls_back(m, "unknown"@);
}

/// On the empty text the character count is zero and the minimal model has
/// no intercept, so the estimate is zero — for every store, whatever its
/// coefficients.
pub proof fn lemma_simple_empty_text_estimate(m: MultilingualSimpleStoreModel)
    ensures
        spec_simple_estimate(m, Seq::<char>::empty()) == 0,
{
    let p = m.params_for(lang_code_of(Seq::<char>::empty()));
    assert(p.coefficient * 0 == 0);
}

/// The minimal model's estimate is exactly the rounded, clamped product of
/// the character count and the selected coefficient.
pub proof fn lemma_simple_estimate_is_rounded_product(
    m: MultilingualSimpleStoreModel,
    text: Seq<char>,
)
    ensures
        spec_simple_estimate(m, text) == saturate_usize(
            round_clamp(m.params_for(lang_code_of(text)).coefficient * text.len(), COEF_SCALE as int),
        ),
{
}

/// Whether the token at `base` parses as a scaled coefficient.
pub open spec fn simple_params_ok_at(toks: Seq<Seq<char>>, base: int) -> bool {
    parse_coef(toks[base]) is Some
}

/// The coefficient that the token at `base` denotes.
pub open spec fn simple_params_at(toks: Seq<Seq<char>>, base: int) -> MultilingualSimpleParameters
    recommends
        simple_params_ok_at(toks, base),
{
    MultilingualSimpleParameters { coefficient: parse_coef(toks[base]).unwrap() as i64 }
}

/// The language code of the override group `g`: the token before its
/// coefficient.
pub open spec fn simple_code_at(toks: Seq<Seq<char>>, g: int) -> Seq<char> {
    toks[1 + 2 * g]
}

/// The coefficient of the override group `g`.
pub open spec fn simple_override_at(
    toks: Seq<Seq<char>>,
    g: int,
) -> MultilingualSimpleParameters {
    simple_params_at(toks, 2 + 2 * g)
}

/// Whether the override group `g` is acceptable: its code is not the
/// sentinel `"unknown"` and repeats no earlier group's code, and its
/// coefficient parses.
pub open spec fn simple_group_ok(toks: Seq<Seq<char>>, g: int) -> bool {
    &&& simple_code_at(toks, g) != "unknown"@
    &&& simple_params_ok_at(toks, 2 + 2 * g)
    &&& forall|h: int| 0 <= h < g ==> #[trigger] simple_code_at(toks, h) != simple_code_at(toks, g)
}

/// The store that a token sequence denotes: the default coefficient, then
/// any number of groups of one language code and its coefficient. A source
/// with a malformed coefficient, a wrong token count, a duplicated code or
/// the code `"unknown"` denotes nothing.
pub open spec fn parse_simple_store(toks: Seq<Seq<char>>) -> Option<MultilingualSimpleStoreModel> {
    if toks.len() < 1 || (toks.len() - 1) % 2 != 0 {
        None
    } else if !simple_params_ok_at(toks, 0) {
        None
    } else if !(forall|g: int|
        0 <= g < (toks.len() - 1) / 2 ==> #[trigger] simple_group_ok(toks, g)) {
        None
    } else {
        Some(
            MultilingualSimpleStoreModel {
                default_params: simple_params_at(toks, 0),
                language_params: Seq::new(
                    ((toks.len() - 1) / 2) as nat,
                    |g: int| (simple_code_at(toks, g), simple_override_at(toks, g)),
                ),
            },
        )
    }
}

/// The store that a parameter source denotes: its whitespace-separated
/// tokens, read as [`parse_simple_store`] lays them out.
pub open spec fn spec_parse_simple(s: Seq<char>) -> Option<MultilingualSimpleStoreModel> {
    parse_simple_store(spec_tokens(s))
}

/// Whether `code` is the sentinel `"unknown"`.
fn is_unknown_code(code: &String) -> (r: bool)
    ensures
        r == (code@ == "unknown"@),
{
    let sentinel: String = "unknown".to_owned();
    *code == sentinel
}

/// Reads a whole token sequence as a minimal parameter store.
fn parse_simple_tokens(toks: &Vec<String>) -> (r: Option<MultilingualSimpleMethodParameters>)
    ensures
        (match r {
            Some(ps) => {
                &&& parse_simple_store(tokens_view(toks@)) == Some(ps@)
                &&& ps@.wf()
            },
            None => parse_simple_store(tokens_view(toks@)) is None,
        }),
{
    let ghost tv = tokens_view(toks@);
    proof {
        assert(forall|k: int| 0 <= k < toks@.len() ==> #[trigger] tv[k] == toks@[k]@);
    }
    let n = toks.len();
    if n < 1 {
        return None;
    }
    if (n - 1) % 2 != 0 {
        return None;
    }
    let default_params = match parse_coef_token(toks[0].as_str()) {
        Some(v) => {
            proof {
                lemma_parse_coef_in_range(tv[0]);
            }
            MultilingualSimpleParameters { coefficient: v }
        },
        None => {
            return None;
        },
    };
    let ngroups = (n - 1) / 2;
    let mut pairs: Vec<(String, MultilingualSimpleParameters)> = Vec::new();
    let mut g: usize = 0;
    proof {
        assert(pairs_view(pairs@) =~= Seq::new(
            0,
            (|h: int| (simple_code_at(tv, h), simple_override_at(tv, h))),
        ));
    }
    while g < ngroups
        invariant
            tv == tokens_view(toks@),
            n == toks@.len(),
            n >= 1,
            (n - 1) % 2 == 0,
            ngroups == (n - 1) / 2,
            0 <= g <= ngroups,
            forall|h: int| 0 <= h < g ==> #[trigger] simple_group_ok(tv, h),
            pairs_view(pairs@) =~= Seq::new(
                g as nat,
                (|h: int| (simple_code_at(tv, h), simple_override_at(tv, h))),
            ),
            ok_simple_pairs(pairs_view(pairs@)),
        decreases ngroups - g,
    {
        proof {
            assert(2 * g < 2 * ngroups);
            assert(2 * ngroups <= n - 1) by (nonlinear_arith)
                requires
                    ngroups == (n - 1) / 2,
                    (n - 1) % 2 == 0,
                    n >= 1,
            ;
        }
        let base = 1 + 2 * g;
        let code = toks[base].clone();
        proof {
            assert(tv[base as int] == toks@[base as int]@);
            assert(code@ == simple_code_at(tv, g as int));
        }
        if is_unknown_code(&code) {
            proof {
                assert(!simple_group_ok(tv, g as int));
            }
            return None;
        }
        match lookup_code(&pairs, &code) {
            Some(_) => {
                proof {
                    lemma_lookup_some_is_entry(pairs_view(pairs@), code@);
                    let i = choose|i: int|
                        0 <= i < pairs_view(pairs@).len() && pairs_view(pairs@)[i] == (
                            code@,
                            spec_lookup(pairs_view(pairs@), code@).unwrap(),
                        );
                    assert(simple_code_at(tv, i) == simple_code_at(tv, g as int));
                    assert(!simple_group_ok(tv, g as int));
                }
                return None;
            },
            None => {},
        }
        let params = match parse_coef_token(toks[base + 1].as_str()) {
            Some(v) => {
                proof {
                    assert(tv[base + 1] == toks@[base + 1]@);
                    lemma_parse_coef_in_range(tv[base + 1]);
                }
                MultilingualSimpleParameters { coefficient: v }
            },
            None => {
                proof {
                    assert(tv[base + 1] == toks@[base + 1]@);
                    assert(!simple_group_ok(tv, g as int));
                }
                return None;
            },
        };
        let ghost prev = pairs@;
        pairs.push((code, params));
        proof {
            assert(pairs_view(prev.push((code, params))) =~= pairs_view(prev).push(
                (code@, params),
            ));
            assert(forall|i: int|
                0 <= i < g ==> #[trigger] pairs_view(prev)[i].0 == simple_code_at(tv, i));
            assert forall|h: int| 0 <= h < g implies #[trigger] simple_code_at(tv, h)
                != simple_code_at(tv, g as int) by {
                if simple_code_at(tv, h) == simple_code_at(tv, g as int) {
                    assert(pairs_view(prev)[h].0 == code@);
                    assert(has_code(pairs_view(prev), code@));
                    lemma_lookup_some_iff_has_code(pairs_view(prev), code@);
                }
            }
            assert(simple_group_ok(tv, g as int));
            assert(pairs_view(pairs@) =~= Seq::new(
                (g + 1) as nat,
                (|h: int| (simple_code_at(tv, h), simple_override_at(tv, h))),
            ));
        }
        g = g + 1;
    }
    let result = MultilingualSimpleMethodParameters { default_params, language_params: pairs };
    proof {
        assert forall|i: int, j: int|
            #![trigger result@.language_params[i], result@.language_params[j]]
            0 <= i < j < result@.language_params.len() implies result@.language_params[i].0
            != result@.language_params[j].0 by {
            assert(simple_group_ok(tv, j));
            assert(result@.language_params[i].0 == simple_code_at(tv, i));
            assert(result@.language_params[j].0 == simple_code_at(tv, j));
        }
        assert(parse_simple_store(tv) == Some(result@));
    }
    Some(result)
}

} // verus!
