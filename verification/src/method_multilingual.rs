//! The language-aware estimation method.
//!
//! It extracts the standard surface features, detects the text's language,
//! and applies a linear model whose coefficient set is chosen per language:
//! a detected code that the parameter store holds selects its override,
//! and any other code — the sentinel `"unknown"` among them — falls back to
//! the default coefficient set.

use vstd::prelude::*;
use crate::detect::{detect_language, lang_code_of};
use crate::lexing::{spec_tokens, tokenize, tokens_view};
use crate::scaled::{
    lemma_mul_bound, lemma_parse_coef_in_range, parse_coef, parse_coef_token, round_clamp,
    round_clamp_saturate, saturate_usize, COEF_LIMIT, COEF_SCALE,
};
use crate::store::{
    code_key, has_code, lemma_absent_code_lookup_none, lemma_lookup_some_is_entry,
    lemma_sorted_codes_unique, lookup_code, pairs_view, sorted_codes, spec_lookup, unique_codes,
};
use crate::text::{avg_word_len_micros, count_words, count_ws, word_chars, BasicFeatures, AVG_SCALE};

verus! {

/// Denominator of the language-aware linear combination: coefficients are
/// scaled by [`COEF_SCALE`] and the average word length by [`AVG_SCALE`].
pub const EST_SCALE: u64 = 1_000_000_000_000_000;

/// The features the language-aware model reads: the standard surface
/// features and the detected language code.
#[derive(Clone, Debug)]
pub struct MultilingualFeatures {
    /// The character, word, whitespace and average-word-length features.
    pub basic_features: BasicFeatures,
    /// The detected language code, or `"unknown"`.
    pub language: String,
}

impl MultilingualFeatures {
    /// Whether these are exactly the features of `s`.
    pub open spec fn is_features_of(self, s: Seq<char>) -> bool {
        &&& self.basic_features.is_features_of(s)
        &&& self.language@ == lang_code_of(s)
    }
}

/// One coefficient set of the language-aware model: a weight per feature
/// and an intercept, each scaled by [`COEF_SCALE`].
#[derive(Clone, Copy, Debug, PartialEq, Eq, Structural)]
pub struct MultilingualParameters {
    /// Weight of the character count.
    pub char_coef: i64,
    /// Weight of the word count.
    pub word_coef: i64,
    /// Weight of the average word length.
    pub avg_word_length_coef: i64,
    /// Weight of the whitespace count.
    pub space_coef: i64,
    /// Constant term.
    pub intercept: i64,
}

impl MultilingualParameters {
    /// Every coefficient lies within [`COEF_LIMIT`], so the linear
    /// combination of any text's features fits in an `i128`.
    pub open spec fn wf(self) -> bool {
        &&& -COEF_LIMIT <= self.char_coef <= COEF_LIMIT
        &&& -COEF_LIMIT <= self.word_coef <= COEF_LIMIT
        &&& -COEF_LIMIT <= self.avg_word_length_coef <= COEF_LIMIT
        &&& -COEF_LIMIT <= self.space_coef <= COEF_LIMIT
        &&& -COEF_LIMIT <= self.intercept <= COEF_LIMIT
    }

    /// The built-in default coefficient set.
    pub open spec fn default_spec() -> Self {
        MultilingualParameters {
            char_coef: 321_807_222i64,
            word_coef: 140_008_293i64,
            avg_word_length_coef: 508_924_617i64,
            space_coef: -228_335_681i64,
            intercept: 1_523_645_960i64,
        }
    }
}

impl Default for MultilingualParameters {
    /// The built-in default coefficient set.
    fn default() -> (r: Self)
        ensures
            r == Self::default_spec(),
            r.wf(),
    {
        MultilingualParameters {
            char_coef: 321_807_222,
            word_coef: 140_008_293,
            avg_word_length_coef: 508_924_617,
            space_coef: -228_335_681,
            intercept: 1_523_645_960,
        }
    }
}

/// The mathematical content of a language-aware parameter store: the
/// default coefficient set and the override pairs, each key as its
/// character sequence.
pub struct MultilingualStoreModel {
    /// The coefficient set any unmatched code falls back to.
    pub default_params: MultilingualParameters,
    /// The per-language overrides, looked up by first match.
    pub language_params: Seq<(Seq<char>, MultilingualParameters)>,
}

/// Whether every override holds a well-formed coefficient set under a key
/// other than the sentinel `"unknown"`.
pub open spec fn ok_pairs(pairs: Seq<(Seq<char>, MultilingualParameters)>) -> bool {
    forall|i: int|
        0 <= i < pairs.len() ==> (#[trigger] pairs[i]).1.wf() && pairs[i].0 != "unknown"@
}

impl MultilingualStoreModel {
    /// Whether the store is well formed: the default set and every
    /// override are within bounds, no two overrides share a key, and no
    /// override is keyed by the sentinel `"unknown"`.
    pub open spec fn wf(self) -> bool {
        &&& self.default_params.wf()
        &&& ok_pairs(self.language_params)
        &&& unique_codes(self.language_params)
    }

    /// The coefficient set the dispatch policy selects for `code`: the
    /// override stored under it, or the default set when no override —
    /// the sentinel `"unknown"` included — is stored under it.
    pub open spec fn params_for(self, code: Seq<char>) -> MultilingualParameters {
        match spec_lookup(self.language_params, code) {
            Some(p) => p,
            None => self.default_params,
        }
    }
}

/// The language-aware parameter store: one default coefficient set, and
/// per-language overrides with unique keys, replaced only wholesale.
#[derive(Debug, PartialEq)]
pub struct MultilingualMethodParameters {
    /// The coefficient set any unmatched code falls back to.
    pub default_params: MultilingualParameters,
    /// The per-language overrides, one pair per code: sources with a
    /// duplicated or `"unknown"` key are rejected when loaded.
    pub language_params: Vec<(String, MultilingualParameters)>,
}

impl View for MultilingualMethodParameters {
    type V = MultilingualStoreModel;

    open spec fn view(&self) -> MultilingualStoreModel {
        MultilingualStoreModel {
            default_params: self.default_params,
            language_params: pairs_view(self.language_params@),
        }
    }
}

/// Appends one override, keeping the list well formed.
fn push_override(
    pairs: &mut Vec<(String, MultilingualParameters)>,
    code: &str,
    params: MultilingualParameters,
)
    requires
        ok_pairs(pairs_view(old(pairs)@)),
        sorted_codes(pairs_view(old(pairs)@)),
        pairs_view(old(pairs)@).len() > 0 ==> code_key(pairs_view(old(pairs)@).last().0)
            < code_key(code@),
        code@ != "unknown"@,
        params.wf(),
    ensures
        pairs_view(final(pairs)@) == pairs_view(old(pairs)@).push((code@, params)),
        ok_pairs(pairs_view(final(pairs)@)),
        sorted_codes(pairs_view(final(pairs)@)),
{
    let owned = code.to_owned();
    pairs.push((owned, params));
    proof {
        let old_view = pairs_view(old(pairs)@);
        let new_view = pairs_view(pairs@);
        assert(new_view =~= old_view.push((code@, params)));
        assert forall|i: int| 0 <= i < new_view.len() implies (#[trigger] new_view[i]).1.wf()
            && new_view[i].0 != "unknown"@ by {
            if i < old_view.len() {
                assert(new_view[i] == old_view[i]);
            }
        }
        assert forall|i: int| 0 <= i < new_view.len() - 1 implies code_key(
            (#[trigger] new_view[i]).0,
        ) < code_key(new_view[i + 1].0) by {
            if i < old_view.len() - 1 {
                assert(new_view[i] == old_view[i]);
                assert(new_view[i + 1] == old_view[i + 1]);
            } else {
                assert(old_view.last() == old_view[old_view.len() - 1]);
                assert(new_view[i] == old_view[old_view.len() - 1]);
                assert(new_view[i + 1] == (code@, params));
            }
        }
    }
}

/// The linear combination of the language-aware model over a coefficient
/// set and the features of a text, as an integer over [`EST_SCALE`].
pub open spec fn linear_micros(
    p: MultilingualParameters,
    c: nat,
    w: nat,
    s: nat,
    awl: nat,
) -> int {
    (p.char_coef * c + p.word_coef * w + p.space_coef * s + p.intercept) * (AVG_SCALE as int)
        + p.avg_word_length_coef * awl
}

/// The estimate a coefficient set yields on the given features: the linear
/// combination rounded to the nearest whole number, clamped at zero and
/// saturated at `usize::MAX`.
pub open spec fn spec_estimate_with(
    p: MultilingualParameters,
    c: nat,
    w: nat,
    s: nat,
    awl: nat,
) -> nat {
    saturate_usize(round_clamp(linear_micros(p, c, w, s, awl), EST_SCALE as int))
}

/// The estimate the language-aware method yields on `text`.
pub open spec fn spec_estimate(m: MultilingualStoreModel, text: Seq<char>) -> nat {
    spec_estimate_with(
        m.params_for(lang_code_of(text)),
        text.len(),
        count_words(text),
        count_ws(text),
        avg_word_len_micros(word_chars(text), count_words(text)),
    )
}

/// Evaluates the linear model exactly in 128-bit arithmetic.
fn eval_linear(p: &MultilingualParameters, f: &BasicFeatures) -> (r: usize)
    requires
        p.wf(),
    ensures
        r == spec_estimate_with(
            *p,
            f.char_count as nat,
            f.word_count as nat,
            f.space_count as nat,
            f.avg_word_length as nat,
        ),
{
    let c = f.char_count as i128;
    let w = f.word_count as i128;
    let s = f.space_count as i128;
    let awl = f.avg_word_length as i128;
    proof {
        assert(c <= u64::MAX && w <= u64::MAX && s <= u64::MAX && awl <= u64::MAX);
        lemma_mul_bound(p.char_coef as int, c as int, COEF_LIMIT as int, u64::MAX as int);
        lemma_mul_bound(p.word_coef as int, w as int, COEF_LIMIT as int, u64::MAX as int);
        lemma_mul_bound(p.space_coef as int, s as int, COEF_LIMIT as int, u64::MAX as int);
        lemma_mul_bound(p.avg_word_length_coef as int, awl as int, COEF_LIMIT as int, u64::MAX as int);
    }
    let t = (p.char_coef as i128) * c + (p.word_coef as i128) * w + (p.space_coef as i128) * s + (
    p.intercept as i128);
    proof {
        lemma_mul_bound(
            t as int,
            AVG_SCALE as int,
            3 * (COEF_LIMIT as int) * (u64::MAX as int) + COEF_LIMIT,
            AVG_SCALE as int,
        );
    }
    let num = t * (AVG_SCALE as i128) + (p.avg_word_length_coef as i128) * awl;
    round_clamp_saturate(num, EST_SCALE as u128)
}

/// The language-aware estimation method: standard surface features, a
/// detected language, and per-language coefficient dispatch.
pub struct MultilingualMethod {
    parameters: MultilingualMethodParameters,
}

impl View for MultilingualMethod {
    type V = MultilingualStoreModel;

    closed spec fn view(&self) -> MultilingualStoreModel {
        self.parameters@
    }
}

impl MultilingualMethod {
    /// A method holding the built-in default parameters.
    pub fn new() -> (r: Self)
        ensures
            r@ == default_store_model(),
            r@.wf(),
    {
        MultilingualMethod { parameters: MultilingualMethodParameters::default() }
    }

    /// Extracts the features of `text`, the detected language among them.
    /// Every string, including the empty one, yields a well-defined
    /// record.
    pub fn count(&self, text: &str) -> (r: MultilingualFeatures)
        ensures
            r.is_features_of(text@),
    {
        let basic_features = BasicFeatures::extract(text);
        let language = detect_language(text);
        MultilingualFeatures { basic_features, language }
    }

    /// The estimate for a feature record: the coefficient set selected by
    /// the record's language code, applied to its features. Exact for
    /// every record, whatever its language field holds.
    pub fn estimate_features(&self, features: &MultilingualFeatures) -> (r: usize)
        requires
            self@.wf(),
        ensures
            r == spec_estimate_with(
                self@.params_for(features.language@),
                features.basic_features.char_count as nat,
                features.basic_features.word_count as nat,
                features.basic_features.space_count as nat,
                features.basic_features.avg_word_length as nat,
            ),
    {
        let p: MultilingualParameters = match lookup_code(
            &self.parameters.language_params,
            &features.language,
        ) {
            Some(found) => *found,
            None => self.parameters.default_params,
        };
        proof {
            if spec_lookup(self@.language_params, features.language@) is Some {
                lemma_lookup_some_is_entry(self@.language_params, features.language@);
            }
        }
        eval_linear(&p, &features.basic_features)
    }

    /// The estimate for `text`: never negative, never an error, for every
    /// string including the empty one.
    pub fn estimate(&self, text: &str) -> (r: usize)
        requires
            self@.wf(),
        ensures
            r == spec_estimate(self@, text@),
    {
        let features = self.count(text);
        self.estimate_features(&features)
    }

    /// The current in-memory parameters.
    pub fn parameters(&self) -> (r: MultilingualMethodParameters)
        ensures
            r@ == self@,
    {
        let mut language_params: Vec<(String, MultilingualParameters)> = Vec::new();
        let n = self.parameters.language_params.len();
        let mut i: usize = 0;
        while i < n
            invariant
                n == self.parameters.language_params.len(),
                0 <= i <= n,
                pairs_view(language_params@) =~= pairs_view(
                    self.parameters.language_params@.take(i as int),
                ),
            decreases n - i,
        {
            let ghost prev = language_params@;
            let code = self.parameters.language_params[i].0.clone();
            let params = self.parameters.language_params[i].1;
            language_params.push((code, params));
            proof {
                let src = self.parameters.language_params@;
                assert(code == src[i as int].0);
                assert(pairs_view(prev.push((code, params))) =~= pairs_view(prev).push(
                    (code@, params),
                ));
                assert(pairs_view(src.take(i + 1)) =~= pairs_view(src.take(i as int)).push(
                    (src[i as int].0@, src[i as int].1),
                ));
                assert(pairs_view(language_params@) =~= pairs_view(src.take(i + 1)));
            }
            i = i + 1;
        }
        proof {
            assert(self.parameters.language_params@.take(n as int)
                =~= self.parameters.language_params@);
        }
        MultilingualMethodParameters {
            default_params: self.parameters.default_params,
            language_params,
        }
    }

    /// Replaces the in-memory parameters wholesale: no merging, no partial
    /// update.
    pub fn set_parameters(&mut self, params: MultilingualMethodParameters)
        requires
            params@.wf(),
        ensures
            final(self)@ == params@,
            final(self)@.wf(),
    {
        self.parameters = params;
    }
}

impl Default for MultilingualMethod {
    /// The same method that [`MultilingualMethod::new`] yields.
    fn default() -> (r: Self)
        ensures
            r@ == default_store_model(),
            r@.wf(),
    {
        MultilingualMethod::new()
    }
}

/// The built-in language-aware parameter store: the default coefficient
/// set and the calibrated per-language overrides.
pub open spec fn default_store_model() -> MultilingualStoreModel {
    MultilingualStoreModel {
        default_params: MultilingualParameters::default_spec(),
        language_params: default_overrides(),
    }
}

/// The built-in per-language overrides, calibrated constants fit by
/// regression and carried as opaque data, sorted by code.
pub closed spec fn default_overrides() -> Seq<(Seq<char>, MultilingualParameters)> {
    overrides_chunk_0() + overrides_chunk_1() + overrides_chunk_2() + overrides_chunk_3() + overrides_chunk_4() + overrides_chunk_5() + overrides_chunk_6()
}

spec fn overrides_chunk_0() -> Seq<(Seq<char>, MultilingualParameters)> {
    seq![
        (
            "Afr"@,
            MultilingualParameters {
                char_coef: 298_471_790i64,
                word_coef: 390_438_810i64,
                avg_word_length_coef: 463_085_386i64,
                space_coef: -87_018_451i64,
                intercept: -836_667_552i64,
            },
        ),
        (
            "Aka"@,
            MultilingualParameters {
                char_coef: 321_872_704i64,
                word_coef: 343_059_276i64,
                avg_word_length_coef: 386_510_565i64,
                space_coef: -165_675_358i64,
                intercept: -931_883_318i64,
            },
        ),
        (
            "Amh"@,
            MultilingualParameters {
                char_coef: 1_658_569_989i64,
                word_coef: 284_695_551i64,
                avg_word_length_coef: 460_535_270i64,
                space_coef: 284_695_551i64,
                intercept: -5_909_449_211i64,
            },
        ),
        (
            "Ara"@,
            MultilingualParameters {
                char_coef: 448_951_790i64,
                word_coef: -534_816_526i64,
                avg_word_length_coef: 1_796_349_056i64,
                space_coef: 37_968_999i64,
                intercept: -7_481_054_644i64,
            },
        ),
        (
            "Aze"@,
            MultilingualParameters {
                char_coef: 150_549_965i64,
                word_coef: 1_296_699_278i64,
                avg_word_length_coef: 624_365_212i64,
                space_coef: -48_975_428i64,
                intercept: -2_081_422_011i64,
            },
        ),
        (
            "Bel"@,
            MultilingualParameters {
                char_coef: 168_978_994i64,
                word_coef: 1_238_561_405i64,
                avg_word_length_coef: 611_870_776i64,
                space_coef: 1_344_537i64,
                intercept: -1_881_022_525i64,
            },
        ),
        (
            "Ben"@,
            MultilingualParameters {
                char_coef: 381_096_916i64,
                word_coef: 2_497_910_425i64,
                avg_word_length_coef: 75_666_717i64,
                space_coef: -2_467_325_160i64,
                intercept: -1_481_870_606i64,
            },
        ),
        (
            "Bul"@,
            MultilingualParameters {
                char_coef: 197_810_608i64,
                word_coef: 913_344_608i64,
                avg_word_length_coef: 575_368_869i64,
                space_coef: -59_070_418i64,
                intercept: -1_285_342_658i64,
            },
        ),
        (
            "Cat"@,
            MultilingualParameters {
                char_coef: 231_486_150i64,
                word_coef: 376_022_592i64,
                avg_word_length_coef: 557_361_456i64,
                space_coef: -109_809_454i64,
                intercept: -280_479_115i64,
            },
        ),
        (
            "Ces"@,
            MultilingualParameters {
                char_coef: 265_647_368i64,
                word_coef: 576_914_711i64,
                avg_word_length_coef: 553_759_687i64,
                space_coef: -139_944_020i64,
                intercept: -1_211_770_781i64,
            },
        ),
    ]
}

fn build_chunk_0(pairs: &mut Vec<(String, MultilingualParameters)>)
    requires
        ok_pairs(pairs_view(old(pairs)@)),
        sorted_codes(pairs_view(old(pairs)@)),
        pairs_view(old(pairs)@).len() > 0 ==> code_key(pairs_view(old(pairs)@).last().0)
            < 4286066,
    ensures
        pairs_view(final(pairs)@) == pairs_view(old(pairs)@) + overrides_chunk_0(),
        ok_pairs(pairs_view(final(pairs)@)),
        sorted_codes(pairs_view(final(pairs)@)),
        pairs_view(final(pairs)@).len() > 0,
        code_key(pairs_view(final(pairs)@).last().0) == 4416883,
{
    proof {
        reveal_strlit("unknown");
        reveal_strlit("Afr");
        assert("unknown"@.len() == 7);
        assert("Afr"@.len() == 3);
        assert(code_key("Afr"@) == 4286066);
    }
    push_override(
        pairs,
        "Afr",
        MultilingualParameters {
            char_coef: 298_471_790,
            word_coef: 390_438_810,
            avg_word_length_coef: 463_085_386,
            space_coef: -87_018_451,
            intercept: -836_667_552,
        },
    );
    proof {
        assert(pairs_view(pairs@).last().0 == "Afr"@);
    }
    proof {
        reveal_strlit("unknown");
        reveal_strlit("Aka");
        assert("unknown"@.len() == 7);
        assert("Aka"@.len() == 3);
        assert(code_key("Aka"@) == 4287329);
    }
    push_override(
        pairs,
        "Aka",
        MultilingualParameters {
            char_coef: 321_872_704,
            word_coef: 343_059_276,
            avg_word_length_coef: 386_510_565,
            space_coef: -165_675_358,
            intercept: -931_883_318,
        },
    );
    proof {
        assert(pairs_view(pairs@).last().0 == "Aka"@);
    }
    proof {
        reveal_strlit("unknown");
        reveal_strlit("Amh");
        assert("unknown"@.len() == 7);
        assert("Amh"@.len() == 3);
        assert(code_key("Amh"@) == 4287848);
    }
    push_override(
        pairs,
        "Amh",
        MultilingualParameters {
            char_coef: 1_658_569_989,
            word_coef: 284_695_551,
            avg_word_length_coef: 460_535_270,
            space_coef: 284_695_551,
            intercept: -5_909_449_211,
        },
    );
    proof {
        assert(pairs_view(pairs@).last().0 == "Amh"@);
    }
    proof {
        reveal_strlit("unknown");
        reveal_strlit("Ara");
        assert("unknown"@.len() == 7);
        assert("Ara"@.len() == 3);
        assert(code_key("Ara"@) == 4289121);
    }
    push_override(
        pairs,
        "Ara",
        MultilingualParameters {
            char_coef: 448_951_790,
            word_coef: -534_816_526,
            avg_word_length_coef: 1_796_349_056,
            space_coef: 37_968_999,
            intercept: -7_481_054_644,
        },
    );
    proof {
        assert(pairs_view(pairs@).last().0 == "Ara"@);
    }
    proof {
        reveal_strlit("unknown");
        reveal_strlit("Aze");
        assert("unknown"@.len() == 7);
        assert("Aze"@.len() == 3);
        assert(code_key("Aze"@) == 4291173);
    }
    push_override(
        pairs,
        "Aze",
        MultilingualParameters {
            char_coef: 150_549_965,
            word_coef: 1_296_699_278,
            avg_word_length_coef: 624_365_212,
            space_coef: -48_975_428,
            intercept: -2_081_422_011,
        },
    );
    proof {
        assert(pairs_view(pairs@).last().0 == "Aze"@);
    }
    proof {
        reveal_strlit("unknown");
        reveal_strlit("Bel");
        assert("unknown"@.len() == 7);
        assert("Bel"@.len() == 3);
        assert(code_key("Bel"@) == 4351340);
    }
    push_override(
        pairs,
        "Bel",
        MultilingualParameters {
            char_coef: 168_978_994,
            word_coef: 1_238_561_405,
            avg_word_length_coef: 611_870_776,
            space_coef: 1_344_537,
            intercept: -1_881_022_525,
        },
    );
    proof {
        assert(pairs_view(pairs@).last().0 == "Bel"@);
    }
    proof {
        reveal_strlit("unknown");
        reveal_strlit("Ben");
        assert("unknown"@.len() == 7);
        assert("Ben"@.len() == 3);
        assert(code_key("Ben"@) == 4351342);
    }
    push_override(
        pairs,
        "Ben",
        MultilingualParameters {
            char_coef: 381_096_916,
            word_coef: 2_497_910_425,
            avg_word_length_coef: 75_666_717,
            space_coef: -2_467_325_160,
            intercept: -1_481_870_606,
        },
    );
    proof {
        assert(pairs_view(pairs@).last().0 == "Ben"@);
    }
    proof {
        reveal_strlit("unknown");
        reveal_strlit("Bul");
        assert("unknown"@.len() == 7);
        assert("Bul"@.len() == 3);
        assert(code_key("Bul"@) == 4355436);
    }
    push_override(
        pairs,
        "Bul",
        MultilingualParameters {
            char_coef: 197_810_608,
            word_coef: 913_344_608,
            avg_word_length_coef: 575_368_869,
            space_coef: -59_070_418,
            intercept: -1_285_342_658,
        },
    );
    proof {
        assert(pairs_view(pairs@).last().0 == "Bul"@);
    }
    proof {
        reveal_strlit("unknown");
        reveal_strlit("Cat");
        assert("unknown"@.len() == 7);
        assert("Cat"@.len() == 3);
        assert(code_key("Cat"@) == 4415860);
    }
    push_override(
        pairs,
        "Cat",
        MultilingualParameters {
            char_coef: 231_486_150,
            word_coef: 376_022_592,
            avg_word_length_coef: 557_361_456,
            space_coef: -109_809_454,
            intercept: -280_479_115,
        },
    );
    proof {
        assert(pairs_view(pairs@).last().0 == "Cat"@);
    }
    proof {
        reveal_strlit("unknown");
        reveal_strlit("Ces");
        assert("unknown"@.len() == 7);
        assert("Ces"@.len() == 3);
        assert(code_key("Ces"@) == 4416883);
    }
    push_override(
        pairs,
        "Ces",
        MultilingualParameters {
            char_coef: 265_647_368,
            word_coef: 576_914_711,
            avg_word_length_coef: 553_759_687,
            space_coef: -139_944_020,
            intercept: -1_211_770_781,
        },
    );
    proof {
        assert(pairs_view(pairs@).last().0 == "Ces"@);
    }
    proof {
        assert(pairs_view(pairs@) =~= pairs_view(old(pairs)@) + overrides_chunk_0());
    }
}

spec fn overrides_chunk_1() -> Seq<(Seq<char>, MultilingualParameters)> {
    seq![
        (
            "Cmn"@,
            MultilingualParameters {
                char_coef: 778_985_898i64,
                word_coef: -722_326_831i64,
                avg_word_length_coef: 15_416_762i64,
                space_coef: -134_724_714i64,
                intercept: 4_863_725_471i64,
            },
        ),
        (
            "Dan"@,
            MultilingualParameters {
                char_coef: 264_602_484i64,
                word_coef: 120_903_495i64,
                avg_word_length_coef: 377_937_212i64,
                space_coef: -66_107_419i64,
                intercept: -13_374_035i64,
            },
        ),
        (
            "Deu"@,
            MultilingualParameters {
                char_coef: 52_462_519i64,
                word_coef: 1_049_888_225i64,
                avg_word_length_coef: 1_736_765_498i64,
                space_coef: 115_150_897i64,
                intercept: -6_480_230_485i64,
            },
        ),
        (
            "Ell"@,
            MultilingualParameters {
                char_coef: 344_483_775i64,
                word_coef: 44_474_366i64,
                avg_word_length_coef: 272_116_970i64,
                space_coef: 44_474_366i64,
                intercept: 1_356_178_126i64,
            },
        ),
        (
            "Eng"@,
            MultilingualParameters {
                char_coef: 347_940_961i64,
                word_coef: -542_764_300i64,
                avg_word_length_coef: 79_240_108i64,
                space_coef: -51_343_468i64,
                intercept: 2_846_585_959i64,
            },
        ),
        (
            "Epo"@,
            MultilingualParameters {
                char_coef: 294_970_620i64,
                word_coef: 150_696_985i64,
                avg_word_length_coef: 656_704_518i64,
                space_coef: -61_197_844i64,
                intercept: -1_696_308_268i64,
            },
        ),
        (
            "Est"@,
            MultilingualParameters {
                char_coef: 286_784_935i64,
                word_coef: 178_186_011i64,
                avg_word_length_coef: 308_473_393i64,
                space_coef: -74_143_301i64,
                intercept: 568_113_133i64,
            },
        ),
        (
            "Fin"@,
            MultilingualParameters {
                char_coef: 297_619_349i64,
                word_coef: 118_256_544i64,
                avg_word_length_coef: 161_490_407i64,
                space_coef: -151_008_326i64,
                intercept: 1_458_410_605i64,
            },
        ),
        (
            "Fra"@,
            MultilingualParameters {
                char_coef: 181_841_370i64,
                word_coef: 584_414_068i64,
                avg_word_length_coef: 619_951_525i64,
                space_coef: 47_780_656i64,
                intercept: -1_591_360_576i64,
            },
        ),
        (
            "Guj"@,
            MultilingualParameters {
                char_coef: 403_087_940i64,
                word_coef: -27_772_186i64,
                avg_word_length_coef: 39_507_893i64,
                space_coef: -150_397_092i64,
                intercept: 1_668_836_837i64,
            },
        ),
    ]
}

fn build_chunk_1(pairs: &mut Vec<(String, MultilingualParameters)>)
    requires
        ok_pairs(pairs_view(old(pairs)@)),
        sorted_codes(pairs_view(old(pairs)@)),
        pairs_view(old(pairs)@).len() > 0 ==> code_key(pairs_view(old(pairs)@).last().0)
            < 4418926,
    ensures
        pairs_view(final(pairs)@) == pairs_view(old(pairs)@) + overrides_chunk_1(),
        ok_pairs(pairs_view(final(pairs)@)),
        sorted_codes(pairs_view(final(pairs)@)),
        pairs_view(final(pairs)@).len() > 0,
        code_key(pairs_view(final(pairs)@).last().0) == 4683114,
{
    proof {
        reveal_strlit("unknown");
        reveal_strlit("Cmn");
        assert("unknown"@.len() == 7);
        assert("Cmn"@.len() == 3);
        assert(code_key("Cmn"@) == 4418926);
    }
    push_override(
        pairs,
        "Cmn",
        MultilingualParameters {
            char_coef: 778_985_898,
            word_coef: -722_326_831,
            avg_word_length_coef: 15_416_762,
            space_coef: -134_724_714,
            intercept: 4_863_725_471,
        },
    );
    proof {
        assert(pairs_view(pairs@).last().0 == "Cmn"@);
    }
    proof {
        reveal_strlit("unknown");
        reveal_strlit("Dan");
        assert("unknown"@.len() == 7);
        assert("Dan"@.len() == 3);
        assert(code_key("Dan"@) == 4481390);
    }
    push_override(
        pairs,
        "Dan",
        MultilingualParameters {
            char_coef: 264_602_484,
            word_coef: 120_903_495,
            avg_word_length_coef: 377_937_212,
            space_coef: -66_107_419,
            intercept: -13_374_035,
        },
    );
    proof {
        assert(pairs_view(pairs@).last().0 == "Dan"@);
    }
    proof {
        reveal_strlit("unknown");
        reveal_strlit("Deu");
        assert("unknown"@.len() == 7);
        assert("Deu"@.len() == 3);
        assert(code_key("Deu"@) == 4482421);
    }
    push_override(
        pairs,
        "Deu",
        MultilingualParameters {
            char_coef: 52_462_519,
            word_coef: 1_049_888_225,
            avg_word_length_coef: 1_736_765_498,
            space_coef: 115_150_897,
            intercept: -6_480_230_485,
        },
    );
    proof {
        assert(pairs_view(pairs@).last().0 == "Deu"@);
    }
    proof {
        reveal_strlit("unknown");
        reveal_strlit("Ell");
        assert("unknown"@.len() == 7);
        assert("Ell"@.len() == 3);
        assert(code_key("Ell"@) == 4549740);
    }
    push_override(
        pairs,
        "Ell",
        MultilingualParameters {
            char_coef: 344_483_775,
            word_coef: 44_474_366,
            avg_word_length_coef: 272_116_970,
            space_coef: 44_474_366,
            intercept: 1_356_178_126,
        },
    );
    proof {
        assert(pairs_view(pairs@).last().0 == "Ell"@);
    }
    proof {
        reveal_strlit("unknown");
        reveal_strlit("Eng");
        assert("unknown"@.len() == 7);
        assert("Eng"@.len() == 3);
        assert(code_key("Eng"@) == 4550247);
    }
    push_override(
        pairs,
        "Eng",
        MultilingualParameters {
            char_coef: 347_940_961,
            word_coef: -542_764_300,
            avg_word_length_coef: 79_240_108,
            space_coef: -51_343_468,
            intercept: 2_846_585_959,
        },
    );
    proof {
        assert(pairs_view(pairs@).last().0 == "Eng"@);
    }
    proof {
        reveal_strlit("unknown");
        reveal_strlit("Epo");
        assert("unknown"@.len() == 7);
        assert("Epo"@.len() == 3);
        assert(code_key("Epo"@) == 4550767);
    }
    push_override(
        pairs,
        "Epo",
        MultilingualParameters {
            char_coef: 294_970_620,
            word_coef: 150_696_985,
            avg_word_length_coef: 656_704_518,
            space_coef: -61_197_844,
            intercept: -1_696_308_268,
        },
    );
    proof {
        assert(pairs_view(pairs@).last().0 == "Epo"@);
    }
    proof {
        reveal_strlit("unknown");
        reveal_strlit("Est");
        assert("unknown"@.len() == 7);
        assert("Est"@.len() == 3);
        assert(code_key("Est"@) == 4551540);
    }
    push_override(
        pairs,
        "Est",
        MultilingualParameters {
            char_coef: 286_784_935,
            word_coef: 178_186_011,
            avg_word_length_coef: 308_473_393,
            space_coef: -74_143_301,
            intercept: 568_113_133,
        },
    );
    proof {
        assert(pairs_view(pairs@).last().0 == "Est"@);
    }
    proof {
        reveal_strlit("unknown");
        reveal_strlit("Fin");
        assert("unknown"@.len() == 7);
        assert("Fin"@.len() == 3);
        assert(code_key("Fin"@) == 4614510);
    }
    push_override(
        pairs,
        "Fin",
        MultilingualParameters {
            char_coef: 297_619_349,
            word_coef: 118_256_544,
            avg_word_length_coef: 161_490_407,
            space_coef: -151_008_326,
            intercept: 1_458_410_605,
        },
    );
    proof {
        assert(pairs_view(pairs@).last().0 == "Fin"@);
    }
    proof {
        reveal_strlit("unknown");
        reveal_strlit("Fra");
        assert("unknown"@.len() == 7);
        assert("Fra"@.len() == 3);
        assert(code_key("Fra"@) == 4616801);
    }
    push_override(
        pairs,
        "Fra",
        MultilingualParameters {
            char_coef: 181_841_370,
            word_coef: 584_414_068,
            avg_word_length_coef: 619_951_525,
            space_coef: 47_780_656,
            intercept: -1_591_360_576,
        },
    );
    proof {
        assert(pairs_view(pairs@).last().0 == "Fra"@);
    }
    proof {
        reveal_strlit("unknown");
        reveal_strlit("Guj");
        assert("unknown"@.len() == 7);
        assert("Guj"@.len() == 3);
        assert(code_key("Guj"@) == 4683114);
    }
    push_override(
        pairs,
        "Guj",
        MultilingualParameters {
            char_coef: 403_087_940,
            word_coef: -27_772_186,
            avg_word_length_coef: 39_507_893,
            space_coef: -150_397_092,
            intercept: 1_668_836_837,
        },
    );
    proof {
        assert(pairs_view(pairs@).last().0 == "Guj"@);
    }
    proof {
        assert(pairs_view(pairs@) =~= pairs_view(old(pairs)@) + overrides_chunk_1());
    }
}

spec fn overrides_chunk_2() -> Seq<(Seq<char>, MultilingualParameters)> {
    seq![
        (
            "Heb"@,
            MultilingualParameters {
                char_coef: 448_186_014i64,
                word_coef: -724_861_999i64,
                avg_word_length_coef: -83_529_575i64,
                space_coef: 338_577_638i64,
                intercept: 2_053_279_109i64,
            },
        ),
        (
            "Hin"@,
            MultilingualParameters {
                char_coef: 505_749_294i64,
                word_coef: -4_371_087_648i64,
                avg_word_length_coef: 65_172_536i64,
                space_coef: 3_405_274_938i64,
                intercept: 5_798_711_157i64,
            },
        ),
        (
            "Hrv"@,
            MultilingualParameters {
                char_coef: 226_682_644i64,
                word_coef: 560_979_767i64,
                avg_word_length_coef: 230_541_744i64,
                space_coef: -66_625_035i64,
                intercept: 650_102_767i64,
            },
        ),
        (
            "Hun"@,
            MultilingualParameters {
                char_coef: 369_450_082i64,
                word_coef: 12_182_804i64,
                avg_word_length_coef: 135_007_326i64,
                space_coef: -192_683_471i64,
                intercept: 1_106_456_727i64,
            },
        ),
        (
            "Hye"@,
            MultilingualParameters {
                char_coef: 167_204_674i64,
                word_coef: 515_362_953i64,
                avg_word_length_coef: 742_598_116i64,
                space_coef: 515_362_953i64,
                intercept: 794_592_842i64,
            },
        ),
        (
            "Ind"@,
            MultilingualParameters {
                char_coef: 266_997_715i64,
                word_coef: 8_724_930i64,
                avg_word_length_coef: 155_391_036i64,
                space_coef: -92_434_404i64,
                intercept: 2_057_283_128i64,
            },
        ),
        (
            "Ita"@,
            MultilingualParameters {
                char_coef: 129_156_681i64,
                word_coef: 1_086_345_575i64,
                avg_word_length_coef: 928_764_527i64,
                space_coef: -125_904_893i64,
                intercept: -3_004_418_441i64,
            },
        ),
        (
            "Jav"@,
            MultilingualParameters {
                char_coef: 265_739_992i64,
                word_coef: 384_224_077i64,
                avg_word_length_coef: 664_647_836i64,
                space_coef: -181_259_608i64,
                intercept: -1_875_358_354i64,
            },
        ),
        (
            "Jpn"@,
            MultilingualParameters {
                char_coef: 726_210_547i64,
                word_coef: 1_621_928_468i64,
                avg_word_length_coef: 37_694_008i64,
                space_coef: -1_396_805_849i64,
                intercept: -2_105_511_887i64,
            },
        ),
        (
            "Kan"@,
            MultilingualParameters {
                char_coef: 265_214_059i64,
                word_coef: 2_290_728_856i64,
                avg_word_length_coef: 401_411_966i64,
                space_coef: -1_427_957_452i64,
                intercept: -2_406_248_035i64,
            },
        ),
    ]
}

fn build_chunk_2(pairs: &mut Vec<(String, MultilingualParameters)>)
    requires
        ok_pairs(pairs_view(old(pairs)@)),
        sorted_codes(pairs_view(old(pairs)@)),
        pairs_view(old(pairs)@).len() > 0 ==> code_key(pairs_view(old(pairs)@).last().0)
            < 4744546,
    ensures
        pairs_view(final(pairs)@) == pairs_view(old(pairs)@) + overrides_chunk_2(),
        ok_pairs(pairs_view(final(pairs)@)),
        sorted_codes(pairs_view(final(pairs)@)),
        pairs_view(final(pairs)@).len() > 0,
        code_key(pairs_view(final(pairs)@).last().0) == 4940142,
{
    proof {
        reveal_strlit("unknown");
        reveal_strlit("Heb");
        assert("unknown"@.len() == 7);
        assert("Heb"@.len() == 3);
        assert(code_key("Heb"@) == 4744546);
    }
    push_override(
        pairs,
        "Heb",
        MultilingualParameters {
            char_coef: 448_186_014,
            word_coef: -724_861_999,
            avg_word_length_coef: -83_529_575,
            space_coef: 338_577_638,
            intercept: 2_053_279_109,
        },
    );
    proof {
        assert(pairs_view(pairs@).last().0 == "Heb"@);
    }
    proof {
        reveal_strlit("unknown");
        reveal_strlit("Hin");
        assert("unknown"@.len() == 7);
        assert("Hin"@.len() == 3);
        assert(code_key("Hin"@) == 4745582);
    }
    push_override(
        pairs,
        "Hin",
        MultilingualParameters {
            char_coef: 505_749_294,
            word_coef: -4_371_087_648,
            avg_word_length_coef: 65_172_536,
            space_coef: 3_405_274_938,
            intercept: 5_798_711_157,
        },
    );
    proof {
        assert(pairs_view(pairs@).last().0 == "Hin"@);
    }
    proof {
        reveal_strlit("unknown");
        reveal_strlit("Hrv");
        assert("unknown"@.len() == 7);
        assert("Hrv"@.len() == 3);
        assert(code_key("Hrv"@) == 4747894);
    }
    push_override(
        pairs,
        "Hrv",
        MultilingualParameters {
            char_coef: 226_682_644,
            word_coef: 560_979_767,
            avg_word_length_coef: 230_541_744,
            space_coef: -66_625_035,
            intercept: 650_102_767,
        },
    );
    proof {
        assert(pairs_view(pairs@).last().0 == "Hrv"@);
    }
    proof {
        reveal_strlit("unknown");
        reveal_strlit("Hun");
        assert("unknown"@.len() == 7);
        assert("Hun"@.len() == 3);
        assert(code_key("Hun"@) == 4748654);
    }
    push_override(
        pairs,
        "Hun",
        MultilingualParameters {
            char_coef: 369_450_082,
            word_coef: 12_182_804,
            avg_word_length_coef: 135_007_326,
            space_coef: -192_683_471,
            intercept: 1_106_456_727,
        },
    );
    proof {
        assert(pairs_view(pairs@).last().0 == "Hun"@);
    }
    proof {
        reveal_strlit("unknown");
        reveal_strlit("Hye");
        assert("unknown"@.len() == 7);
        assert("Hye"@.len() == 3);
        assert(code_key("Hye"@) == 4749669);
    }
    push_override(
        pairs,
        "Hye",
        MultilingualParameters {
            char_coef: 167_204_674,
            word_coef: 515_362_953,
            avg_word_length_coef: 742_598_116,
            space_coef: 515_362_953,
            intercept: 794_592_842,
        },
    );
    proof {
        assert(pairs_view(pairs@).last().0 == "Hye"@);
    }
    proof {
        reveal_strlit("unknown");
        reveal_strlit("Ind");
        assert("unknown"@.len() == 7);
        assert("Ind"@.len() == 3);
        assert(code_key("Ind"@) == 4812388);
    }
    push_override(
        pairs,
        "Ind",
        MultilingualParameters {
            char_coef: 266_997_715,
            word_coef: 8_724_930,
            avg_word_length_coef: 155_391_036,
            space_coef: -92_434_404,
            intercept: 2_057_283_128,
        },
    );
    proof {
        assert(pairs_view(pairs@).last().0 == "Ind"@);
    }
    proof {
        reveal_strlit("unknown");
        reveal_strlit("Ita");
        assert("unknown"@.len() == 7);
        assert("Ita"@.len() == 3);
        assert(code_key("Ita"@) == 4813921);
    }
    push_override(
        pairs,
        "Ita",
        MultilingualParameters {
            char_coef: 129_156_681,
            word_coef: 1_086_345_575,
            avg_word_length_coef: 928_764_527,
            space_coef: -125_904_893,
            intercept: -3_004_418_441,
        },
    );
    proof {
        assert(pairs_view(pairs@).last().0 == "Ita"@);
    }
    proof {
        reveal_strlit("unknown");
        reveal_strlit("Jav");
        assert("unknown"@.len() == 7);
        assert("Jav"@.len() == 3);
        assert(code_key("Jav"@) == 4874614);
    }
    push_override(
        pairs,
        "Jav",
        MultilingualParameters {
            char_coef: 265_739_992,
            word_coef: 384_224_077,
            avg_word_length_coef: 664_647_836,
            space_coef: -181_259_608,
            intercept: -1_875_358_354,
        },
    );
    proof {
        assert(pairs_view(pairs@).last().0 == "Jav"@);
    }
    proof {
        reveal_strlit("unknown");
        reveal_strlit("Jpn");
        assert("unknown"@.len() == 7);
        assert("Jpn"@.len() == 3);
        assert(code_key("Jpn"@) == 4878446);
    }
    push_override(
        pairs,
        "Jpn",
        MultilingualParameters {
            char_coef: 726_210_547,
            word_coef: 1_621_928_468,
            avg_word_length_coef: 37_694_008,
            space_coef: -1_396_805_849,
            intercept: -2_105_511_887,
        },
    );
    proof {
        assert(pairs_view(pairs@).last().0 == "Jpn"@);
    }
    proof {
        reveal_strlit("unknown");
        reveal_strlit("Kan");
        assert("unknown"@.len() == 7);
        assert("Kan"@.len() == 3);
        assert(code_key("Kan"@) == 4940142);
    }
    push_override(
        pairs,
        "Kan",
        MultilingualParameters {
            char_coef: 265_214_059,
            word_coef: 2_290_728_856,
            avg_word_length_coef: 401_411_966,
            space_coef: -1_427_957_452,
            intercept: -2_406_248_035,
        },
    );
    proof {
        assert(pairs_view(pairs@).last().0 == "Kan"@);
    }
    proof {
        assert(pairs_view(pairs@) =~= pairs_view(old(pairs)@) + overrides_chunk_2());
    }
}

spec fn overrides_chunk_3() -> Seq<(Seq<char>, MultilingualParameters)> {
    seq![
        (
            "Kat"@,
            MultilingualParameters {
                char_coef: 219_737_571i64,
                word_coef: -3_162_133_692i64,
                avg_word_length_coef: 417_410_553i64,
                space_coef: 3_985_248_694i64,
                intercept: 4_024_715_778i64,
            },
        ),
        (
            "Khm"@,
            MultilingualParameters {
                char_coef: 567_110_841i64,
                word_coef: 91_671_199i64,
                avg_word_length_coef: -6_501_966i64,
                space_coef: -477_853_578i64,
                intercept: 1_429_142_731i64,
            },
        ),
        (
            "Kor"@,
            MultilingualParameters {
                char_coef: 710_537_523i64,
                word_coef: -126_554_941i64,
                avg_word_length_coef: 245_565_437i64,
                space_coef: -409_440_245i64,
                intercept: 893_999_485i64,
            },
        ),
        (
            "Lat"@,
            MultilingualParameters {
                char_coef: 284_913_072i64,
                word_coef: -17_981_091i64,
                avg_word_length_coef: 643_572_610i64,
                space_coef: -165_926_430i64,
                intercept: 1_091_371_110i64,
            },
        ),
        (
            "Lav"@,
            MultilingualParameters {
                char_coef: 317_636_151i64,
                word_coef: -415_665_185i64,
                avg_word_length_coef: 307_105_692i64,
                space_coef: 673_635_228i64,
                intercept: 597_535_965i64,
            },
        ),
        (
            "Lit"@,
            MultilingualParameters {
                char_coef: 290_015_929i64,
                word_coef: 461_790_840i64,
                avg_word_length_coef: 524_538_094i64,
                space_coef: -101_477_749i64,
                intercept: -1_120_285_305i64,
            },
        ),
        (
            "Mal"@,
            MultilingualParameters {
                char_coef: 278_960_517i64,
                word_coef: 515_930_974i64,
                avg_word_length_coef: 227_686_766i64,
                space_coef: 133_113_598i64,
                intercept: 371_104_190i64,
            },
        ),
        (
            "Mar"@,
            MultilingualParameters {
                char_coef: 335_695_333i64,
                word_coef: -3_356_625_868i64,
                avg_word_length_coef: 394_705_427i64,
                space_coef: 3_520_453_664i64,
                intercept: 4_439_645_488i64,
            },
        ),
        (
            "Mkd"@,
            MultilingualParameters {
                char_coef: 266_824_319i64,
                word_coef: 887_673_291i64,
                avg_word_length_coef: 315_117_418i64,
                space_coef: -461_011_859i64,
                intercept: 50_053_525i64,
            },
        ),
        (
            "Mya"@,
            MultilingualParameters {
                char_coef: 550_452_858i64,
                word_coef: -4_362_024_125i64,
                avg_word_length_coef: -12_908_283i64,
                space_coef: 3_867_799_397i64,
                intercept: 6_865_765_199i64,
            },
        ),
    ]
}

fn build_chunk_3(pairs: &mut Vec<(String, MultilingualParameters)>)
    requires
        ok_pairs(pairs_view(old(pairs)@)),
        sorted_codes(pairs_view(old(pairs)@)),
        pairs_view(old(pairs)@).len() > 0 ==> code_key(pairs_view(old(pairs)@).last().0)
            < 4940148,
    ensures
        pairs_view(final(pairs)@) == pairs_view(old(pairs)@) + overrides_chunk_3(),
        ok_pairs(pairs_view(final(pairs)@)),
        sorted_codes(pairs_view(final(pairs)@)),
        pairs_view(final(pairs)@).len() > 0,
        code_key(pairs_view(final(pairs)@).last().0) == 5077345,
{
    proof {
        reveal_strlit("unknown");
        reveal_strlit("Kat");
        assert("unknown"@.len() == 7);
        assert("Kat"@.len() == 3);
        assert(code_key("Kat"@) == 4940148);
    }
    push_override(
        pairs,
        "Kat",
        MultilingualParameters {
            char_coef: 219_737_571,
            word_coef: -3_162_133_692,
            avg_word_length_coef: 417_410_553,
            space_coef: 3_985_248_694,
            intercept: 4_024_715_778,
        },
    );
    proof {
        assert(pairs_view(pairs@).last().0 == "Kat"@);
    }
    proof {
        reveal_strlit("unknown");
        reveal_strlit("Khm");
        assert("unknown"@.len() == 7);
        assert("Khm"@.len() == 3);
        assert(code_key("Khm"@) == 4941933);
    }
    push_override(
        pairs,
        "Khm",
        MultilingualParameters {
            char_coef: 567_110_841,
            word_coef: 91_671_199,
            avg_word_length_coef: -6_501_966,
            space_coef: -477_853_578,
            intercept: 1_429_142_731,
        },
    );
    proof {
        assert(pairs_view(pairs@).last().0 == "Khm"@);
    }
    proof {
        reveal_strlit("unknown");
        reveal_strlit("Kor");
        assert("unknown"@.len() == 7);
        assert("Kor"@.len() == 3);
        assert(code_key("Kor"@) == 4943730);
    }
    push_override(
        pairs,
        "Kor",
        MultilingualParameters {
            char_coef: 710_537_523,
            word_coef: -126_554_941,
            avg_word_length_coef: 245_565_437,
            space_coef: -409_440_245,
            intercept: 893_999_485,
        },
    );
    proof {
        assert(pairs_view(pairs@).last().0 == "Kor"@);
    }
    proof {
        reveal_strlit("unknown");
        reveal_strlit("Lat");
        assert("unknown"@.len() == 7);
        assert("Lat"@.len() == 3);
        assert(code_key("Lat"@) == 5005684);
    }
    push_override(
        pairs,
        "Lat",
        MultilingualParameters {
            char_coef: 284_913_072,
            word_coef: -17_981_091,
            avg_word_length_coef: 643_572_610,
            space_coef: -165_926_430,
            intercept: 1_091_371_110,
        },
    );
    proof {
        assert(pairs_view(pairs@).last().0 == "Lat"@);
    }
    proof {
        reveal_strlit("unknown");
        reveal_strlit("Lav");
        assert("unknown"@.len() == 7);
        assert("Lav"@.len() == 3);
        assert(code_key("Lav"@) == 5005686);
    }
    push_override(
        pairs,
        "Lav",
        MultilingualParameters {
            char_coef: 317_636_151,
            word_coef: -415_665_185,
            avg_word_length_coef: 307_105_692,
            space_coef: 673_635_228,
            intercept: 597_535_965,
        },
    );
    proof {
        assert(pairs_view(pairs@).last().0 == "Lav"@);
    }
    proof {
        reveal_strlit("unknown");
        reveal_strlit("Lit");
        assert("unknown"@.len() == 7);
        assert("Lit"@.len() == 3);
        assert(code_key("Lit"@) == 5007732);
    }
    push_override(
        pairs,
        "Lit",
        MultilingualParameters {
            char_coef: 290_015_929,
            word_coef: 461_790_840,
            avg_word_length_coef: 524_538_094,
            space_coef: -101_477_749,
            intercept: -1_120_285_305,
        },
    );
    proof {
        assert(pairs_view(pairs@).last().0 == "Lit"@);
    }
    proof {
        reveal_strlit("unknown");
        reveal_strlit("Mal");
        assert("unknown"@.len() == 7);
        assert("Mal"@.len() == 3);
        assert(code_key("Mal"@) == 5071212);
    }
    push_override(
        pairs,
        "Mal",
        MultilingualParameters {
            char_coef: 278_960_517,
            word_coef: 515_930_974,
            avg_word_length_coef: 227_686_766,
            space_coef: 133_113_598,
            intercept: 371_104_190,
        },
    );
    proof {
        assert(pairs_view(pairs@).last().0 == "Mal"@);
    }
    proof {
        reveal_strlit("unknown");
        reveal_strlit("Mar");
        assert("unknown"@.len() == 7);
        assert("Mar"@.len() == 3);
        assert(code_key("Mar"@) == 5071218);
    }
    push_override(
        pairs,
        "Mar",
        MultilingualParameters {
            char_coef: 335_695_333,
            word_coef: -3_356_625_868,
            avg_word_length_coef: 394_705_427,
            space_coef: 3_520_453_664,
            intercept: 4_439_645_488,
        },
    );
    proof {
        assert(pairs_view(pairs@).last().0 == "Mar"@);
    }
    proof {
        reveal_strlit("unknown");
        reveal_strlit("Mkd");
        assert("unknown"@.len() == 7);
        assert("Mkd"@.len() == 3);
        assert(code_key("Mkd"@) == 5073764);
    }
    push_override(
        pairs,
        "Mkd",
        MultilingualParameters {
            char_coef: 266_824_319,
            word_coef: 887_673_291,
            avg_word_length_coef: 315_117_418,
            space_coef: -461_011_859,
            intercept: 50_053_525,
        },
    );
    proof {
        assert(pairs_view(pairs@).last().0 == "Mkd"@);
    }
    proof {
        reveal_strlit("unknown");
        reveal_strlit("Mya");
        assert("unknown"@.len() == 7);
        assert("Mya"@.len() == 3);
        assert(code_key("Mya"@) == 5077345);
    }
    push_override(
        pairs,
        "Mya",
        MultilingualParameters {
            char_coef: 550_452_858,
            word_coef: -4_362_024_125,
            avg_word_length_coef: -12_908_283,
            space_coef: 3_867_799_397,
            intercept: 6_865_765_199,
        },
    );
    proof {
        assert(pairs_view(pairs@).last().0 == "Mya"@);
    }
    proof {
        assert(pairs_view(pairs@) =~= pairs_view(old(pairs)@) + overrides_chunk_3());
    }
}

spec fn overrides_chunk_4() -> Seq<(Seq<char>, MultilingualParameters)> {
    seq![
        (
            "Nep"@,
            MultilingualParameters {
                char_coef: 342_389_979i64,
                word_coef: 630_167_454i64,
                avg_word_length_coef: 402_728_824i64,
                space_coef: -777_461_407i64,
                intercept: 1_328_414_664i64,
            },
        ),
        (
            "Nld"@,
            MultilingualParameters {
                char_coef: 130_568_603i64,
                word_coef: 420_067_336i64,
                avg_word_length_coef: 1_231_469_529i64,
                space_coef: 397_493_446i64,
                intercept: -4_542_935_242i64,
            },
        ),
        (
            "Nob"@,
            MultilingualParameters {
                char_coef: 263_635_489i64,
                word_coef: 84_901_249i64,
                avg_word_length_coef: 385_207_824i64,
                space_coef: -8_363_600i64,
                intercept: 127_879_627i64,
            },
        ),
        (
            "Ori"@,
            MultilingualParameters {
                char_coef: 1_043_949_238i64,
                word_coef: 18_565_430_966i64,
                avg_word_length_coef: -346_728_987i64,
                space_coef: -18_914_978_230i64,
                intercept: -17_825_133_649i64,
            },
        ),
        (
            "Pan"@,
            MultilingualParameters {
                char_coef: 720_789_381i64,
                word_coef: -495_325_491i64,
                avg_word_length_coef: 20_408_281i64,
                space_coef: -495_325_491i64,
                intercept: 1_183_623_071i64,
            },
        ),
        (
            "Pes"@,
            MultilingualParameters {
                char_coef: 607_071_105i64,
                word_coef: 2_433_947_609i64,
                avg_word_length_coef: 10_493_364i64,
                space_coef: -3_657_873_125i64,
                intercept: -2_719_875_275i64,
            },
        ),
        (
            "Pol"@,
            MultilingualParameters {
                char_coef: 235_336_657i64,
                word_coef: 562_765_529i64,
                avg_word_length_coef: 743_348_637i64,
                space_coef: -93_098_260i64,
                intercept: -1_397_406_126i64,
            },
        ),
        (
            "Por"@,
            MultilingualParameters {
                char_coef: 393_942_180i64,
                word_coef: -559_172_380i64,
                avg_word_length_coef: 27_602_540i64,
                space_coef: -213_297_951i64,
                intercept: 2_019_973_558i64,
            },
        ),
        (
            "Ron"@,
            MultilingualParameters {
                char_coef: 185_527_950i64,
                word_coef: 538_174_030i64,
                avg_word_length_coef: 733_250_681i64,
                space_coef: 82_862_737i64,
                intercept: -1_093_957_424i64,
            },
        ),
        (
            "Rus"@,
            MultilingualParameters {
                char_coef: 209_510_345i64,
                word_coef: 681_566_127i64,
                avg_word_length_coef: 404_434_151i64,
                space_coef: -108_475_124i64,
                intercept: 2_173_346_162i64,
            },
        ),
    ]
}

fn build_chunk_4(pairs: &mut Vec<(String, MultilingualParameters)>)
    requires
        ok_pairs(pairs_view(old(pairs)@)),
        sorted_codes(pairs_view(old(pairs)@)),
        pairs_view(old(pairs)@).len() > 0 ==> code_key(pairs_view(old(pairs)@).last().0)
            < 5137776,
    ensures
        pairs_view(final(pairs)@) == pairs_view(old(pairs)@) + overrides_chunk_4(),
        ok_pairs(pairs_view(final(pairs)@)),
        sorted_codes(pairs_view(final(pairs)@)),
        pairs_view(final(pairs)@).len() > 0,
        code_key(pairs_view(final(pairs)@).last().0) == 5404019,
{
    proof {
        reveal_strlit("unknown");
        reveal_strlit("Nep");
        assert("unknown"@.len() == 7);
        assert("Nep"@.len() == 3);
        assert(code_key("Nep"@) == 5137776);
    }
    push_override(
        pairs,
        "Nep",
        MultilingualParameters {
            char_coef: 342_389_979,
            word_coef: 630_167_454,
            avg_word_length_coef: 402_728_824,
            space_coef: -777_461_407,
            intercept: 1_328_414_664,
        },
    );
    proof {
        assert(pairs_view(pairs@).last().0 == "Nep"@);
    }
    proof {
        reveal_strlit("unknown");
        reveal_strlit("Nld");
        assert("unknown"@.len() == 7);
        assert("Nld"@.len() == 3);
        assert(code_key("Nld"@) == 5139556);
    }
    push_override(
        pairs,
        "Nld",
        MultilingualParameters {
            char_coef: 130_568_603,
            word_coef: 420_067_336,
            avg_word_length_coef: 1_231_469_529,
            space_coef: 397_493_446,
            intercept: -4_542_935_242,
        },
    );
    proof {
        assert(pairs_view(pairs@).last().0 == "Nld"@);
    }
    proof {
        reveal_strlit("unknown");
        reveal_strlit("Nob");
        assert("unknown"@.len() == 7);
        assert("Nob"@.len() == 3);
        assert(code_key("Nob"@) == 5140322);
    }
    push_override(
        pairs,
        "Nob",
        MultilingualParameters {
            char_coef: 263_635_489,
            word_coef: 84_901_249,
            avg_word_length_coef: 385_207_824,
            space_coef: -8_363_600,
            intercept: 127_879_627,
        },
    );
    proof {
        assert(pairs_view(pairs@).last().0 == "Nob"@);
    }
    proof {
        reveal_strlit("unknown");
        reveal_strlit("Ori");
        assert("unknown"@.len() == 7);
        assert("Ori"@.len() == 3);
        assert(code_key("Ori"@) == 5206633);
    }
    push_override(
        pairs,
        "Ori",
        MultilingualParameters {
            char_coef: 1_043_949_238,
            word_coef: 18_565_430_966,
            avg_word_length_coef: -346_728_987,
            space_coef: -18_914_978_230,
            intercept: -17_825_133_649,
        },
    );
    proof {
        assert(pairs_view(pairs@).last().0 == "Ori"@);
    }
    proof {
        reveal_strlit("unknown");
        reveal_strlit("Pan");
        assert("unknown"@.len() == 7);
        assert("Pan"@.len() == 3);
        assert(code_key("Pan"@) == 5267822);
    }
    push_override(
        pairs,
        "Pan",
        MultilingualParameters {
            char_coef: 720_789_381,
            word_coef: -495_325_491,
            avg_word_length_coef: 20_408_281,
            space_coef: -495_325_491,
            intercept: 1_183_623_071,
        },
    );
    proof {
        assert(pairs_view(pairs@).last().0 == "Pan"@);
    }
    proof {
        reveal_strlit("unknown");
        reveal_strlit("Pes");
        assert("unknown"@.len() == 7);
        assert("Pes"@.len() == 3);
        assert(code_key("Pes"@) == 5268851);
    }
    push_override(
        pairs,
        "Pes",
        MultilingualParameters {
            char_coef: 607_071_105,
            word_coef: 2_433_947_609,
            avg_word_length_coef: 10_493_364,
            space_coef: -3_657_873_125,
            intercept: -2_719_875_275,
        },
    );
    proof {
        assert(pairs_view(pairs@).last().0 == "Pes"@);
    }
    proof {
        reveal_strlit("unknown");
        reveal_strlit("Pol");
        assert("unknown"@.len() == 7);
        assert("Pol"@.len() == 3);
        assert(code_key("Pol"@) == 5271404);
    }
    push_override(
        pairs,
        "Pol",
        MultilingualParameters {
            char_coef: 235_336_657,
            word_coef: 562_765_529,
            avg_word_length_coef: 743_348_637,
            space_coef: -93_098_260,
            intercept: -1_397_406_126,
        },
    );
    proof {
        assert(pairs_view(pairs@).last().0 == "Pol"@);
    }
    proof {
        reveal_strlit("unknown");
        reveal_strlit("Por");
        assert("unknown"@.len() == 7);
        assert("Por"@.len() == 3);
        assert(code_key("Por"@) == 5271410);
    }
    push_override(
        pairs,
        "Por",
        MultilingualParameters {
            char_coef: 393_942_180,
            word_coef: -559_172_380,
            avg_word_length_coef: 27_602_540,
            space_coef: -213_297_951,
            intercept: 2_019_973_558,
        },
    );
    proof {
        assert(pairs_view(pairs@).last().0 == "Por"@);
    }
    proof {
        reveal_strlit("unknown");
        reveal_strlit("Ron");
        assert("unknown"@.len() == 7);
        assert("Ron"@.len() == 3);
        assert(code_key("Ron"@) == 5402478);
    }
    push_override(
        pairs,
        "Ron",
        MultilingualParameters {
            char_coef: 185_527_950,
            word_coef: 538_174_030,
            avg_word_length_coef: 733_250_681,
            space_coef: 82_862_737,
            intercept: -1_093_957_424,
        },
    );
    proof {
        assert(pairs_view(pairs@).last().0 == "Ron"@);
    }
    proof {
        reveal_strlit("unknown");
        reveal_strlit("Rus");
        assert("unknown"@.len() == 7);
        assert("Rus"@.len() == 3);
        assert(code_key("Rus"@) == 5404019);
    }
    push_override(
        pairs,
        "Rus",
        MultilingualParameters {
            char_coef: 209_510_345,
            word_coef: 681_566_127,
            avg_word_length_coef: 404_434_151,
            space_coef: -108_475_124,
            intercept: 2_173_346_162,
        },
    );
    proof {
        assert(pairs_view(pairs@).last().0 == "Rus"@);
    }
    proof {
        assert(pairs_view(pairs@) =~= pairs_view(old(pairs)@) + overrides_chunk_4());
    }
}

spec fn overrides_chunk_5() -> Seq<(Seq<char>, MultilingualParameters)> {
    seq![
        (
            "Sin"@,
            MultilingualParameters {
                char_coef: 521_055_031i64,
                word_coef: 48_316_937i64,
                avg_word_length_coef: 247_820_972i64,
                space_coef: 48_316_937i64,
                intercept: -602_080_538i64,
            },
        ),
        (
            "Slk"@,
            MultilingualParameters {
                char_coef: 294_148_468i64,
                word_coef: 188_487_772i64,
                avg_word_length_coef: 654_593_418i64,
                space_coef: 106_189_495i64,
                intercept: -1_977_904_796i64,
            },
        ),
        (
            "Slv"@,
            MultilingualParameters {
                char_coef: 259_537_176i64,
                word_coef: 211_946_838i64,
                avg_word_length_coef: 272_996_248i64,
                space_coef: 98_874_278i64,
                intercept: 61_793_035i64,
            },
        ),
        (
            "Sna"@,
            MultilingualParameters {
                char_coef: 309_203_025i64,
                word_coef: -33_129_426i64,
                avg_word_length_coef: 268_482_973i64,
                space_coef: -134_545_597i64,
                intercept: 1_730_865_860i64,
            },
        ),
        (
            "Spa"@,
            MultilingualParameters {
                char_coef: 278_216_823i64,
                word_coef: -116_313_768i64,
                avg_word_length_coef: 989_845_774i64,
                space_coef: -9_481_547i64,
                intercept: -3_068_568_141i64,
            },
        ),
        (
            "Srp"@,
            MultilingualParameters {
                char_coef: 332_058_100i64,
                word_coef: -3_489_181_975i64,
                avg_word_length_coef: 189_626_594i64,
                space_coef: 3_682_860_470i64,
                intercept: 4_827_053_581i64,
            },
        ),
        (
            "Swe"@,
            MultilingualParameters {
                char_coef: 288_396_567i64,
                word_coef: -105_492_575i64,
                avg_word_length_coef: 311_552_832i64,
                space_coef: 77_792_976i64,
                intercept: 357_380_066i64,
            },
        ),
        (
            "Tam"@,
            MultilingualParameters {
                char_coef: 292_547_865i64,
                word_coef: 192_982_848i64,
                avg_word_length_coef: 169_421_127i64,
                space_coef: 192_982_848i64,
                intercept: 1_379_692_619i64,
            },
        ),
        (
            "Tel"@,
            MultilingualParameters {
                char_coef: 395_742_542i64,
                word_coef: -1_483_090_029i64,
                avg_word_length_coef: 111_900_749i64,
                space_coef: 1_392_206_507i64,
                intercept: 3_300_404_628i64,
            },
        ),
        (
            "Tgl"@,
            MultilingualParameters {
                char_coef: 368_266_150i64,
                word_coef: -411_336_991i64,
                avg_word_length_coef: 116_595_465i64,
                space_coef: -82_858_263i64,
                intercept: 1_672_333_472i64,
            },
        ),
    ]
}

fn build_chunk_5(pairs: &mut Vec<(String, MultilingualParameters)>)
    requires
        ok_pairs(pairs_view(old(pairs)@)),
        sorted_codes(pairs_view(old(pairs)@)),
        pairs_view(old(pairs)@).len() > 0 ==> code_key(pairs_view(old(pairs)@).last().0)
            < 5466478,
    ensures
        pairs_view(final(pairs)@) == pairs_view(old(pairs)@) + overrides_chunk_5(),
        ok_pairs(pairs_view(final(pairs)@)),
        sorted_codes(pairs_view(final(pairs)@)),
        pairs_view(final(pairs)@).len() > 0,
        code_key(pairs_view(final(pairs)@).last().0) == 5531500,
{
    proof {
        reveal_strlit("unknown");
        reveal_strlit("Sin");
        assert("unknown"@.len() == 7);
        assert("Sin"@.len() == 3);
        assert(code_key("Sin"@) == 5466478);
    }
    push_override(
        pairs,
        "Sin",
        MultilingualParameters {
            char_coef: 521_055_031,
            word_coef: 48_316_937,
            avg_word_length_coef: 247_820_972,
            space_coef: 48_316_937,
            intercept: -602_080_538,
        },
    );
    proof {
        assert(pairs_view(pairs@).last().0 == "Sin"@);
    }
    proof {
        reveal_strlit("unknown");
        reveal_strlit("Slk");
        assert("unknown"@.len() == 7);
        assert("Slk"@.len() == 3);
        assert(code_key("Slk"@) == 5467243);
    }
    push_override(
        pairs,
        "Slk",
        MultilingualParameters {
            char_coef: 294_148_468,
            word_coef: 188_487_772,
            avg_word_length_coef: 654_593_418,
            space_coef: 106_189_495,
            intercept: -1_977_904_796,
        },
    );
    proof {
        assert(pairs_view(pairs@).last().0 == "Slk"@);
    }
    proof {
        reveal_strlit("unknown");
        reveal_strlit("Slv");
        assert("unknown"@.len() == 7);
        assert("Slv"@.len() == 3);
        assert(code_key("Slv"@) == 5467254);
    }
    push_override(
        pairs,
        "Slv",
        MultilingualParameters {
            char_coef: 259_537_176,
            word_coef: 211_946_838,
            avg_word_length_coef: 272_996_248,
            space_coef: 98_874_278,
            intercept: 61_793_035,
        },
    );
    proof {
        assert(pairs_view(pairs@).last().0 == "Slv"@);
    }
    proof {
        reveal_strlit("unknown");
        reveal_strlit("Sna");
        assert("unknown"@.len() == 7);
        assert("Sna"@.len() == 3);
        assert(code_key("Sna"@) == 5467745);
    }
    push_override(
        pairs,
        "Sna",
        MultilingualParameters {
            char_coef: 309_203_025,
            word_coef: -33_129_426,
            avg_word_length_coef: 268_482_973,
            space_coef: -134_545_597,
            intercept: 1_730_865_860,
        },
    );
    proof {
        assert(pairs_view(pairs@).last().0 == "Sna"@);
    }
    proof {
        reveal_strlit("unknown");
        reveal_strlit("Spa");
        assert("unknown"@.len() == 7);
        assert("Spa"@.len() == 3);
        assert(code_key("Spa"@) == 5468257);
    }
    push_override(
        pairs,
        "Spa",
        MultilingualParameters {
            char_coef: 278_216_823,
            word_coef: -116_313_768,
            avg_word_length_coef: 989_845_774,
            space_coef: -9_481_547,
            intercept: -3_068_568_141,
        },
    );
    proof {
        assert(pairs_view(pairs@).last().0 == "Spa"@);
    }
    proof {
        reveal_strlit("unknown");
        reveal_strlit("Srp");
        assert("unknown"@.len() == 7);
        assert("Srp"@.len() == 3);
        assert(code_key("Srp"@) == 5468784);
    }
    push_override(
        pairs,
        "Srp",
        MultilingualParameters {
            char_coef: 332_058_100,
            word_coef: -3_489_181_975,
            avg_word_length_coef: 189_626_594,
            space_coef: 3_682_860_470,
            intercept: 4_827_053_581,
        },
    );
    proof {
        assert(pairs_view(pairs@).last().0 == "Srp"@);
    }
    proof {
        reveal_strlit("unknown");
        reveal_strlit("Swe");
        assert("unknown"@.len() == 7);
        assert("Swe"@.len() == 3);
        assert(code_key("Swe"@) == 5470053);
    }
    push_override(
        pairs,
        "Swe",
        MultilingualParameters {
            char_coef: 288_396_567,
            word_coef: -105_492_575,
            avg_word_length_coef: 311_552_832,
            space_coef: 77_792_976,
            intercept: 357_380_066,
        },
    );
    proof {
        assert(pairs_view(pairs@).last().0 == "Swe"@);
    }
    proof {
        reveal_strlit("unknown");
        reveal_strlit("Tam");
        assert("unknown"@.len() == 7);
        assert("Tam"@.len() == 3);
        assert(code_key("Tam"@) == 5529965);
    }
    push_override(
        pairs,
        "Tam",
        MultilingualParameters {
            char_coef: 292_547_865,
            word_coef: 192_982_848,
            avg_word_length_coef: 169_421_127,
            space_coef: 192_982_848,
            intercept: 1_379_692_619,
        },
    );
    proof {
        assert(pairs_view(pairs@).last().0 == "Tam"@);
    }
    proof {
        reveal_strlit("unknown");
        reveal_strlit("Tel");
        assert("unknown"@.len() == 7);
        assert("Tel"@.len() == 3);
        assert(code_key("Tel"@) == 5530988);
    }
    push_override(
        pairs,
        "Tel",
        MultilingualParameters {
            char_coef: 395_742_542,
            word_coef: -1_483_090_029,
            avg_word_length_coef: 111_900_749,
            space_coef: 1_392_206_507,
            intercept: 3_300_404_628,
        },
    );
    proof {
        assert(pairs_view(pairs@).last().0 == "Tel"@);
    }
    proof {
        reveal_strlit("unknown");
        reveal_strlit("Tgl");
        assert("unknown"@.len() == 7);
        assert("Tgl"@.len() == 3);
        assert(code_key("Tgl"@) == 5531500);
    }
    push_override(
        pairs,
        "Tgl",
        MultilingualParameters {
            char_coef: 368_266_150,
            word_coef: -411_336_991,
            avg_word_length_coef: 116_595_465,
            space_coef: -82_858_263,
            intercept: 1_672_333_472,
        },
    );
    proof {
        assert(pairs_view(pairs@).last().0 == "Tgl"@);
    }
    proof {
        assert(pairs_view(pairs@) =~= pairs_view(old(pairs)@) + overrides_chunk_5());
    }
}

spec fn overrides_chunk_6() -> Seq<(Seq<char>, MultilingualParameters)> {
    seq![
        (
            "Tha"@,
            MultilingualParameters {
                char_coef: 401_030_413i64,
                word_coef: 1_870_284_437i64,
                avg_word_length_coef: 13_664_357i64,
                space_coef: -1_599_099_814i64,
                intercept: -814_666_657i64,
            },
        ),
        (
            "Tuk"@,
            MultilingualParameters {
                char_coef: 460_642_743i64,
                word_coef: -474_172_974i64,
                avg_word_length_coef: 140_011_681i64,
                space_coef: -285_075_689i64,
                intercept: 814_644_769i64,
            },
        ),
        (
            "Tur"@,
            MultilingualParameters {
                char_coef: 131_414_841i64,
                word_coef: 1_115_495_605i64,
                avg_word_length_coef: 1_041_961_042i64,
                space_coef: 7_915_408i64,
                intercept: -3_347_651_317i64,
            },
        ),
        (
            "Ukr"@,
            MultilingualParameters {
                char_coef: 245_937_537i64,
                word_coef: 781_941_537i64,
                avg_word_length_coef: 280_320_171i64,
                space_coef: -160_253_474i64,
                intercept: -151_163_819i64,
            },
        ),
        (
            "Urd"@,
            MultilingualParameters {
                char_coef: 526_021_787i64,
                word_coef: 280_376_420i64,
                avg_word_length_coef: 615_933_625i64,
                space_coef: -1_188_894_824i64,
                intercept: -1_678_593_140i64,
            },
        ),
        (
            "Uzb"@,
            MultilingualParameters {
                char_coef: 286_919_849i64,
                word_coef: 475_930_462i64,
                avg_word_length_coef: 774_968_135i64,
                space_coef: -178_897_832i64,
                intercept: -3_509_703_935i64,
            },
        ),
        (
            "Vie"@,
            MultilingualParameters {
                char_coef: 447_361_879i64,
                word_coef: -234_423_944i64,
                avg_word_length_coef: -175_378_033i64,
                space_coef: -403_285_974i64,
                intercept: 3_928_208_894i64,
            },
        ),
        (
            "Yid"@,
            MultilingualParameters {
                char_coef: 411_085_596i64,
                word_coef: -1_181_123_578i64,
                avg_word_length_coef: 61_714_329i64,
                space_coef: 878_494_221i64,
                intercept: 2_539_602_573i64,
            },
        ),
        (
            "Zul"@,
            MultilingualParameters {
                char_coef: 289_748_228i64,
                word_coef: 237_853_691i64,
                avg_word_length_coef: 382_596_136i64,
                space_coef: -58_081_061i64,
                intercept: -1_140_620_467i64,
            },
        ),
    ]
}

fn build_chunk_6(pairs: &mut Vec<(String, MultilingualParameters)>)
    requires
        ok_pairs(pairs_view(old(pairs)@)),
        sorted_codes(pairs_view(old(pairs)@)),
        pairs_view(old(pairs)@).len() > 0 ==> code_key(pairs_view(old(pairs)@).last().0)
            < 5531745,
    ensures
        pairs_view(final(pairs)@) == pairs_view(old(pairs)@) + overrides_chunk_6(),
        ok_pairs(pairs_view(final(pairs)@)),
        sorted_codes(pairs_view(final(pairs)@)),
        pairs_view(final(pairs)@).len() > 0,
        code_key(pairs_view(final(pairs)@).last().0) == 5928300,
{
    proof {
        reveal_strlit("unknown");
        reveal_strlit("Tha");
        assert("unknown"@.len() == 7);
        assert("Tha"@.len() == 3);
        assert(code_key("Tha"@) == 5531745);
    }
    push_override(
        pairs,
        "Tha",
        MultilingualParameters {
            char_coef: 401_030_413,
            word_coef: 1_870_284_437,
            avg_word_length_coef: 13_664_357,
            space_coef: -1_599_099_814,
            intercept: -814_666_657,
        },
    );
    proof {
        assert(pairs_view(pairs@).last().0 == "Tha"@);
    }
    proof {
        reveal_strlit("unknown");
        reveal_strlit("Tuk");
        assert("unknown"@.len() == 7);
        assert("Tuk"@.len() == 3);
        assert(code_key("Tuk"@) == 5535083);
    }
    push_override(
        pairs,
        "Tuk",
        MultilingualParameters {
            char_coef: 460_642_743,
            word_coef: -474_172_974,
            avg_word_length_coef: 140_011_681,
            space_coef: -285_075_689,
            intercept: 814_644_769,
        },
    );
    proof {
        assert(pairs_view(pairs@).last().0 == "Tuk"@);
    }
    proof {
        reveal_strlit("unknown");
        reveal_strlit("Tur");
        assert("unknown"@.len() == 7);
        assert("Tur"@.len() == 3);
        assert(code_key("Tur"@) == 5535090);
    }
    push_override(
        pairs,
        "Tur",
        MultilingualParameters {
            char_coef: 131_414_841,
            word_coef: 1_115_495_605,
            avg_word_length_coef: 1_041_961_042,
            space_coef: 7_915_408,
            intercept: -3_347_651_317,
        },
    );
    proof {
        assert(pairs_view(pairs@).last().0 == "Tur"@);
    }
    proof {
        reveal_strlit("unknown");
        reveal_strlit("Ukr");
        assert("unknown"@.len() == 7);
        assert("Ukr"@.len() == 3);
        assert(code_key("Ukr"@) == 5598066);
    }
    push_override(
        pairs,
        "Ukr",
        MultilingualParameters {
            char_coef: 245_937_537,
            word_coef: 781_941_537,
            avg_word_length_coef: 280_320_171,
            space_coef: -160_253_474,
            intercept: -151_163_819,
        },
    );
    proof {
        assert(pairs_view(pairs@).last().0 == "Ukr"@);
    }
    proof {
        reveal_strlit("unknown");
        reveal_strlit("Urd");
        assert("unknown"@.len() == 7);
        assert("Urd"@.len() == 3);
        assert(code_key("Urd"@) == 5599844);
    }
    push_override(
        pairs,
        "Urd",
        MultilingualParameters {
            char_coef: 526_021_787,
            word_coef: 280_376_420,
            avg_word_length_coef: 615_933_625,
            space_coef: -1_188_894_824,
            intercept: -1_678_593_140,
        },
    );
    proof {
        assert(pairs_view(pairs@).last().0 == "Urd"@);
    }
    proof {
        reveal_strlit("unknown");
        reveal_strlit("Uzb");
        assert("unknown"@.len() == 7);
        assert("Uzb"@.len() == 3);
        assert(code_key("Uzb"@) == 5601890);
    }
    push_override(
        pairs,
        "Uzb",
        MultilingualParameters {
            char_coef: 286_919_849,
            word_coef: 475_930_462,
            avg_word_length_coef: 774_968_135,
            space_coef: -178_897_832,
            intercept: -3_509_703_935,
        },
    );
    proof {
        assert(pairs_view(pairs@).last().0 == "Uzb"@);
    }
    proof {
        reveal_strlit("unknown");
        reveal_strlit("Vie");
        assert("unknown"@.len() == 7);
        assert("Vie"@.len() == 3);
        assert(code_key("Vie"@) == 5663077);
    }
    push_override(
        pairs,
        "Vie",
        MultilingualParameters {
            char_coef: 447_361_879,
            word_coef: -234_423_944,
            avg_word_length_coef: -175_378_033,
            space_coef: -403_285_974,
            intercept: 3_928_208_894,
        },
    );
    proof {
        assert(pairs_view(pairs@).last().0 == "Vie"@);
    }
    proof {
        reveal_strlit("unknown");
        reveal_strlit("Yid");
        assert("unknown"@.len() == 7);
        assert("Yid"@.len() == 3);
        assert(code_key("Yid"@) == 5859684);
    }
    push_override(
        pairs,
        "Yid",
        MultilingualParameters {
            char_coef: 411_085_596,
            word_coef: -1_181_123_578,
            avg_word_length_coef: 61_714_329,
            space_coef: 878_494_221,
            intercept: 2_539_602_573,
        },
    );
    proof {
        assert(pairs_view(pairs@).last().0 == "Yid"@);
    }
    proof {
        reveal_strlit("unknown");
        reveal_strlit("Zul");
        assert("unknown"@.len() == 7);
        assert("Zul"@.len() == 3);
        assert(code_key("Zul"@) == 5928300);
    }
    push_override(
        pairs,
        "Zul",
        MultilingualParameters {
            char_coef: 289_748_228,
            word_coef: 237_853_691,
            avg_word_length_coef: 382_596_136,
            space_coef: -58_081_061,
            intercept: -1_140_620_467,
        },
    );
    proof {
        assert(pairs_view(pairs@).last().0 == "Zul"@);
    }
    proof {
        assert(pairs_view(pairs@) =~= pairs_view(old(pairs)@) + overrides_chunk_6());
    }
}

impl Default for MultilingualMethodParameters {
    /// The built-in default parameters: the default coefficient set and
    /// the calibrated per-language override table.
    fn default() -> (r: Self)
        ensures
            r@ == default_store_model(),
            r@.wf(),
    {
        let mut language_params: Vec<(String, MultilingualParameters)> = Vec::new();
        proof {
            assert(pairs_view(language_params@) =~= Seq::<
                (Seq<char>, MultilingualParameters),
            >::empty());
        }
        build_chunk_0(&mut language_params);
        build_chunk_1(&mut language_params);
        build_chunk_2(&mut language_params);
        build_chunk_3(&mut language_params);
        build_chunk_4(&mut language_params);
        build_chunk_5(&mut language_params);
        build_chunk_6(&mut language_params);
        proof {
            assert(pairs_view(language_params@) =~= default_overrides());
            lemma_sorted_codes_unique(pairs_view(language_params@));
        }
        MultilingualMethodParameters {
            default_params: MultilingualParameters::default(),
            language_params,
        }
    }
}

/// An estimate is never negative and always a whole number: the raw linear
/// combination may fall below zero, but the clamp keeps it from surfacing.
pub proof fn lemma_estimate_never_negative(m: MultilingualStoreModel, text: Seq<char>)
    ensures
        spec_estimate(m, text) >= 0,
{
}

/// An override that the store holds is selected for its code, and any
/// other code — the sentinel `"unknown"` among them — falls back to the
/// default coefficient set.
pub proof fn lemma_unregistered_code_falls_back(m: MultilingualStoreModel, code: Seq<char>)
    requires
        !has_code(m.language_params, code),
    ensures
        m.params_for(code) == m.default_params,
{
    lemma_absent_code_lookup_none(m.language_params, code);
}

/// A code that the store does not hold estimates exactly as the sentinel
/// `"unknown"` does, on any features: both fall back to the default
/// coefficient set.
pub proof fn lemma_unregistered_matches_unknown(
    m: MultilingualStoreModel,
    code: Seq<char>,
    c: nat,
    w: nat,
    s: nat,
    awl: nat,
)
    requires
        m.wf(),
        !has_code(m.language_params, code),
    ensures
        spec_estimate_with(m.params_for(code), c, w, s, awl) == spec_estimate_with(
            m.params_for("unknown"@),
            c,
            w,
            s,
            awl,
        ),
{
    lemma_unregistered_code_falls_back(m, code);
    assert(!has_code(m.language_params, "unknown"@));
    lemma_unregistered_code_falls_back(m, "unknown"@);
}

/// Whether every coefficient set the store holds has an intercept below
/// one half in real units, so that an empty text rounds down to zero.
pub open spec fn intercepts_round_down(m: MultilingualStoreModel) -> bool {
    &&& m.default_params.intercept < COEF_SCALE / 2
    &&& forall|i: int|
        0 <= i < m.language_params.len() ==> (#[trigger] m.language_params[i]).1.intercept
            < COEF_SCALE / 2
}

/// On the empty text every feature is zero, so the estimate is the clamped,
/// rounded intercept alone: zero, whenever the selected intercept is below
/// one half in real units.
pub proof fn lemma_empty_text_estimate(m: MultilingualStoreModel)
    requires
        intercepts_round_down(m),
    ensures
        spec_estimate(m, Seq::<char>::empty()) == 0,
{
    let empty = Seq::<char>::empty();
    let p = m.params_for(lang_code_of(empty));
    if spec_lookup(m.language_params, lang_code_of(empty)) is Some {
        lemma_lookup_some_is_entry(m.language_params, lang_code_of(empty));
    }
    assert(p.intercept < COEF_SCALE / 2);
    assert(count_words(empty) == 0 && count_ws(empty) == 0);
    assert(linear_micros(p, 0, 0, 0, 0) == p.intercept * (AVG_SCALE as int));
}


/// Whether the five tokens at `base` all parse as scaled coefficients.
pub open spec fn params_ok_at(toks: Seq<Seq<char>>, base: int) -> bool {
    forall|k: int| base <= k < base + 5 ==> (#[trigger] parse_coef(toks[k])) is Some
}

/// The coefficient set that the five tokens at `base` denote.
pub open spec fn params_at(toks: Seq<Seq<char>>, base: int) -> MultilingualParameters
    recommends
        params_ok_at(toks, base),
{
    MultilingualParameters {
        char_coef: parse_coef(toks[base]).unwrap() as i64,
        word_coef: parse_coef(toks[base + 1]).unwrap() as i64,
        avg_word_length_coef: parse_coef(toks[base + 2]).unwrap() as i64,
        space_coef: parse_coef(toks[base + 3]).unwrap() as i64,
        intercept: parse_coef(toks[base + 4]).unwrap() as i64,
    }
}

/// The language code of the override group `g`: the token before its five
/// coefficients.
pub open spec fn code_at(toks: Seq<Seq<char>>, g: int) -> Seq<char> {
    toks[5 + 6 * g]
}

/// The coefficient set of the override group `g`.
pub open spec fn override_at(toks: Seq<Seq<char>>, g: int) -> MultilingualParameters {
    params_at(toks, 6 + 6 * g)
}

/// Whether the override group `g` is acceptable: its code is not the
/// sentinel `"unknown"` and repeats no earlier group's code, and its five
/// coefficients parse.
pub open spec fn group_ok(toks: Seq<Seq<char>>, g: int) -> bool {
    &&& code_at(toks, g) != "unknown"@
    &&& params_ok_at(toks, 6 + 6 * g)
    &&& forall|h: int| 0 <= h < g ==> #[trigger] code_at(toks, h) != code_at(toks, g)
}

/// The store that a token sequence denotes: five coefficients of the
/// default set, then any number of groups of one language code and its
/// five coefficients. A source with a malformed coefficient, a wrong
/// token count, a duplicated code or the code `"unknown"` denotes nothing.
pub open spec fn parse_store(toks: Seq<Seq<char>>) -> Option<MultilingualStoreModel> {
    if toks.len() < 5 || (toks.len() - 5) % 6 != 0 {
        None
    } else if !params_ok_at(toks, 0) {
        None
    } else if !(forall|g: int| 0 <= g < (toks.len() - 5) / 6 ==> #[trigger] group_ok(toks, g)) {
        None
    } else {
        Some(
            MultilingualStoreModel {
                default_params: params_at(toks, 0),
                language_params: Seq::new(
                    ((toks.len() - 5) / 6) as nat,
                    |g: int| (code_at(toks, g), override_at(toks, g)),
                ),
            },
        )
    }
}

/// The store that a parameter source denotes: its whitespace-separated
/// tokens, read as [`parse_store`] lays them out.
pub open spec fn spec_parse_multilingual(s: Seq<char>) -> Option<MultilingualStoreModel> {
    parse_store(spec_tokens(s))
}

/// Whether `code` is the sentinel `"unknown"`.
fn is_unknown_code(code: &String) -> (r: bool)
    ensures
        r == (code@ == "unknown"@),
{
    let sentinel: String = "unknown".to_owned();
    *code == sentinel
}

/// Reads the five tokens at `base` as one coefficient set.
fn parse_params_at(toks: &Vec<String>, base: usize) -> (r: Option<MultilingualParameters>)
    requires
        base + 5 <= toks@.len(),
    ensures
        (match r {
            Some(p) => {
                &&& params_ok_at(tokens_view(toks@), base as int)
                &&& p == params_at(tokens_view(toks@), base as int)
                &&& p.wf()
            },
            None => !params_ok_at(tokens_view(toks@), base as int),
        }),
{
    let ghost tv = tokens_view(toks@);
    let n = toks.len();
    proof {
        assert(forall|k: int| 0 <= k < toks@.len() ==> #[trigger] tv[k] == toks@[k]@);
        assert(base + 5 <= n);
    }
    let c0 = parse_coef_token(toks[base].as_str());
    let c1 = parse_coef_token(toks[base + 1].as_str());
    let c2 = parse_coef_token(toks[base + 2].as_str());
    let c3 = parse_coef_token(toks[base + 3].as_str());
    let c4 = parse_coef_token(toks[base + 4].as_str());
    match (c0, c1, c2, c3, c4) {
        (Some(v0), Some(v1), Some(v2), Some(v3), Some(v4)) => {
            let p = MultilingualParameters {
                char_coef: v0,
                word_coef: v1,
                avg_word_length_coef: v2,
                space_coef: v3,
                intercept: v4,
            };
            proof {
                assert forall|k: int| base <= k < base + 5 implies (#[trigger] parse_coef(
                    tv[k],
                )) is Some by {
                    assert(tv[k] == toks@[k]@);
                }
                lemma_parse_coef_in_range(tv[base as int]);
                lemma_parse_coef_in_range(tv[base + 1]);
                lemma_parse_coef_in_range(tv[base + 2]);
                lemma_parse_coef_in_range(tv[base + 3]);
                lemma_parse_coef_in_range(tv[base + 4]);
            }
            Some(p)
        },
        _ => {
            proof {
                if params_ok_at(tv, base as int) {
                    assert(parse_coef(tv[base as int]) is Some);
                    assert(parse_coef(tv[base + 1]) is Some);
                    assert(parse_coef(tv[base + 2]) is Some);
                    assert(parse_coef(tv[base + 3]) is Some);
                    assert(parse_coef(tv[base + 4]) is Some);
                }
            }
            None
        },
    }
}

/// Reads a whole token sequence as a parameter store.
fn parse_store_tokens(toks: &Vec<String>) -> (r: Option<MultilingualMethodParameters>)
    ensures
        (match r {
            Some(ps) => {
                &&& parse_store(tokens_view(toks@)) == Some(ps@)
                &&& ps@.wf()
            },
            None => parse_store(tokens_view(toks@)) is None,
        }),
{
    let ghost tv = tokens_view(toks@);
    let n = toks.len();
    if n < 5 {
        return None;
    }
    if (n - 5) % 6 != 0 {
        return None;
    }
    let default_params = match parse_params_at(toks, 0) {
        Some(p) => p,
        None => {
            return None;
        },
    };
    let ngroups = (n - 5) / 6;
    let mut pairs: Vec<(String, MultilingualParameters)> = Vec::new();
    let mut g: usize = 0;
    proof {
        assert(pairs_view(pairs@) =~= Seq::new(
            0,
            (|h: int| (code_at(tv, h), override_at(tv, h))),
        ));
    }
    while g < ngroups
        invariant
            tv == tokens_view(toks@),
            n == toks@.len(),
            n >= 5,
            (n - 5) % 6 == 0,
            ngroups == (n - 5) / 6,
            0 <= g <= ngroups,
            forall|h: int| 0 <= h < g ==> #[trigger] group_ok(tv, h),
            pairs_view(pairs@) =~= Seq::new(
                g as nat,
                (|h: int| (code_at(tv, h), override_at(tv, h))),
            ),
            ok_pairs(pairs_view(pairs@)),
        decreases ngroups - g,
    {
        proof {
            assert(6 * g < 6 * ngroups);
            assert(6 * ngroups <= n - 5) by (nonlinear_arith)
                requires
                    ngroups == (n - 5) / 6,
                    (n - 5) % 6 == 0,
                    n >= 5,
            ;
        }
        let base = 5 + 6 * g;
        let code = toks[base].clone();
        proof {
            assert(tv[base as int] == toks@[base as int]@);
            assert(code@ == code_at(tv, g as int));
        }
        if is_unknown_code(&code) {
            proof {
                assert(!group_ok(tv, g as int));
            }
            return None;
        }
        match lookup_code(&pairs, &code) {
            Some(_) => {
                proof {
                    crate::store::lemma_lookup_some_is_entry(pairs_view(pairs@), code@);
                    let i = choose|i: int|
                        0 <= i < pairs_view(pairs@).len() && pairs_view(pairs@)[i] == (
                            code@,
                            spec_lookup(pairs_view(pairs@), code@).unwrap(),
                        );
                    assert(code_at(tv, i) == code_at(tv, g as int));
                    assert(!group_ok(tv, g as int));
                }
                return None;
            },
            None => {},
        }
        let params = match parse_params_at(toks, base + 1) {
            Some(p) => p,
            None => {
                proof {
                    assert(!group_ok(tv, g as int));
                }
                return None;
            },
        };
        let ghost prev = pairs@;
        pairs.push((code, params));
        proof {
            assert(pairs_view(prev.push((code, params))) =~= pairs_view(prev).push(
                (code@, params),
            ));
            assert(forall|i: int|
                0 <= i < g ==> #[trigger] pairs_view(prev)[i].0 == code_at(tv, i));
            assert forall|h: int| 0 <= h < g implies #[trigger] code_at(tv, h) != code_at(
                tv,
                g as int,
            ) by {
                if code_at(tv, h) == code_at(tv, g as int) {
                    assert(pairs_view(prev)[h].0 == code@);
                    assert(has_code(pairs_view(prev), code@));
                    crate::store::lemma_lookup_some_iff_has_code(pairs_view(prev), code@);
                }
            }
            assert(group_ok(tv, g as int));
            assert(pairs_view(pairs@) =~= Seq::new(
                (g + 1) as nat,
                (|h: int| (code_at(tv, h), override_at(tv, h))),
            ));
        }
        g = g + 1;
    }
    let result = MultilingualMethodParameters { default_params, language_params: pairs };
    proof {
        assert forall|i: int, j: int|
            #![trigger result@.language_params[i], result@.language_params[j]]
            0 <= i < j < result@.language_params.len() implies result@.language_params[i].0
            != result@.language_params[j].0 by {
            assert(group_ok(tv, j));
            assert(result@.language_params[i].0 == code_at(tv, i));
            assert(result@.language_params[j].0 == code_at(tv, j));
        }
        assert(parse_store(tv) == Some(result@));
    }
    Some(result)
}

impl MultilingualMethod {
    /// Reads `source` as a parameter store and, when it is well formed,
    /// replaces the current parameters wholesale. On a malformed source
    /// the parameters are left exactly as they were and failure is
    /// reported; nothing is ever partially applied.
    pub fn load_parameters(&mut self, source: &str) -> (r: bool)
        ensures
            r == (spec_parse_multilingual(source@) is Some),
            r ==> final(self)@ == spec_parse_multilingual(source@).unwrap() && final(self)@.wf(),
            !r ==> final(self)@ == old(self)@,
    {
        let toks = tokenize(source);
        match parse_store_tokens(&toks) {
            Some(params) => {
                self.parameters = params;
                true
            },
            None => false,
        }
    }
}

} // verus!
