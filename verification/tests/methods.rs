use skimtoken::{
    estimate_tokens_multilingual, estimate_tokens_multilingual_simple, MultilingualFeatures,
    MultilingualMethod, MultilingualMethodParameters, MultilingualParameters,
    MultilingualSimpleFeatures, MultilingualSimpleMethod, MultilingualSimpleMethodParameters,
    MultilingualSimpleParameters,
};
use skimtoken::BasicFeatures;

fn simple_store(
    default_coefficient: i64,
    overrides: Vec<(&str, i64)>,
) -> MultilingualSimpleMethodParameters {
    MultilingualSimpleMethodParameters {
        default_params: MultilingualSimpleParameters { coefficient: default_coefficient },
        language_params: overrides
            .into_iter()
            .map(|(code, coefficient)| {
                (code.to_owned(), MultilingualSimpleParameters { coefficient })
            })
            .collect(),
    }
}

#[test]
fn minimal_estimate_is_rounded_product() {
    // With the built-in default coefficient 0.329268293, thirteen
    // characters give round(13 * 0.329268293) = round(4.280...) = 4. The
    // built-in override keys are capitalized while detected codes are
    // lower case, so the default coefficient applies whatever the
    // detected language.
    assert_eq!(estimate_tokens_multilingual_simple("Hello, world!"), 4);
    // round(14 * 0.329268293) = round(4.609...) = 5.
    assert_eq!(estimate_tokens_multilingual_simple("これは日本語のテキストです。"), 5);
}

#[test]
fn empty_text_estimates_to_zero_in_minimal_method() {
    // No characters and no intercept: zero for every coefficient.
    assert_eq!(estimate_tokens_multilingual_simple(""), 0);
    assert_eq!(skimtoken::estimate_tokens(""), 0);

    let mut estimator = MultilingualSimpleMethod::new();
    estimator.set_parameters(simple_store(-900_000_000, vec![]));
    assert_eq!(estimator.estimate(""), 0);
}

#[test]
fn standard_estimate_matches_hand_evaluation() {
    // "Hello, world!": char 13, word 2, space 1, average word length 6.
    // With the built-in default set the linear combination is
    // 0.321807222*13 + 0.140008293*2 + 0.508924617*6 - 0.228335681*1
    // + 1.523645960 = 8.812368453, which rounds to 9.
    assert_eq!(estimate_tokens_multilingual("Hello, world!"), 9);
}

#[test]
fn empty_text_standard_estimate_is_clamped_rounded_intercept() {
    // The built-in default intercept 1.523645960 alone rounds to 2.
    assert_eq!(estimate_tokens_multilingual(""), 2);

    // A negative intercept must be clamped to zero, never surfacing as a
    // negative count.
    let mut estimator = MultilingualMethod::new();
    let mut params = estimator.parameters();
    params.default_params.intercept = -1_500_000_000;
    params.language_params.clear();
    estimator.set_parameters(params);
    assert_eq!(estimator.estimate(""), 0);
}

#[test]
fn set_then_get_round_trip() {
    let mut estimator = MultilingualSimpleMethod::new();
    let params = simple_store(123_000_000, vec![("xyz", 500_000_000), ("abc", 250_000_000)]);
    let expected = simple_store(123_000_000, vec![("xyz", 500_000_000), ("abc", 250_000_000)]);
    estimator.set_parameters(params);
    assert_eq!(estimator.parameters(), expected);

    let mut standard = MultilingualMethod::new();
    let p = MultilingualMethodParameters {
        default_params: MultilingualParameters {
            char_coef: 1,
            word_coef: -2,
            avg_word_length_coef: 3,
            space_coef: -4,
            intercept: 5,
        },
        language_params: vec![(
            "fra".to_owned(),
            MultilingualParameters {
                char_coef: 10,
                word_coef: 20,
                avg_word_length_coef: 30,
                space_coef: 40,
                intercept: 50,
            },
        )],
    };
    let q = MultilingualMethodParameters {
        default_params: p.default_params,
        language_params: p.language_params.clone(),
    };
    standard.set_parameters(p);
    assert_eq!(standard.parameters(), q);
}

#[test]
fn registered_language_uses_its_own_coefficients() {
    // A crafted store holds an override for "xyz". The same character
    // count estimates differently under "xyz" and under "unknown", since
    // the coefficients differ: round(10*0.5) = 5 against round(10*0.25) = 3.
    let mut estimator = MultilingualSimpleMethod::new();
    estimator.set_parameters(simple_store(250_000_000, vec![("xyz", 500_000_000)]));
    let tagged = MultilingualSimpleFeatures { char_count: 10, language: "xyz".to_owned() };
    let unknown = MultilingualSimpleFeatures { char_count: 10, language: "unknown".to_owned() };
    assert_eq!(estimator.estimate_features(&tagged), 5);
    assert_eq!(estimator.estimate_features(&unknown), 3);
}

#[test]
fn unregistered_language_falls_back_to_default() {
    let mut estimator = MultilingualSimpleMethod::new();
    estimator.set_parameters(simple_store(250_000_000, vec![("xyz", 500_000_000)]));
    let unseen = MultilingualSimpleFeatures { char_count: 10, language: "zzz".to_owned() };
    let unknown = MultilingualSimpleFeatures { char_count: 10, language: "unknown".to_owned() };
    assert_eq!(
        estimator.estimate_features(&unseen),
        estimator.estimate_features(&unknown),
    );

    let mut standard = MultilingualMethod::new();
    let basic_features = BasicFeatures::extract("Hello, world!");
    let unseen = MultilingualFeatures { basic_features, language: "zzz".to_owned() };
    let unknown = MultilingualFeatures { basic_features, language: "unknown".to_owned() };
    assert_eq!(
        standard.estimate_features(&unseen),
        standard.estimate_features(&unknown),
    );
    // With the built-in store both fall back to the default set: the
    // hand-evaluated 9 of "Hello, world!".
    assert_eq!(standard.estimate_features(&unseen), 9);
}

#[test]
fn built_in_override_tables_are_loaded() {
    let estimator = MultilingualMethod::new();
    let params = estimator.parameters();
    assert_eq!(params.language_params.len(), 69);
    let ara = params
        .language_params
        .iter()
        .find(|(code, _)| code == "Ara")
        .expect("the built-in table holds Ara");
    assert_eq!(ara.1.char_coef, 448_951_790);
    assert_eq!(ara.1.intercept, -7_481_054_644);

    let simple = MultilingualSimpleMethod::new();
    let simple_params = simple.parameters();
    assert_eq!(simple_params.language_params.len(), 69);
    let ara = simple_params
        .language_params
        .iter()
        .find(|(code, _)| code == "Ara")
        .expect("the built-in table holds Ara");
    assert_eq!(ara.1.coefficient, 347_826_088);
}

#[test]
fn default_method_selector_is_simple() {
    assert_eq!(skimtoken::Method::default(), skimtoken::Method::Simple);
}
