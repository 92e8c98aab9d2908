use skimtoken::{MultilingualMethod, MultilingualSimpleFeatures, MultilingualSimpleMethod};

#[test]
fn load_replaces_simple_parameters_wholesale() {
    let mut estimator = MultilingualSimpleMethod::new();
    let ok = estimator.load_parameters("250000000 xyz 500000000");
    assert!(ok);
    let params = estimator.parameters();
    assert_eq!(params.default_params.coefficient, 250_000_000);
    assert_eq!(params.language_params.len(), 1);
    assert_eq!(params.language_params[0].0, "xyz");
    assert_eq!(params.language_params[0].1.coefficient, 500_000_000);

    let tagged = MultilingualSimpleFeatures { char_count: 10, language: "xyz".to_owned() };
    assert_eq!(estimator.estimate_features(&tagged), 5);
}

#[test]
fn load_replaces_standard_parameters_wholesale() {
    let mut estimator = MultilingualMethod::new();
    let ok = estimator.load_parameters(
        "1000 2000 3000 -4000 5000\nfra 10 20 30 40 50\ndeu -1 -2 -3 -4 -5",
    );
    assert!(ok);
    let params = estimator.parameters();
    assert_eq!(params.default_params.char_coef, 1000);
    assert_eq!(params.default_params.space_coef, -4000);
    assert_eq!(params.language_params.len(), 2);
    assert_eq!(params.language_params[0].0, "fra");
    assert_eq!(params.language_params[1].1.intercept, -5);
}

#[test]
fn malformed_source_reports_failure_and_changes_nothing() {
    let mut estimator = MultilingualSimpleMethod::new();
    let before = estimator.parameters();

    // Not a number at all.
    assert!(!estimator.load_parameters("not a number"));
    // Wrong token count: a code without its coefficient.
    assert!(!estimator.load_parameters("250000000 xyz"));
    // A coefficient too large in magnitude.
    assert!(!estimator.load_parameters("250000000 xyz 1000000000001"));
    // A duplicated language code.
    assert!(!estimator.load_parameters("250000000 xyz 1 xyz 2"));
    // The sentinel "unknown" may never be a key.
    assert!(!estimator.load_parameters("250000000 unknown 500000000"));
    // An empty source holds no default coefficient.
    assert!(!estimator.load_parameters(""));
    // A stray sign without digits.
    assert!(!estimator.load_parameters("-"));

    assert_eq!(estimator.parameters(), before);
}

#[test]
fn malformed_standard_source_changes_nothing() {
    let mut estimator = MultilingualMethod::new();
    let before = estimator.parameters();

    // Four coefficients where five are owed.
    assert!(!estimator.load_parameters("1 2 3 4"));
    // A group with a missing coefficient.
    assert!(!estimator.load_parameters("1 2 3 4 5 fra 1 2 3 4"));
    // A malformed digit run.
    assert!(!estimator.load_parameters("1 2 3 4 5 fra 1 2 3 4 5x"));

    assert_eq!(estimator.parameters(), before);
}

#[test]
fn loaded_and_built_in_parameters_both_estimate() {
    // The convenience entry points keep working after a failed load: the
    // built-in defaults stay active, as best-effort loading requires.
    let mut estimator = MultilingualSimpleMethod::new();
    let _ = estimator.load_parameters("garbage ! tokens");
    assert_eq!(estimator.estimate("Hello, world!"), 4);
}

#[test]
fn negative_coefficients_load_and_clamp() {
    let mut estimator = MultilingualSimpleMethod::new();
    assert!(estimator.load_parameters("-250000000"));
    // A negative product is clamped: never a negative count.
    assert_eq!(estimator.estimate("Hello, world!"), 0);
}
