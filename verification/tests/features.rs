use skimtoken::{count_multilingual, count_multilingual_simple, BasicFeatures};

#[test]
fn hello_world_features() {
    // "Hello, world!": 13 characters, 2 words, 1 space; the words hold 12
    // characters, so the average word length is exactly 6.
    let f = BasicFeatures::extract("Hello, world!");
    assert_eq!(f.char_count, 13);
    assert_eq!(f.word_count, 2);
    assert_eq!(f.space_count, 1);
    assert_eq!(f.avg_word_length, 6_000_000);
}

#[test]
fn empty_text_features_are_zero() {
    let f = BasicFeatures::extract("");
    assert_eq!(f.char_count, 0);
    assert_eq!(f.word_count, 0);
    assert_eq!(f.space_count, 0);
    assert_eq!(f.avg_word_length, 0);
}

#[test]
fn whitespace_only_has_no_words_and_zero_average() {
    // No words means an average word length of zero: no division happens.
    let f = BasicFeatures::extract(" \t\n  \u{3000} ");
    assert_eq!(f.word_count, 0);
    assert_eq!(f.avg_word_length, 0);
    assert_eq!(f.space_count, f.char_count);
}

#[test]
fn multibyte_characters_count_as_scalar_values() {
    // 14 Unicode scalar values, not the 42 bytes they occupy.
    let f = BasicFeatures::extract("これは日本語のテキストです。");
    assert_eq!(f.char_count, 14);
    assert_eq!(f.space_count, 0);
    assert_eq!(f.word_count, 1);
    assert_eq!(f.avg_word_length, 14_000_000);
}

#[test]
fn counts_through_the_method_records() {
    let f = count_multilingual("Hello, world!");
    assert_eq!(f.basic_features.char_count, 13);
    assert_eq!(f.basic_features.word_count, 2);
    assert_eq!(f.basic_features.space_count, 1);
    assert!(!f.language.is_empty());

    let g = count_multilingual_simple("Hello, world!");
    assert_eq!(g.char_count, 13);
    assert!(!g.language.is_empty());
}

#[test]
fn detected_language_comes_from_the_text() {
    // Kana script pins the detection: the engine must answer "jpn", so a
    // detector that echoed its input or stayed silent would fail here.
    let code = skimtoken::detect_language("これは日本語のテキストです。");
    assert_eq!(code, "jpn");
}
