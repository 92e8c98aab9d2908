use skimtoken::estimate_tokens;

#[test]
fn test_estimate_tokens() {
    let text = "Hello, world!";
    let result = estimate_tokens(text);
    assert!(result > 0);
}

#[test]
fn test_estimate_tokens_longer() {
    let text = "The quick brown fox jumps over the lazy dog.";
    let result = estimate_tokens(text);
    assert!(result > 0);
}

#[test]
fn test_estimate_tokens_multilingual() {
    let text = "This is an English text.";
    let result = estimate_tokens(text);
    assert!(result > 0);

    let text_jp = "これは日本語のテキストです。";
    let result_jp = estimate_tokens(text_jp);
    assert!(result_jp > 0);
}
