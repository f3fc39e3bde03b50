use kokoroxide::vocab::{get_member, vocab_from_tokenizer_json, vocab_from_tokenizer_text, JsonValue, TokenizerError, TokenizerTextError};

fn obj(members: Vec<(&str, JsonValue)>) -> JsonValue {
    JsonValue::Object(members.into_iter().map(|(k, v)| (k.to_string(), v)).collect())
}

#[test]
fn vocab_keeps_every_token_with_its_id() {
    let doc = obj(vec![
        ("version", JsonValue::String("1.0".to_string())),
        (
            "model",
            obj(vec![(
                "vocab",
                obj(vec![
                    ("$", JsonValue::Number(Some(0))),
                    (";", JsonValue::Number(Some(1))),
                    ("ʤ", JsonValue::Number(Some(82))),
                    ("x", JsonValue::Number(None)),
                    ("y", JsonValue::String("7".to_string())),
                ]),
            )]),
        ),
    ]);
    let vocab = vocab_from_tokenizer_json(&doc).unwrap();
    let expected: Vec<(String, i64)> = vec![
        ("$".to_string(), 0),
        (";".to_string(), 1),
        ("ʤ".to_string(), 82),
        ("x".to_string(), 0),
        ("y".to_string(), 0),
    ];
    assert_eq!(vocab, expected);
}

#[test]
fn missing_vocab_is_an_error() {
    let no_model = obj(vec![("vocab", obj(vec![]))]);
    assert_eq!(vocab_from_tokenizer_json(&no_model).unwrap_err(), TokenizerError::NoVocab);
    let array_vocab = obj(vec![("model", obj(vec![("vocab", JsonValue::Array(vec![]))]))]);
    assert_eq!(vocab_from_tokenizer_json(&array_vocab).unwrap_err(), TokenizerError::NoVocab);
    let not_object = JsonValue::Array(vec![JsonValue::Null]);
    assert_eq!(vocab_from_tokenizer_json(&not_object).unwrap_err(), TokenizerError::NoVocab);
    assert_eq!(TokenizerError::NoVocab.message(), "No vocab found in tokenizer.json");
}

#[test]
fn empty_vocab_object_gives_empty_vocab() {
    let doc = obj(vec![("model", obj(vec![("vocab", obj(vec![]))]))]);
    assert!(vocab_from_tokenizer_json(&doc).unwrap().is_empty());
}

#[test]
fn member_lookup_takes_the_first_match() {
    let doc = obj(vec![("a", JsonValue::Number(Some(1))), ("a", JsonValue::Number(Some(2)))]);
    assert!(matches!(get_member(&doc, "a"), Some(JsonValue::Number(Some(1)))));
    assert!(get_member(&doc, "b").is_none());
    assert!(get_member(&JsonValue::Bool(true), "a").is_none());
}

#[test]
fn vocab_from_tokenizer_file_text() {
    let text = r#"{"version": "1.0", "model": {"type": "x", "vocab": {"b": 2, ";": 1, "$": 0, "big": 18446744073709551615, "f": 1.5, "s": "7", "ʤ": 82}}}"#;
    let vocab = vocab_from_tokenizer_text(text).unwrap();
    let expected: Vec<(String, i64)> = vec![
        ("$".to_string(), 0),
        (";".to_string(), 1),
        ("b".to_string(), 2),
        ("big".to_string(), 0),
        ("f".to_string(), 0),
        ("s".to_string(), 0),
        ("ʤ".to_string(), 82),
    ];
    assert_eq!(vocab, expected);
}

#[test]
fn tokenizer_text_errors() {
    assert!(matches!(vocab_from_tokenizer_text("{\"model\": "), Err(TokenizerTextError::Json(_))));
    assert!(matches!(vocab_from_tokenizer_text("not json"), Err(TokenizerTextError::Json(_))));
    assert!(matches!(
        vocab_from_tokenizer_text(r#"{"model": {"vocab": [1, 2]}}"#),
        Err(TokenizerTextError::Vocab(TokenizerError::NoVocab))
    ));
    assert!(matches!(
        vocab_from_tokenizer_text("[]"),
        Err(TokenizerTextError::Vocab(TokenizerError::NoVocab))
    ));
    assert!(vocab_from_tokenizer_text(r#"{"model": {"vocab": {}}}"#).unwrap().is_empty());
}
