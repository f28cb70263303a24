use std::str::FromStr;

use quantized_llm_service::decode::{begin_generation, finish_generation};
use quantized_llm_service::errors::{BadRequestError, ServiceError};
use quantized_llm_service::types::ModelMetadata;

fn test_tokenizer() -> tokenizers::Tokenizer {
    let spec = r#"{
        "version": "1.0",
        "model": {
            "type": "WordLevel",
            "vocab": {"hello": 0, "world": 1, "quantized": 2, "<unk>": 3},
            "unk_token": "<unk>"
        },
        "pre_tokenizer": {"type": "Whitespace"}
    }"#;
    tokenizers::Tokenizer::from_str(spec).expect("test tokenizer must deserialize")
}

fn test_metadata() -> ModelMetadata {
    ModelMetadata {
        name: "baseline".to_string(),
        quantized: false,
        dtype: "float32".to_string(),
        size_bytes: 1000,
    }
}

#[test]
fn empty_prompt_is_a_bad_request() {
    let tok = test_tokenizer();
    let r = begin_generation(&tok, "", 4, 3);
    assert_eq!(
        r.unwrap_err(),
        ServiceError::BadRequest(BadRequestError::EmptyPrompt)
    );
}

#[test]
fn whitespace_only_prompt_is_a_bad_request() {
    let tok = test_tokenizer();
    for prompt in ["   ", "\t\n\r ", "\u{00A0}\u{2003}", " \u{3000} "] {
        let r = begin_generation(&tok, prompt, 4, 3);
        assert_eq!(
            r.unwrap_err(),
            ServiceError::BadRequest(BadRequestError::EmptyPrompt),
            "prompt {prompt:?} must be rejected"
        );
    }
}

#[test]
fn prompt_encodes_to_its_token_ids() {
    let tok = test_tokenizer();
    let s = begin_generation(&tok, "hello world", 4, 3).unwrap();
    assert_eq!(s.current_ids().as_slice(), &[0u32, 1]);
}

#[test]
fn zero_budget_yields_empty_completion_and_zero_tokens() {
    let tok = test_tokenizer();
    let s = begin_generation(&tok, "hello world", 0, 3).unwrap();
    assert!(!s.needs_forward());
    let resp = finish_generation(&tok, &s, "hello world".to_string(), 5, test_metadata()).unwrap();
    assert_eq!(resp.completion, "");
    assert_eq!(resp.tokens_generated, 0);
    assert_eq!(resp.total_time_ms, 5);
}

#[test]
fn completion_decodes_only_the_generated_tokens() {
    let tok = test_tokenizer();
    let mut s = begin_generation(&tok, "hello", 4, 3).unwrap();
    s.feed_token(1);
    s.feed_token(2);
    assert!(s.needs_forward());
    let resp = finish_generation(&tok, &s, "hello".to_string(), 0, test_metadata()).unwrap();
    assert_eq!(resp.completion, "world quantized");
    assert_eq!(resp.tokens_generated, 2);
    // Elapsed time rounded to zero: the rate equals the total token count
    // (prompt and generated), in thousandths.
    assert_eq!(resp.tokens_per_second_milli, 3_000);
    assert_eq!(resp.model, test_metadata());
    assert_eq!(resp.prompt, "hello");
}

#[test]
fn end_of_sequence_truncates_the_generated_count() {
    let tok = test_tokenizer();
    let mut s = begin_generation(&tok, "hello", 10, 2).unwrap();
    s.feed_token(1);
    s.feed_token(2);
    assert!(!s.needs_forward());
    let resp = finish_generation(&tok, &s, "hello".to_string(), 1000, test_metadata()).unwrap();
    assert_eq!(resp.tokens_generated, 2);
    // 3 total tokens over one second, in thousandths.
    assert_eq!(resp.tokens_per_second_milli, 3_000);
}

#[test]
fn two_states_never_interleave_their_sequences() {
    let tok = test_tokenizer();
    let mut a = begin_generation(&tok, "hello", 4, 999).unwrap();
    let mut b = begin_generation(&tok, "world", 4, 999).unwrap();
    a.feed_token(1);
    b.feed_token(0);
    a.feed_token(2);
    b.feed_token(2);
    assert_eq!(a.current_ids().as_slice(), &[0u32, 1, 2]);
    assert_eq!(b.current_ids().as_slice(), &[1u32, 0, 2]);
    let ra = finish_generation(&tok, &a, "hello".to_string(), 0, test_metadata()).unwrap();
    let rb = finish_generation(&tok, &b, "world".to_string(), 0, test_metadata()).unwrap();
    assert_eq!(ra.completion, "world quantized");
    assert_eq!(rb.completion, "hello quantized");
}
