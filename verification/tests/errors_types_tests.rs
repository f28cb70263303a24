use quantized_llm_service::errors::{BadRequestError, ServiceError};
use quantized_llm_service::types::{GenerationDefaults, GenerationRequest, resolve_params};

#[test]
fn model_loading_maps_to_service_unavailable() {
    assert_eq!(ServiceError::ModelLoading.status_code(), 503);
}

#[test]
fn bad_request_maps_to_bad_request_status() {
    let e = ServiceError::BadRequest(BadRequestError::EmptyPrompt);
    assert_eq!(e.status_code(), 400);
    let e = ServiceError::BadRequest(BadRequestError::SampleMissingPrompt(2));
    assert_eq!(e.status_code(), 400);
}

#[test]
fn internal_failures_map_to_internal_server_error() {
    assert_eq!(ServiceError::Tokenizer("t".to_string()).status_code(), 500);
    assert_eq!(ServiceError::Inference("i".to_string()).status_code(), 500);
    assert_eq!(ServiceError::Quantization("q".to_string()).status_code(), 500);
    assert_eq!(ServiceError::Io("io".to_string()).status_code(), 500);
    assert_eq!(ServiceError::Other("o".to_string()).status_code(), 500);
}

#[test]
fn standard_defaults_match_the_documented_values() {
    let d = GenerationDefaults::standard();
    assert_eq!(d.max_new_tokens, 64);
    assert_eq!(d.temperature_milli, 800);
    assert_eq!(d.top_k, 40);
}

#[test]
fn unset_request_fields_fall_back_to_defaults() {
    let d = GenerationDefaults::standard();
    let request = GenerationRequest {
        prompt: "hi".to_string(),
        max_new_tokens: None,
        temperature_milli: None,
        top_k: None,
    };
    let p = resolve_params(&request, &d);
    assert_eq!(p.max_new_tokens, 64);
    assert_eq!(p.temperature_milli, 800);
    assert_eq!(p.top_k, 40);
}

#[test]
fn set_request_fields_override_defaults() {
    let d = GenerationDefaults::standard();
    let request = GenerationRequest {
        prompt: "hi".to_string(),
        max_new_tokens: Some(5),
        temperature_milli: Some(1200),
        top_k: Some(3),
    };
    let p = resolve_params(&request, &d);
    assert_eq!(p.max_new_tokens, 5);
    assert_eq!(p.temperature_milli, 1200);
    assert_eq!(p.top_k, 3);
}
