use quantized_llm_service::errors::{BadRequestError, ServiceError};
use quantized_llm_service::quantization::QuantizationSummary;
use quantized_llm_service::registry::{ModelRegistry, RouteTarget};
use quantized_llm_service::text::{is_blank_str, reference_matches};
use quantized_llm_service::types::ModelMetadata;

fn metadata(name: &str, quantized: bool, size_bytes: u64) -> ModelMetadata {
    ModelMetadata {
        name: name.to_string(),
        quantized,
        dtype: if quantized { "int8" } else { "float32" }.to_string(),
        size_bytes,
    }
}

#[test]
fn registry_reports_which_handles_exist() {
    let r = ModelRegistry::new(None, Some(metadata("baseline", false, 1000)));
    assert!(!r.has_quantized());
    assert!(r.has_baseline());
    let (q, b) = r.metadata();
    assert!(q.is_none());
    assert_eq!(b.unwrap().name, "baseline");
}

#[test]
fn auto_route_prefers_quantized_and_falls_back_to_baseline() {
    let both = ModelRegistry::new(
        Some(metadata("quantized", true, 900)),
        Some(metadata("baseline", false, 1000)),
    );
    assert_eq!(both.route_auto(), RouteTarget::Quantized);
    let baseline_only = ModelRegistry::new(None, Some(metadata("baseline", false, 1000)));
    assert_eq!(baseline_only.route_auto(), RouteTarget::Baseline);
}

#[test]
fn missing_quantized_handle_is_unavailable_not_loading() {
    let r = ModelRegistry::new(None, Some(metadata("baseline", false, 1000)));
    match r.require_quantized().unwrap_err() {
        ServiceError::Other(msg) => assert_eq!(msg, "Quantized model not available"),
        other => panic!("expected an availability error, got {other:?}"),
    }
    assert_eq!(r.require_baseline().unwrap().name, "baseline");
}

#[test]
fn forced_baseline_endpoint_rejects_an_absent_baseline_as_bad_request() {
    let r = ModelRegistry::new(Some(metadata("quantized", true, 900)), None);
    assert_eq!(
        r.require_baseline_endpoint().unwrap_err(),
        ServiceError::BadRequest(BadRequestError::BaselineUnavailable)
    );
    let with_baseline = ModelRegistry::new(None, Some(metadata("baseline", false, 1000)));
    assert_eq!(
        with_baseline.require_baseline_endpoint().unwrap().name,
        "baseline"
    );
}

#[test]
fn missing_baseline_handle_counts_as_still_loading() {
    let r = ModelRegistry::new(Some(metadata("quantized", true, 900)), None);
    assert_eq!(r.require_baseline().unwrap_err(), ServiceError::ModelLoading);
    assert_eq!(r.require_quantized().unwrap().name, "quantized");
}

#[test]
fn size_reduction_of_900_against_1000_is_ten_percent() {
    let summary = QuantizationSummary::from_metadata(
        &metadata("quantized", true, 900),
        Some(&metadata("baseline", false, 1000)),
    );
    assert_eq!(summary.quantized_size_bytes, 900);
    assert_eq!(summary.baseline_size_bytes, Some(1000));
    // Ten percent, in thousandths of a percent.
    assert_eq!(summary.size_reduction_milli_percent, Some(10_000));
}

#[test]
fn zero_baseline_size_yields_zero_reduction_not_a_failure() {
    let summary = QuantizationSummary::from_metadata(
        &metadata("quantized", true, 900),
        Some(&metadata("baseline", false, 0)),
    );
    assert_eq!(summary.size_reduction_milli_percent, Some(0));
}

#[test]
fn larger_quantized_artifact_saturates_at_zero_reduction() {
    let summary = QuantizationSummary::from_metadata(
        &metadata("quantized", true, 1200),
        Some(&metadata("baseline", false, 1000)),
    );
    assert_eq!(summary.size_reduction_milli_percent, Some(0));
}

#[test]
fn unknown_baseline_yields_no_reduction() {
    let summary = QuantizationSummary::from_metadata(&metadata("quantized", true, 900), None);
    assert_eq!(summary.baseline_size_bytes, None);
    assert_eq!(summary.size_reduction_milli_percent, None);
}

#[test]
fn blank_detection_covers_unicode_whitespace() {
    assert!(is_blank_str(""));
    assert!(is_blank_str("   \t\r\n"));
    assert!(is_blank_str("\u{00A0}\u{2000}\u{3000}"));
    assert!(!is_blank_str(" a "));
    assert!(!is_blank_str("."));
}

#[test]
fn reference_matching_is_case_insensitive() {
    assert!(reference_matches("The QUANTIZED model", "quantized"));
    assert!(reference_matches("the quantized model", "QUANTIZED"));
    assert!(!reference_matches("nothing here", "quantized"));
    // Would fail if lowercasing handed its argument back unchanged.
    assert!(reference_matches("ABC", "abc"));
    // Substring search is honest about absence.
    assert!(!reference_matches("abc", "abcd"));
}
