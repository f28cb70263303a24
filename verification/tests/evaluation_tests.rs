use quantized_llm_service::errors::{BadRequestError, ServiceError};
use quantized_llm_service::evaluation::{
    benchmark_begin, fallback_samples, load_samples_from_str, samples_from_entries, summarize,
    BenchmarkSample, SampleEntry, SampleReport,
};
use quantized_llm_service::types::{GenerationResponse, ModelMetadata};

fn metadata(quantized: bool) -> ModelMetadata {
    ModelMetadata {
        name: if quantized { "quantized" } else { "baseline" }.to_string(),
        quantized,
        dtype: "float32".to_string(),
        size_bytes: 900,
    }
}

fn response(completion: &str, time_ms: u64, rate_milli: u64) -> GenerationResponse {
    GenerationResponse {
        prompt: "p".to_string(),
        completion: completion.to_string(),
        tokens_generated: 2,
        total_time_ms: time_ms,
        tokens_per_second_milli: rate_milli,
        model: metadata(true),
    }
}

fn sample(prompt: &str, reference: Option<&str>) -> BenchmarkSample {
    BenchmarkSample {
        prompt: prompt.to_string(),
        reference_substring: reference.map(|s| s.to_string()),
    }
}

#[test]
fn empty_sample_set_is_a_bad_request() {
    let r = benchmark_begin(Vec::new());
    assert_eq!(
        r.unwrap_err(),
        ServiceError::BadRequest(BadRequestError::EmptySampleSet)
    );
}

#[test]
fn a_run_reports_one_sample_each_in_input_order() {
    let samples = vec![
        sample("first", Some("AA")),
        sample("second", None),
        sample("third", Some("zz")),
    ];
    let mut run = benchmark_begin(samples).unwrap();
    let mut seen = Vec::new();
    while !run.is_complete() {
        let s = run.next_sample();
        seen.push(s.prompt.clone());
        run.record(response("contains aa here", 100, 2000), None);
    }
    let report = run.finish();
    assert_eq!(seen, vec!["first", "second", "third"]);
    assert_eq!(report.samples.len(), 3);
    assert_eq!(report.samples[0].prompt, "first");
    assert_eq!(report.samples[1].prompt, "second");
    assert_eq!(report.samples[2].prompt, "third");
    // Case-insensitive reference matching, absent where no reference was given.
    assert_eq!(report.samples[0].reference_match_quantized, Some(true));
    assert_eq!(report.samples[1].reference_match_quantized, None);
    assert_eq!(report.samples[2].reference_match_quantized, Some(false));
    // No baseline ran, so no baseline column and no baseline match rate.
    assert!(report.samples.iter().all(|s| s.baseline.is_none()));
    assert_eq!(report.aggregate.baseline_avg_latency_us, None);
    assert_eq!(report.aggregate.baseline_avg_tokens_per_s_micro, None);
    assert_eq!(report.aggregate.baseline_reference_match_rate_milli, None);
    // One of the two observed references matched.
    assert_eq!(
        report.aggregate.quantized_reference_match_rate_milli,
        Some(500)
    );
}

#[test]
fn aggregate_means_are_exact() {
    let samples = vec![sample("a", None), sample("b", None)];
    let mut run = benchmark_begin(samples).unwrap();
    run.record(
        response("x", 100, 4_000),
        Some(response("y", 300, 8_000)),
    );
    run.record(
        response("x", 201, 5_000),
        Some(response("y", 500, 9_000)),
    );
    let report = run.finish();
    // Mean of 100 ms and 201 ms is 150.5 ms, reported in microseconds.
    assert_eq!(report.aggregate.quantized_avg_latency_us, 150_500);
    assert_eq!(report.aggregate.quantized_avg_tokens_per_s_micro, 4_500_000);
    assert_eq!(report.aggregate.baseline_avg_latency_us, Some(400_000));
    assert_eq!(
        report.aggregate.baseline_avg_tokens_per_s_micro,
        Some(8_500_000)
    );
    // No sample supplied a reference: both match rates are absent, not zero.
    assert_eq!(report.aggregate.quantized_reference_match_rate_milli, None);
    assert_eq!(report.aggregate.baseline_reference_match_rate_milli, None);
}

#[test]
fn baseline_match_rate_counts_only_baseline_observations() {
    let samples = vec![sample("a", Some("needle")), sample("b", Some("needle"))];
    let mut run = benchmark_begin(samples).unwrap();
    run.record(
        response("no match here", 10, 1000),
        Some(response("the NEEDLE is here", 10, 1000)),
    );
    run.record(response("still nothing", 10, 1000), None);
    let report = run.finish();
    assert_eq!(report.samples[0].reference_match_baseline, Some(true));
    assert_eq!(report.samples[1].reference_match_baseline, None);
    assert_eq!(
        report.aggregate.quantized_reference_match_rate_milli,
        Some(0)
    );
    assert_eq!(
        report.aggregate.baseline_reference_match_rate_milli,
        Some(1000)
    );
}

#[test]
fn summarize_of_no_reports_is_all_absent_or_zero() {
    let reports: Vec<SampleReport> = Vec::new();
    let a = summarize(&reports);
    assert_eq!(a.quantized_avg_latency_us, 0);
    assert_eq!(a.quantized_avg_tokens_per_s_micro, 0);
    assert_eq!(a.baseline_avg_latency_us, None);
    assert_eq!(a.quantized_reference_match_rate_milli, None);
    assert_eq!(a.baseline_reference_match_rate_milli, None);
}

#[test]
fn fallback_samples_are_the_three_built_in_prompts() {
    let samples = fallback_samples();
    assert_eq!(samples.len(), 3);
    assert_eq!(
        samples[0].prompt,
        "Explain the benefits of quantizing a transformer model to int8 precision."
    );
    assert_eq!(samples[0].reference_substring.as_deref(), Some("quant"));
    assert_eq!(
        samples[1].prompt,
        "Summarize the rust borrow checker in one sentence."
    );
    assert_eq!(samples[1].reference_substring.as_deref(), Some("borrow"));
    assert_eq!(
        samples[2].prompt,
        "Write a haiku about efficient machine learning inference."
    );
    assert_eq!(samples[2].reference_substring.as_deref(), Some("haiku"));
}

#[test]
fn entry_without_prompt_names_its_index() {
    let entries = vec![
        SampleEntry {
            prompt: Some("one".to_string()),
            reference_substring: None,
        },
        SampleEntry {
            prompt: Some("two".to_string()),
            reference_substring: Some("r".to_string()),
        },
        SampleEntry {
            prompt: None,
            reference_substring: Some("r".to_string()),
        },
    ];
    let r = samples_from_entries(&entries);
    assert_eq!(
        r.unwrap_err(),
        ServiceError::BadRequest(BadRequestError::SampleMissingPrompt(2))
    );
}

#[test]
fn entries_with_prompts_become_samples_in_order() {
    let entries = vec![
        SampleEntry {
            prompt: Some("one".to_string()),
            reference_substring: Some("r".to_string()),
        },
        SampleEntry {
            prompt: Some("two".to_string()),
            reference_substring: None,
        },
    ];
    let samples = samples_from_entries(&entries).unwrap();
    assert_eq!(samples.len(), 2);
    assert_eq!(samples[0].prompt, "one");
    assert_eq!(samples[0].reference_substring.as_deref(), Some("r"));
    assert_eq!(samples[1].prompt, "two");
    assert_eq!(samples[1].reference_substring, None);
}

#[test]
fn sample_file_third_entry_without_prompt_names_index_two() {
    let raw = r#"[
        {"prompt": "one"},
        {"prompt": "two", "reference_substring": "r"},
        {"reference_substring": "r"}
    ]"#;
    let r = load_samples_from_str(raw);
    assert_eq!(
        r.unwrap_err(),
        ServiceError::BadRequest(BadRequestError::SampleMissingPrompt(2))
    );
}

#[test]
fn sample_file_with_non_string_prompt_names_that_entry() {
    let raw = r#"[{"prompt": "one"}, {"prompt": 17}]"#;
    let r = load_samples_from_str(raw);
    assert_eq!(
        r.unwrap_err(),
        ServiceError::BadRequest(BadRequestError::SampleMissingPrompt(1))
    );
}

#[test]
fn sample_file_must_be_an_array() {
    let raw = r#"{"prompt": "one"}"#;
    let r = load_samples_from_str(raw);
    assert_eq!(
        r.unwrap_err(),
        ServiceError::BadRequest(BadRequestError::SampleFileNotArray)
    );
}

#[test]
fn unparsable_sample_file_is_a_bad_request() {
    let r = load_samples_from_str("not json at all {{{");
    match r.unwrap_err() {
        ServiceError::BadRequest(BadRequestError::InvalidSampleFile(_)) => {}
        other => panic!("expected an invalid-sample-file error, got {other:?}"),
    }
}

#[test]
fn well_formed_sample_file_loads_in_order() {
    let raw = r#"[
        {"prompt": "alpha", "reference_substring": "al"},
        {"prompt": "beta"}
    ]"#;
    let samples = load_samples_from_str(raw).unwrap();
    assert_eq!(samples.len(), 2);
    assert_eq!(samples[0].prompt, "alpha");
    assert_eq!(samples[0].reference_substring.as_deref(), Some("al"));
    assert_eq!(samples[1].prompt, "beta");
    assert_eq!(samples[1].reference_substring, None);
}
