//! The benchmark harness: per-sample reports and exact aggregation.
//!
//! A benchmark run walks a list of samples in order. Generating the
//! responses is outside work done by the driver; which sample is next,
//! what goes into its report, and the aggregate statistics of a finished
//! run are decided and proved here. Averages are carried in fixed point
//! (an average latency in microseconds, an average rate in millionths of
//! a token per second, a match rate in thousandths); a match rate over
//! zero observations is absent, never zero.

use vstd::prelude::*;

use crate::errors::BadRequestError;
use crate::errors::ServiceError;
use crate::json;
use crate::metrics;
use crate::metrics::clamp_u64;
use crate::metrics::spec_mean_milli;
use crate::text;
use crate::types::GenerationResponse;

verus! {

/// One benchmark prompt, with an optional reference substring whose
/// case-insensitive presence in the completion counts as a match.
#[derive(Debug, Clone, PartialEq, Eq)]
pub struct BenchmarkSample {
    pub prompt: String,
    pub reference_substring: Option<String>,
}

/// What one sample produced: the quantized-path response, the
/// baseline-path response when a baseline handle exists, and the
/// reference-match verdicts for each path that ran, when a reference was
/// supplied.
#[derive(Debug, Clone, PartialEq, Eq)]
pub struct SampleReport {
    pub prompt: String,
    pub quantized: GenerationResponse,
    pub baseline: Option<GenerationResponse>,
    pub reference_match_quantized: Option<bool>,
    pub reference_match_baseline: Option<bool>,
}

/// Aggregate statistics of one run. Latency averages are in microseconds,
/// rate averages in millionths of a token per second, match rates in
/// thousandths; the baseline columns are absent when no sample ran the
/// baseline path, the match rates absent when no sample was checked.
#[derive(Debug, Clone, PartialEq, Eq)]
pub struct AggregateMetrics {
    pub quantized_avg_latency_us: u64,
    pub quantized_avg_tokens_per_s_micro: u64,
    pub baseline_avg_latency_us: Option<u64>,
    pub baseline_avg_tokens_per_s_micro: Option<u64>,
    pub quantized_reference_match_rate_milli: Option<u64>,
    pub baseline_reference_match_rate_milli: Option<u64>,
}

/// One evaluation's outcome: a report per sample, in input order, and the
/// aggregate over them.
#[derive(Debug, Clone, PartialEq, Eq)]
pub struct EvaluationReport {
    pub samples: Vec<SampleReport>,
    pub aggregate: AggregateMetrics,
}

/// The quantized-path latencies of the reports, in order.
pub open spec fn q_latencies(s: Seq<SampleReport>) -> Seq<u64> {
    s.map_values(|r: SampleReport| r.quantized.total_time_ms)
}

/// The quantized-path throughputs of the reports, in order.
pub open spec fn q_rates(s: Seq<SampleReport>) -> Seq<u64> {
    s.map_values(|r: SampleReport| r.quantized.tokens_per_second_milli)
}

/// The latencies of the reports that ran the baseline path, in order.
pub open spec fn b_latencies(s: Seq<SampleReport>) -> Seq<u64>
    decreases s.len(),
{
    if s.len() == 0 {
        Seq::empty()
    } else {
        b_latencies(s.drop_last()) + (match s.last().baseline {
            Some(b) => seq![b.total_time_ms],
            None => Seq::empty(),
        })
    }
}

/// The throughputs of the reports that ran the baseline path, in order.
pub open spec fn b_rates(s: Seq<SampleReport>) -> Seq<u64>
    decreases s.len(),
{
    if s.len() == 0 {
        Seq::empty()
    } else {
        b_rates(s.drop_last()) + (match s.last().baseline {
            Some(b) => seq![b.tokens_per_second_milli],
            None => Seq::empty(),
        })
    }
}

/// How many of the verdicts were present at all.
pub open spec fn count_observations(s: Seq<Option<bool>>) -> int
    decreases s.len(),
{
    if s.len() == 0 {
        0
    } else {
        count_observations(s.drop_last()) + (if s.last() is Some {
            1int
        } else {
            0int
        })
    }
}

/// How many of the verdicts were a match.
pub open spec fn count_matches(s: Seq<Option<bool>>) -> int
    decreases s.len(),
{
    if s.len() == 0 {
        0
    } else {
        count_matches(s.drop_last()) + (if s.last() == Some(true) {
            1int
        } else {
            0int
        })
    }
}

/// The quantized-path match verdicts of the reports, in order.
pub open spec fn q_flags(s: Seq<SampleReport>) -> Seq<Option<bool>> {
    s.map_values(|r: SampleReport| r.reference_match_quantized)
}

/// The baseline-path match verdicts of the reports, in order.
pub open spec fn b_flags(s: Seq<SampleReport>) -> Seq<Option<bool>> {
    s.map_values(|r: SampleReport| r.reference_match_baseline)
}

/// Exactly the aggregate a sequence of reports must summarize to.
pub open spec fn aggregate_matches(a: AggregateMetrics, s: Seq<SampleReport>) -> bool {
    &&& a.quantized_avg_latency_us == clamp_u64(spec_mean_milli(q_latencies(s)))
    &&& a.quantized_avg_tokens_per_s_micro == clamp_u64(spec_mean_milli(q_rates(s)))
    &&& (a.baseline_avg_latency_us is Some <==> b_latencies(s).len() > 0)
    &&& (a.baseline_avg_latency_us matches Some(v) ==> v == clamp_u64(
        spec_mean_milli(b_latencies(s)),
    ))
    &&& (a.baseline_avg_tokens_per_s_micro is Some <==> b_rates(s).len() > 0)
    &&& (a.baseline_avg_tokens_per_s_micro matches Some(v) ==> v == clamp_u64(
        spec_mean_milli(b_rates(s)),
    ))
    &&& (a.quantized_reference_match_rate_milli is None <==> count_observations(q_flags(s)) == 0)
    &&& (a.quantized_reference_match_rate_milli matches Some(v) ==> v as int == count_matches(
        q_flags(s),
    ) * 1000 / count_observations(q_flags(s)))
    &&& (a.baseline_reference_match_rate_milli is None <==> count_observations(b_flags(s)) == 0)
    &&& (a.baseline_reference_match_rate_milli matches Some(v) ==> v as int == count_matches(
        b_flags(s),
    ) * 1000 / count_observations(b_flags(s)))
}

/// Folds the per-sample reports into the aggregate: scaled means of
/// latency and throughput per path, and a match rate per path that is
/// absent — not zero — when no sample on that path was checked against a
/// reference.
pub fn summarize(reports: &Vec<SampleReport>) -> (a: AggregateMetrics)
    ensures
        aggregate_matches(a, reports@),
{
    let ghost all = reports@;
    let mut q_lat: Vec<u64> = Vec::new();
    let mut q_rate: Vec<u64> = Vec::new();
    let mut b_lat: Vec<u64> = Vec::new();
    let mut b_rate: Vec<u64> = Vec::new();
    let mut q_obs: usize = 0;
    let mut q_match: usize = 0;
    let mut b_obs: usize = 0;
    let mut b_match: usize = 0;
    let mut i: usize = 0;
    proof {
        assert(all.take(0) =~= Seq::<SampleReport>::empty());
        assert(q_latencies(all.take(0)) =~= Seq::<u64>::empty());
        assert(q_rates(all.take(0)) =~= Seq::<u64>::empty());
        assert(q_flags(all.take(0)) =~= Seq::<Option<bool>>::empty());
        assert(b_flags(all.take(0)) =~= Seq::<Option<bool>>::empty());
    }
    while i < reports.len()
        invariant
            0 <= i <= all.len(),
            all == reports@,
            q_lat@ == q_latencies(all.take(i as int)),
            q_rate@ == q_rates(all.take(i as int)),
            b_lat@ == b_latencies(all.take(i as int)),
            b_rate@ == b_rates(all.take(i as int)),
            q_obs == count_observations(q_flags(all.take(i as int))),
            q_match == count_matches(q_flags(all.take(i as int))),
            b_obs == count_observations(b_flags(all.take(i as int))),
            b_match == count_matches(b_flags(all.take(i as int))),
            q_match <= q_obs <= i,
            b_match <= b_obs <= i,
        decreases all.len() - i,
    {
        let r = &reports[i];
        proof {
            assert(all.take(i + 1).drop_last() =~= all.take(i as int));
            assert(all.take(i + 1).last() == all[i as int]);
            assert(q_latencies(all.take(i + 1)) =~= q_latencies(all.take(i as int)).push(
                all[i as int].quantized.total_time_ms,
            ));
            assert(q_rates(all.take(i + 1)) =~= q_rates(all.take(i as int)).push(
                all[i as int].quantized.tokens_per_second_milli,
            ));
            assert(q_flags(all.take(i + 1)).drop_last() =~= q_flags(all.take(i as int)));
            assert(q_flags(all.take(i + 1)).last() == all[i as int].reference_match_quantized);
            assert(b_flags(all.take(i + 1)).drop_last() =~= b_flags(all.take(i as int)));
            assert(b_flags(all.take(i + 1)).last() == all[i as int].reference_match_baseline);
        }
        q_lat.push(r.quantized.total_time_ms);
        q_rate.push(r.quantized.tokens_per_second_milli);
        match &r.baseline {
            Some(b) => {
                b_lat.push(b.total_time_ms);
                b_rate.push(b.tokens_per_second_milli);
            },
            None => {},
        }
        match r.reference_match_quantized {
            Some(true) => {
                q_obs = q_obs + 1;
                q_match = q_match + 1;
            },
            Some(false) => {
                q_obs = q_obs + 1;
            },
            None => {},
        }
        match r.reference_match_baseline {
            Some(true) => {
                b_obs = b_obs + 1;
                b_match = b_match + 1;
            },
            Some(false) => {
                b_obs = b_obs + 1;
            },
            None => {},
        }
        i = i + 1;
    }
    proof {
        assert(all.take(all.len() as int) =~= all);
    }
    let baseline_avg_latency_us = if b_lat.len() == 0 {
        None
    } else {
        Some(metrics::mean_milli(&b_lat))
    };
    let baseline_avg_tokens_per_s_micro = if b_rate.len() == 0 {
        None
    } else {
        Some(metrics::mean_milli(&b_rate))
    };
    AggregateMetrics {
        quantized_avg_latency_us: metrics::mean_milli(&q_lat),
        quantized_avg_tokens_per_s_micro: metrics::mean_milli(&q_rate),
        baseline_avg_latency_us,
        baseline_avg_tokens_per_s_micro,
        quantized_reference_match_rate_milli: metrics::match_rate_milli(q_match, q_obs),
        baseline_reference_match_rate_milli: metrics::match_rate_milli(b_match, b_obs),
    }
}

/// What a report must hold for its sample: the sample's prompt, and a
/// match verdict for each path that ran, present exactly when the sample
/// supplied a reference (and, for the baseline verdict, when the baseline
/// path ran), computed case-insensitively on that path's own completion.
pub open spec fn report_for(r: SampleReport, s: BenchmarkSample) -> bool {
    &&& r.prompt@ == s.prompt@
    &&& (r.reference_match_quantized is Some <==> s.reference_substring is Some)
    &&& (s.reference_substring matches Some(n) ==> r.reference_match_quantized == Some(
        text::spec_reference_match(r.quantized.completion@, n@),
    ))
    &&& (r.reference_match_baseline is Some <==> (s.reference_substring is Some
        && r.baseline is Some))
    &&& (s.reference_substring matches Some(n) ==> (r.baseline matches Some(b)
        ==> r.reference_match_baseline == Some(text::spec_reference_match(b.completion@, n@))))
}

/// Builds the report for one sample from the responses the driver
/// obtained: the quantized response always, the baseline response when
/// that path ran, and the reference verdicts as `report_for` demands.
pub fn build_sample_report(
    sample: &BenchmarkSample,
    quantized: GenerationResponse,
    baseline: Option<GenerationResponse>,
) -> (r: SampleReport)
    ensures
        report_for(r, *sample),
        r.quantized == quantized,
        r.baseline == baseline,
{
    let reference_match_quantized = match &sample.reference_substring {
        Some(needle) => Some(
            text::reference_matches(quantized.completion.as_str(), needle.as_str()),
        ),
        None => None,
    };
    let reference_match_baseline = match &sample.reference_substring {
        Some(needle) => match &baseline {
            Some(b) => Some(text::reference_matches(b.completion.as_str(), needle.as_str())),
            None => None,
        },
        None => None,
    };
    SampleReport {
        prompt: sample.prompt.clone(),
        quantized,
        baseline,
        reference_match_quantized,
        reference_match_baseline,
    }
}

/// One benchmark run in progress: the samples it was started with and the
/// reports recorded so far, one per sample, in input order.
#[derive(Debug)]
pub struct BenchmarkRun {
    samples: Vec<BenchmarkSample>,
    reports: Vec<SampleReport>,
}

impl BenchmarkRun {
    /// The samples the run was started with.
    pub closed spec fn samples(&self) -> Seq<BenchmarkSample> {
        self.samples@
    }

    /// The reports recorded so far.
    pub closed spec fn reports(&self) -> Seq<SampleReport> {
        self.reports@
    }

    /// Each recorded report belongs to the sample at its position.
    pub open spec fn wf(&self) -> bool {
        &&& self.samples().len() > 0
        &&& self.reports().len() <= self.samples().len()
        &&& forall|i: int|
            0 <= i < self.reports().len() ==> report_for(
                #[trigger] self.reports()[i],
                self.samples()[i],
            )
    }

    /// Every sample has its report.
    pub open spec fn complete(&self) -> bool {
        self.reports().len() == self.samples().len()
    }

    /// Whether every sample has been recorded.
    pub fn is_complete(&self) -> (r: bool)
        requires
            self.wf(),
        ensures
            r == self.complete(),
    {
        self.reports.len() == self.samples.len()
    }

    /// The sample the driver must run next.
    pub fn next_sample(&self) -> (s: &BenchmarkSample)
        requires
            self.wf(),
            !self.complete(),
        ensures
            *s == self.samples()[self.reports().len() as int],
    {
        &self.samples[self.reports.len()]
    }

    /// Records the responses for the next sample, in input order.
    pub fn record(&mut self, quantized: GenerationResponse, baseline: Option<GenerationResponse>)
        requires
            old(self).wf(),
            !old(self).complete(),
        ensures
            final(self).wf(),
            final(self).samples() == old(self).samples(),
            final(self).reports().len() == old(self).reports().len() + 1,
            final(self).reports().drop_last() == old(self).reports(),
            final(self).reports().last().quantized == quantized,
            final(self).reports().last().baseline == baseline,
            report_for(
                final(self).reports().last(),
                old(self).samples()[old(self).reports().len() as int],
            ),
            final(self).complete() <==> old(self).reports().len() + 1 == old(self).samples().len(),
    {
        let idx = self.reports.len();
        let report = build_sample_report(&self.samples[idx], quantized, baseline);
        self.reports.push(report);
        proof {
            assert(self.reports@.drop_last() =~= old(self).reports@);
        }
    }

    /// Closes a complete run: one report per sample, in input order, under
    /// the exact aggregate of those reports.
    pub fn finish(self) -> (r: EvaluationReport)
        requires
            self.wf(),
            self.complete(),
        ensures
            r.samples@ == self.reports(),
            r.samples@.len() == self.samples().len(),
            forall|i: int|
                0 <= i < r.samples@.len() ==> report_for(
                    #[trigger] r.samples@[i],
                    self.samples()[i],
                ),
            aggregate_matches(r.aggregate, self.reports()),
    {
        let aggregate = summarize(&self.reports);
        EvaluationReport { samples: self.reports, aggregate }
    }
}

/// Starts a benchmark run: an empty sample list is rejected outright;
/// any non-empty list yields a run with nothing recorded yet.
pub fn benchmark_begin(samples: Vec<BenchmarkSample>) -> (r: Result<BenchmarkRun, ServiceError>)
    ensures
        samples@.len() == 0 <==> r == Err::<BenchmarkRun, ServiceError>(
            ServiceError::BadRequest(BadRequestError::EmptySampleSet),
        ),
        r matches Ok(run) ==> {
            &&& run.wf()
            &&& run.samples() == samples@
            &&& run.reports().len() == 0
        },
{
    if samples.len() == 0 {
        return Err(ServiceError::BadRequest(BadRequestError::EmptySampleSet));
    }
    Ok(BenchmarkRun { samples, reports: Vec::new() })
}

/// One entry of a benchmark sample file, as extracted from its JSON
/// object: the "prompt" field if it was a string, and the optional
/// "reference_substring" field likewise.
#[derive(Debug, Clone, PartialEq, Eq)]
pub struct SampleEntry {
    pub prompt: Option<String>,
    pub reference_substring: Option<String>,
}

/// The text a present optional string holds.
pub open spec fn opt_text(o: Option<String>) -> Option<Seq<char>> {
    match o {
        Some(s) => Some(s@),
        None => None,
    }
}

/// Validates the extracted entries of a sample file: every entry must
/// have a prompt; the first entry without one fails the whole file, with
/// that entry's index named.
pub fn samples_from_entries(entries: &Vec<SampleEntry>) -> (r: Result<
    Vec<BenchmarkSample>,
    ServiceError,
>)
    ensures
        (forall|i: int| 0 <= i < entries@.len() ==> (#[trigger] entries@[i]).prompt is Some) <==> r
            is Ok,
        r matches Ok(samples) ==> {
            &&& samples@.len() == entries@.len()
            &&& forall|i: int|
                0 <= i < entries@.len() ==> ((#[trigger] entries@[i]).prompt matches Some(p)
                    && samples@[i].prompt@ == p@ && opt_text(samples@[i].reference_substring)
                    == opt_text(entries@[i].reference_substring))
        },
        r matches Err(e) ==> e matches ServiceError::BadRequest(b) && b matches
            BadRequestError::SampleMissingPrompt(j) && 0 <= j < entries@.len() && entries@[
            j as int
        ].prompt is None && (forall|k: int|
            0 <= k < j ==> (#[trigger] entries@[k]).prompt is Some),
{
    let mut samples: Vec<BenchmarkSample> = Vec::new();
    let mut i: usize = 0;
    while i < entries.len()
        invariant
            0 <= i <= entries@.len(),
            samples@.len() == i,
            forall|k: int| 0 <= k < i ==> (#[trigger] entries@[k]).prompt is Some,
            forall|k: int|
                0 <= k < i ==> ((#[trigger] entries@[k]).prompt matches Some(p)
                    && samples@[k].prompt@ == p@ && opt_text(samples@[k].reference_substring)
                    == opt_text(entries@[k].reference_substring)),
        decreases entries@.len() - i,
    {
        let entry = &entries[i];
        match &entry.prompt {
            Some(p) => {
                samples.push(
                    BenchmarkSample {
                        prompt: p.clone(),
                        reference_substring: clone_opt_string(&entry.reference_substring),
                    },
                );
            },
            None => {
                return Err(
                    ServiceError::BadRequest(BadRequestError::SampleMissingPrompt(i)),
                );
            },
        }
        i = i + 1;
    }
    Ok(samples)
}

fn clone_opt_string(o: &Option<String>) -> (r: Option<String>)
    ensures
        opt_text(r) == opt_text(*o),
{
    match o {
        Some(s) => Some(s.clone()),
        None => None,
    }
}

/// The fields the sample-file grammar reads of each array element.
pub open spec fn sample_file_fields(doc: Seq<char>) -> Seq<
    (Option<Seq<char>>, Option<Seq<char>>),
> {
    json::json_array_fields(doc, "prompt"@, "reference_substring"@)
}

/// Whether every element of the document's array has its prompt field.
pub open spec fn sample_file_complete(doc: Seq<char>) -> bool {
    forall|i: int|
        0 <= i < sample_file_fields(doc).len() ==> (#[trigger] sample_file_fields(doc)[i]).0
            is Some
}

/// The samples a well-formed document must load to: one per array
/// element, in order, the prompt from the "prompt" field and the
/// reference from the "reference_substring" field.
pub open spec fn samples_match_fields(samples: Seq<BenchmarkSample>, doc: Seq<char>) -> bool {
    &&& samples.len() == sample_file_fields(doc).len()
    &&& forall|i: int|
        0 <= i < samples.len() ==> ((#[trigger] sample_file_fields(doc)[i]).0 matches Some(p)
            && samples[i].prompt@ == p && opt_text(samples[i].reference_substring)
            == sample_file_fields(doc)[i].1)
}

/// Parses a benchmark sample file: the document must be a JSON array of
/// objects, each with a required string field "prompt" and an optional
/// string field "reference_substring". Exactly: a document the parser
/// rejects is an invalid-file bad request carrying the parser's message; a
/// parsed non-array is rejected as such; an array whose every element has
/// a prompt loads to one sample per element, in order; otherwise the
/// first element without a prompt fails the file under its index.
pub fn load_samples_from_str(raw: &str) -> (r: Result<Vec<BenchmarkSample>, ServiceError>)
    ensures
        !json::json_parse_ok(raw@) <==> (r matches Err(e) && e matches ServiceError::BadRequest(b)
            && b matches BadRequestError::InvalidSampleFile(_)),
        (json::json_parse_ok(raw@) && !json::json_doc_is_array(raw@)) <==> r == Err::<
            Vec<BenchmarkSample>,
            ServiceError,
        >(ServiceError::BadRequest(BadRequestError::SampleFileNotArray)),
        r is Ok <==> (json::json_parse_ok(raw@) && json::json_doc_is_array(raw@)
            && sample_file_complete(raw@)),
        r matches Ok(samples) ==> samples_match_fields(samples@, raw@),
        (json::json_parse_ok(raw@) && json::json_doc_is_array(raw@) && !sample_file_complete(
            raw@,
        )) ==> (r matches Err(e) && e matches ServiceError::BadRequest(b) && b matches
            BadRequestError::SampleMissingPrompt(j) && 0 <= j < sample_file_fields(raw@).len()
            && sample_file_fields(raw@)[j as int].0 is None && (forall|k: int|
            0 <= k < j ==> (#[trigger] sample_file_fields(raw@)[k]).0 is Some)),
{
    let entries = match json::parse_sample_entries(raw, "prompt", "reference_substring") {
        Ok(entries) => entries,
        Err(Some(message)) => {
            return Err(ServiceError::BadRequest(BadRequestError::InvalidSampleFile(message)));
        },
        Err(None) => {
            return Err(ServiceError::BadRequest(BadRequestError::SampleFileNotArray));
        },
    };
    let r = samples_from_entries(&entries);
    proof {
        let fields = sample_file_fields(raw@);
        assert forall|k: int|
            0 <= k < fields.len() implies (((#[trigger] sample_file_fields(raw@)[k]).0
                is Some) == (entries@[k].prompt is Some)) by {
            assert(opt_text(entries@[k].prompt) == fields[k].0);
        }
        if r is Ok {
            let samples = r->Ok_0;
            assert(forall|i: int|
                0 <= i < samples@.len() ==> ((#[trigger] sample_file_fields(raw@)[i]).0 matches Some(
                    p,
                ) && samples@[i].prompt@ == p && opt_text(samples@[i].reference_substring)
                    == sample_file_fields(raw@)[i].1)) by {
                assert forall|i: int| 0 <= i < samples@.len() implies ((
                #[trigger] sample_file_fields(raw@)[i]).0 matches Some(p) && samples@[i].prompt@
                    == p && opt_text(samples@[i].reference_substring) == sample_file_fields(
                    raw@,
                )[i].1) by {
                    assert(entries@[i].prompt is Some);
                    assert(opt_text(entries@[i].prompt) == fields[i].0);
                }
            }
        }
    }
    r
}

/// The built-in sample set used when no sample file is configured: three
/// prompts, each with a reference substring.
pub fn fallback_samples() -> (r: Vec<BenchmarkSample>)
    ensures
        r@.len() == 3,
        r@[0].prompt@ == "Explain the benefits of quantizing a transformer model to int8 precision."@,
        opt_text(r@[0].reference_substring) == Some("quant"@),
        r@[1].prompt@ == "Summarize the rust borrow checker in one sentence."@,
        opt_text(r@[1].reference_substring) == Some("borrow"@),
        r@[2].prompt@ == "Write a haiku about efficient machine learning inference."@,
        opt_text(r@[2].reference_substring) == Some("haiku"@),
{
    let mut r: Vec<BenchmarkSample> = Vec::new();
    r.push(
        BenchmarkSample {
            prompt: "Explain the benefits of quantizing a transformer model to int8 precision.".to_owned(),
            reference_substring: Some("quant".to_owned()),
        },
    );
    r.push(
        BenchmarkSample {
            prompt: "Summarize the rust borrow checker in one sentence.".to_owned(),
            reference_substring: Some("borrow".to_owned()),
        },
    );
    r.push(
        BenchmarkSample {
            prompt: "Write a haiku about efficient machine learning inference.".to_owned(),
            reference_substring: Some("haiku".to_owned()),
        },
    );
    r
}

/// Law: however a run was driven, its reports follow its samples one to
/// one and in input order, each report belonging to the sample at its own
/// position — never to another sample's.
pub proof fn lemma_reports_follow_samples(run: BenchmarkRun)
    requires
        run.wf(),
        run.complete(),
    ensures
        run.reports().len() == run.samples().len(),
        forall|i: int|
            0 <= i < run.reports().len() ==> report_for(
                #[trigger] run.reports()[i],
                run.samples()[i],
            ),
{
}

} // verus!
