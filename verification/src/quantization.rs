//! The derived size-reduction metric for a quantized artifact.

use vstd::prelude::*;

use crate::types::ModelMetadata;

verus! {

/// How much smaller the quantized artifact is than the baseline, in
/// thousandths of a percent (10000 stands for 10%). The subtraction
/// saturates at zero, so a quantized artifact larger than the baseline
/// reports 0% rather than a negative reduction, and an unknown or zero
/// baseline size yields no reduction and 0% respectively.
#[derive(Debug, Clone, PartialEq, Eq)]
pub struct QuantizationSummary {
    pub baseline_size_bytes: Option<u64>,
    pub quantized_size_bytes: u64,
    pub size_reduction_milli_percent: Option<u64>,
}

/// The percent size reduction, scaled by 1000:
/// (baseline − quantized) / baseline × 100000, with the numerator
/// saturating at zero and a zero baseline yielding zero outright.
pub open spec fn spec_size_reduction_milli_percent(quantized: int, baseline: int) -> int {
    if baseline == 0 {
        0
    } else {
        (if baseline > quantized {
            baseline - quantized
        } else {
            0
        }) * 100000 / baseline
    }
}

impl QuantizationSummary {
    /// Derives the summary from the two metadata records; the baseline may
    /// be unknown, in which case no reduction is reported.
    pub fn from_metadata(quantized: &ModelMetadata, baseline: Option<&ModelMetadata>) -> (r:
        QuantizationSummary)
        ensures
            r.quantized_size_bytes == quantized.size_bytes,
            baseline is None ==> r.baseline_size_bytes is None
                && r.size_reduction_milli_percent is None,
            baseline matches Some(b) ==> r.baseline_size_bytes == Some(b.size_bytes)
                && r.size_reduction_milli_percent == Some(
                spec_size_reduction_milli_percent(
                    quantized.size_bytes as int,
                    b.size_bytes as int,
                ) as u64,
            ),
    {
        let (baseline_size_bytes, size_reduction_milli_percent): (Option<u64>, Option<u64>) =
            match baseline {
            Some(b) => {
                let reduction = size_reduction_milli_percent(quantized.size_bytes, b.size_bytes);
                (Some(b.size_bytes), Some(reduction))
            },
            None => (None, None),
        };
        QuantizationSummary {
            baseline_size_bytes,
            quantized_size_bytes: quantized.size_bytes,
            size_reduction_milli_percent,
        }
    }
}

/// Computes the scaled reduction exactly; the result never exceeds 100%,
/// so it always fits its field.
pub fn size_reduction_milli_percent(quantized: u64, baseline: u64) -> (r: u64)
    ensures
        r == spec_size_reduction_milli_percent(quantized as int, baseline as int),
        r <= 100000,
{
    if baseline == 0 {
        0
    } else {
        let diff: u64 = if baseline > quantized {
            baseline - quantized
        } else {
            0
        };
        let wide: u128 = (diff as u128) * 100000 / (baseline as u128);
        proof {
            assert((diff as int) * 100000 / (baseline as int) <= 100000) by (nonlinear_arith)
                requires
                    1 <= (baseline as int),
                    0 <= (diff as int) && (diff as int) <= (baseline as int),
            ;
            assert((diff as int) * 100000 >= 0) by (nonlinear_arith)
                requires
                    0 <= (diff as int),
            ;
            assert((diff as int) * 100000 / (baseline as int) >= 0) by (nonlinear_arith)
                requires
                    1 <= (baseline as int),
                    0 <= (diff as int) * 100000,
            ;
        }
        wide as u64
    }
}

} // verus!
