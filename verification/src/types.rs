use vstd::prelude::*;

verus! {

/// Identifying facts about one loaded model artifact, fixed at load time.
#[derive(Debug, Clone, PartialEq, Eq)]
pub struct ModelMetadata {
    pub name: String,
    pub quantized: bool,
    pub dtype: String,
    pub size_bytes: u64,
}

/// A caller's generation request. Unset fields fall back to the process-wide
/// defaults. Temperature is carried in thousandths (800 stands for 0.8); it
/// and `top_k` are accepted for compatibility only: selection is greedy and
/// neither alters it.
#[derive(Debug, Clone, PartialEq, Eq)]
pub struct GenerationRequest {
    pub prompt: String,
    pub max_new_tokens: Option<usize>,
    pub temperature_milli: Option<u64>,
    pub top_k: Option<usize>,
}

/// What one generation produced, with its timing and throughput.
/// `tokens_per_second_milli` is the throughput in thousandths of a token per
/// second (10500 stands for 10.5 tokens/s).
#[derive(Debug, Clone, PartialEq, Eq)]
pub struct GenerationResponse {
    pub prompt: String,
    pub completion: String,
    pub tokens_generated: usize,
    pub total_time_ms: u64,
    pub tokens_per_second_milli: u64,
    pub model: ModelMetadata,
}

/// Process-wide defaults for generation parameters, read once at startup.
#[derive(Debug, Clone, PartialEq, Eq)]
pub struct GenerationDefaults {
    pub max_new_tokens: usize,
    pub temperature_milli: u64,
    pub top_k: usize,
}

/// The generation parameters a single request resolves to.
#[derive(Debug, Clone, PartialEq, Eq)]
pub struct ResolvedParams {
    pub max_new_tokens: usize,
    pub temperature_milli: u64,
    pub top_k: usize,
}

pub const DEFAULT_MAX_NEW_TOKENS: usize = 64;

pub const DEFAULT_TEMPERATURE_MILLI: u64 = 800;

pub const DEFAULT_TOP_K: usize = 40;

impl GenerationDefaults {
    /// The built-in defaults: 64 new tokens, temperature 0.8, top-k 40.
    pub fn standard() -> (d: GenerationDefaults)
        ensures
            d.max_new_tokens == DEFAULT_MAX_NEW_TOKENS,
            d.temperature_milli == DEFAULT_TEMPERATURE_MILLI,
            d.top_k == DEFAULT_TOP_K,
    {
        GenerationDefaults {
            max_new_tokens: DEFAULT_MAX_NEW_TOKENS,
            temperature_milli: DEFAULT_TEMPERATURE_MILLI,
            top_k: DEFAULT_TOP_K,
        }
    }
}

/// Each unset request field falls back to the corresponding default.
pub fn resolve_params(request: &GenerationRequest, defaults: &GenerationDefaults) -> (p:
    ResolvedParams)
    ensures
        p.max_new_tokens == match request.max_new_tokens {
            Some(n) => n,
            None => defaults.max_new_tokens,
        },
        p.temperature_milli == match request.temperature_milli {
            Some(t) => t,
            None => defaults.temperature_milli,
        },
        p.top_k == match request.top_k {
            Some(k) => k,
            None => defaults.top_k,
        },
{
    let max_new_tokens: usize = match request.max_new_tokens {
        Some(n) => n,
        None => defaults.max_new_tokens,
    };
    let temperature_milli: u64 = match request.temperature_milli {
        Some(t) => t,
        None => defaults.temperature_milli,
    };
    let top_k: usize = match request.top_k {
        Some(k) => k,
        None => defaults.top_k,
    };
    ResolvedParams { max_new_tokens, temperature_milli, top_k }
}

} // verus!
