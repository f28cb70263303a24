use vstd::prelude::*;

verus! {

/// The ways a caller-supplied input can be rejected.
#[derive(Debug, Clone, PartialEq, Eq)]
pub enum BadRequestError {
    /// The prompt was empty or held only whitespace.
    EmptyPrompt,
    /// The baseline path was demanded but no baseline handle exists.
    BaselineUnavailable,
    /// A benchmark run was asked for with no samples at all.
    EmptySampleSet,
    /// The benchmark sample file was not valid JSON; carries the parser's message.
    InvalidSampleFile(String),
    /// The benchmark sample file was valid JSON but not an array.
    SampleFileNotArray,
    /// The entry at this index in the sample file has no string field "prompt".
    SampleMissingPrompt(usize),
}

/// The service's failure taxonomy. Every fallible operation of the library
/// returns one of these; nothing is swallowed and nothing is retried.
#[derive(Debug, Clone, PartialEq, Eq)]
pub enum ServiceError {
    /// A required model handle has not been loaded.
    ModelLoading,
    /// The caller's input is invalid.
    BadRequest(BadRequestError),
    /// The tokenizer failed to encode or decode.
    Tokenizer(String),
    /// The forward pass failed, produced an unexpected shape, or the worker died.
    Inference(String),
    /// Reserved for quantization-path failures.
    Quantization(String),
    /// An artifact could not be read.
    Io(String),
    /// A startup or configuration failure.
    Other(String),
}

pub const STATUS_SERVICE_UNAVAILABLE: u16 = 503;

pub const STATUS_BAD_REQUEST: u16 = 400;

pub const STATUS_INTERNAL_SERVER_ERROR: u16 = 500;

impl ServiceError {
    /// The HTTP status class a failure maps to: unavailable for a missing
    /// model, bad-request for invalid input, internal error for the rest.
    pub open spec fn spec_status_code(&self) -> u16 {
        match self {
            ServiceError::ModelLoading => STATUS_SERVICE_UNAVAILABLE,
            ServiceError::BadRequest(_) => STATUS_BAD_REQUEST,
            _ => STATUS_INTERNAL_SERVER_ERROR,
        }
    }

    /// Maps each failure to its caller-visible HTTP status code, keeping the
    /// three-way distinction between unavailable, bad input, and internal.
    pub fn status_code(&self) -> (code: u16)
        ensures
            code == self.spec_status_code(),
    {
        match self {
            ServiceError::ModelLoading => STATUS_SERVICE_UNAVAILABLE,
            ServiceError::BadRequest(_) => STATUS_BAD_REQUEST,
            ServiceError::Tokenizer(_) => STATUS_INTERNAL_SERVER_ERROR,
            ServiceError::Inference(_) => STATUS_INTERNAL_SERVER_ERROR,
            ServiceError::Quantization(_) => STATUS_INTERNAL_SERVER_ERROR,
            ServiceError::Io(_) => STATUS_INTERNAL_SERVER_ERROR,
            ServiceError::Other(_) => STATUS_INTERNAL_SERVER_ERROR,
        }
    }
}

} // verus!
