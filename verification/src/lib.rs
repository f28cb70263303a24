//! Inference orchestration and evaluation for a text-generation service.
//!
//! The library holds the verified core: the autoregressive decode loop as an
//! explicit state machine, request routing over the loaded model handles,
//! benchmark aggregation in exact fixed-point arithmetic, and the validation
//! of benchmark sample files. The tokenizer and the tensor engine are outside
//! collaborators reached through a small set of trusted wrappers.

pub mod decode;
pub mod device;
pub mod errors;
pub mod evaluation;
pub mod json;
pub mod metrics;
pub mod quantization;
pub mod registry;
pub mod text;
pub mod tokenizer;
pub mod types;
