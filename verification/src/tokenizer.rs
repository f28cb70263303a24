//! Trusted boundary to the tokenizer collaborator.
//!
//! The tokenizer turns text into token-id sequences and back. It is loaded
//! from a file at startup and read-only afterwards, so it is shared freely.
//! Nothing is assumed about what ids a given text encodes to: the verified
//! decode loop treats the ids as opaque input and states its guarantees for
//! every possible outcome.

use vstd::prelude::*;

verus! {

#[verifier::external_type_specification]
#[verifier::external_body]
pub struct ExTokenizer(tokenizers::Tokenizer);

#[verifier::external_type_specification]
#[verifier::external_body]
pub struct ExEncoding(tokenizers::Encoding);

/// Relies on Tokenizer::encode: turns text into an encoding, or fails with
/// the tokenizer's message. Which ids come back depends on the loaded
/// tokenizer file, so nothing is claimed of them.
#[verifier::external_body]
pub(crate) fn encode_text(
    tokenizer: &tokenizers::Tokenizer,
    input: &str,
    add_special_tokens: bool,
) -> Result<tokenizers::Encoding, String> {
    tokenizer.encode(input, add_special_tokens).map_err(|e| e.to_string())
}

/// Relies on Encoding::get_ids: hands out the encoding's token ids.
#[verifier::external_body]
pub(crate) fn encoding_token_ids(encoding: &tokenizers::Encoding) -> Vec<u32> {
    encoding.get_ids().to_vec()
}

/// Relies on Tokenizer::decode: turns token ids back into text, or fails
/// with the tokenizer's message. What text comes back depends on the loaded
/// tokenizer file, so nothing is claimed of it.
#[verifier::external_body]
pub(crate) fn decode_tokens(
    tokenizer: &tokenizers::Tokenizer,
    ids: &Vec<u32>,
    skip_special_tokens: bool,
) -> Result<String, String> {
    tokenizer.decode(ids, skip_special_tokens).map_err(|e| e.to_string())
}

} // verus!
