//! The autoregressive decode loop, as an explicit state machine.
//!
//! One forward pass of the model is outside work: the driver holds the
//! model handle, runs the pass over the state's current token sequence
//! under exclusive access, selects the next token greedily, and feeds the
//! selected id back here. Everything decided between passes — validation,
//! the placeholder token, appending, the end-of-sequence cut-off, the
//! token bound, and the final response with its timing — is verified here.
//! A state owns its whole token sequence, so two concurrent generations
//! can never interleave their tokens: each feeds its own state alone.

use vstd::prelude::*;

use crate::errors::BadRequestError;
use crate::errors::ServiceError;
use crate::metrics;
use crate::text;
use crate::tokenizer;
use crate::types::GenerationResponse;
use crate::types::ModelMetadata;

verus! {

/// The end-of-sequence token id of the GPT-2 vocabulary.
pub const GPT2_EOS_ID: u32 = 50256;

/// One in-flight generation: the prompt ids plus everything generated so
/// far, the token budget, and whether the end-of-sequence id has been seen.
#[derive(Debug, Clone)]
pub struct DecodeState {
    ids: Vec<u32>,
    prompt_len: usize,
    max_new_tokens: usize,
    eos_id: u32,
    stopped: bool,
}

impl DecodeState {
    /// The whole current token sequence: prompt plus generated.
    pub closed spec fn seq(&self) -> Seq<u32> {
        self.ids@
    }

    /// How many leading tokens of `seq` came from the prompt.
    pub closed spec fn prompt_len(&self) -> int {
        self.prompt_len as int
    }

    /// The most tokens this run may generate.
    pub closed spec fn max_new_tokens(&self) -> int {
        self.max_new_tokens as int
    }

    /// The configured end-of-sequence id.
    pub closed spec fn eos_id(&self) -> u32 {
        self.eos_id
    }

    /// Whether the end-of-sequence id has been generated.
    pub closed spec fn stopped(&self) -> bool {
        self.stopped
    }

    /// The prompt's token ids.
    pub open spec fn prompt_part(&self) -> Seq<u32> {
        self.seq().take(self.prompt_len())
    }

    /// The ids generated so far, in order.
    pub open spec fn generated(&self) -> Seq<u32> {
        self.seq().skip(self.prompt_len())
    }

    /// Structural soundness: the prompt is never empty (a placeholder id
    /// stands in for a prompt that encodes to nothing), the generated part
    /// never exceeds the budget, and `stopped` records exactly that the
    /// last generated id was the end-of-sequence id.
    pub open spec fn wf(&self) -> bool {
        &&& 1 <= self.prompt_len() <= self.seq().len()
        &&& self.generated().len() <= self.max_new_tokens()
        &&& (self.stopped() ==> self.generated().len() > 0 && self.generated().last()
            == self.eos_id())
    }

    /// Decoding is finished: the end-of-sequence id came up, or the budget
    /// is exhausted.
    pub open spec fn done(&self) -> bool {
        self.stopped() || self.generated().len() == self.max_new_tokens()
    }

    /// Whether another forward pass is owed.
    pub fn needs_forward(&self) -> (r: bool)
        requires
            self.wf(),
        ensures
            r == !self.done(),
    {
        !self.stopped && self.ids.len() - self.prompt_len < self.max_new_tokens
    }

    /// The sequence the next forward pass must be run over: the prompt and
    /// every token generated so far.
    pub fn current_ids(&self) -> (ids: &Vec<u32>)
        ensures
            ids@ == self.seq(),
    {
        &self.ids
    }

    /// Appends the token the model selected. If it is the end-of-sequence
    /// id, the run stops at once, however much budget is left; otherwise it
    /// goes on until the budget is spent. The prompt prefix is untouched.
    pub fn feed_token(&mut self, token: u32)
        requires
            old(self).wf(),
            !old(self).done(),
        ensures
            final(self).wf(),
            final(self).seq() == old(self).seq().push(token),
            final(self).prompt_part() == old(self).prompt_part(),
            final(self).generated() == old(self).generated().push(token),
            final(self).prompt_len() == old(self).prompt_len(),
            final(self).max_new_tokens() == old(self).max_new_tokens(),
            final(self).eos_id() == old(self).eos_id(),
            final(self).stopped() <==> token == old(self).eos_id(),
            final(self).done() <==> (token == old(self).eos_id() || final(self).generated().len()
                == final(self).max_new_tokens()),
    {
        let ghost pre = *self;
        self.ids.push(token);
        if token == self.eos_id {
            self.stopped = true;
        }
        proof {
            assert(self.seq().take(pre.prompt_len()) =~= pre.seq().take(pre.prompt_len()));
            assert(self.seq().skip(pre.prompt_len()) =~= pre.seq().skip(pre.prompt_len()).push(
                token,
            ));
        }
    }

    /// How many tokens have been generated so far.
    pub fn generated_count(&self) -> (n: usize)
        requires
            self.wf(),
        ensures
            n == self.generated().len(),
    {
        self.ids.len() - self.prompt_len
    }

    /// A copy of the generated ids alone, prompt excluded.
    pub fn generated_ids(&self) -> (g: Vec<u32>)
        requires
            self.wf(),
        ensures
            g@ == self.generated(),
    {
        let mut g: Vec<u32> = Vec::new();
        let mut i: usize = self.prompt_len;
        proof {
            assert(self.seq().subrange(self.prompt_len(), self.prompt_len()) =~= Seq::<
                u32,
            >::empty());
        }
        while i < self.ids.len()
            invariant
                self.prompt_len <= i <= self.ids.len(),
                g@ =~= self.seq().subrange(self.prompt_len(), i as int),
            decreases self.ids.len() - i,
        {
            g.push(self.ids[i]);
            proof {
                assert(self.seq().subrange(self.prompt_len(), i + 1) =~= self.seq().subrange(
                    self.prompt_len(),
                    i as int,
                ).push(self.seq()[i as int]));
            }
            i = i + 1;
        }
        proof {
            assert(self.seq().subrange(self.prompt_len(), self.seq().len() as int) =~= self.seq().skip(
                self.prompt_len(),
            ));
        }
        g
    }
}

/// Seeds a decode state. A prompt that encoded to no tokens at all is
/// replaced by the single placeholder id 0 so decoding can proceed.
pub fn begin_decode(prompt_ids: Vec<u32>, max_new_tokens: usize, eos_id: u32) -> (s: DecodeState)
    ensures
        s.wf(),
        s.prompt_part() == (if prompt_ids@.len() == 0 {
            seq![0u32]
        } else {
            prompt_ids@
        }),
        s.generated().len() == 0,
        s.max_new_tokens() == max_new_tokens,
        s.eos_id() == eos_id,
        !s.stopped(),
        s.done() <==> max_new_tokens == 0,
{
    let mut ids = prompt_ids;
    if ids.len() == 0 {
        ids.push(0);
    }
    let prompt_len = ids.len();
    let s = DecodeState { ids, prompt_len, max_new_tokens, eos_id, stopped: false };
    proof {
        assert(s.seq().take(s.prompt_len()) =~= s.seq());
        assert(s.seq().skip(s.prompt_len()) =~= Seq::<u32>::empty());
    }
    s
}

/// Law: any well-formed state with a zero token budget is done and has
/// generated nothing, whatever the prompt — feeding requires an unfinished
/// state, so nothing can ever be generated, and the finished response then
/// carries an empty completion and a zero token count.
pub proof fn lemma_zero_budget(s: DecodeState)
    requires
        s.wf(),
        s.max_new_tokens() == 0,
    ensures
        s.done(),
        s.generated().len() == 0,
{
}

/// Law: appending tokens never rewrites history. Whatever tokens a run
/// feeds onto its prompt, the prompt prefix stays exactly the prompt, and
/// the rest is exactly the fed tokens in order — so a completion is always
/// decoded from its own run's selections alone, never another run's.
pub proof fn lemma_generation_isolated(prompt: Seq<u32>, fed: Seq<u32>)
    ensures
        (prompt + fed).take(prompt.len() as int) == prompt,
        (prompt + fed).skip(prompt.len() as int) == fed,
{
    assert((prompt + fed).take(prompt.len() as int) =~= prompt);
    assert((prompt + fed).skip(prompt.len() as int) =~= fed);
}

/// Validates and encodes a prompt and seeds the decode state: a blank
/// prompt (empty or all whitespace) is rejected; an encoding failure is a
/// tokenizer error; otherwise the state starts with the encoded ids (or
/// the placeholder id when the encoding is empty) and an untouched budget.
pub fn begin_generation(
    tok: &tokenizers::Tokenizer,
    prompt: &str,
    max_new_tokens: usize,
    eos_id: u32,
) -> (r: Result<DecodeState, ServiceError>)
    ensures
        text::is_blank(prompt@) <==> r == Err::<DecodeState, ServiceError>(
            ServiceError::BadRequest(BadRequestError::EmptyPrompt),
        ),
        r matches Err(e) ==> (e matches ServiceError::BadRequest(b) ==> b
            == BadRequestError::EmptyPrompt) && (e matches ServiceError::BadRequest(_)
            || e matches ServiceError::Tokenizer(_)),
        r matches Ok(s) ==> {
            &&& !text::is_blank(prompt@)
            &&& s.wf()
            &&& !s.stopped()
            &&& s.generated().len() == 0
            &&& s.max_new_tokens() == max_new_tokens
            &&& s.eos_id() == eos_id
            &&& (s.done() <==> max_new_tokens == 0)
        },
{
    if text::is_blank_str(prompt) {
        return Err(ServiceError::BadRequest(BadRequestError::EmptyPrompt));
    }
    let encoding = match tokenizer::encode_text(tok, prompt, true) {
        Ok(e) => e,
        Err(message) => {
            return Err(ServiceError::Tokenizer(message));
        },
    };
    let ids = tokenizer::encoding_token_ids(&encoding);
    Ok(begin_decode(ids, max_new_tokens, eos_id))
}

/// Decodes the generated ids and assembles the response: the completion is
/// the decoded text of the newly generated ids alone (empty when nothing
/// was generated, in which case nothing can fail), the token count is the
/// number of generated ids, and the throughput covers prompt and generated
/// tokens over the elapsed wall-clock time.
pub fn finish_generation(
    tok: &tokenizers::Tokenizer,
    state: &DecodeState,
    prompt: String,
    elapsed_ms: u64,
    model: ModelMetadata,
) -> (r: Result<GenerationResponse, ServiceError>)
    requires
        state.wf(),
    ensures
        state.generated().len() == 0 ==> r matches Ok(_),
        r matches Ok(resp) ==> {
            &&& resp.prompt == prompt
            &&& resp.model == model
            &&& resp.tokens_generated == state.generated().len()
            &&& resp.total_time_ms == elapsed_ms
            &&& resp.tokens_per_second_milli == metrics::clamp_u64(
                metrics::spec_rate_milli(state.seq().len() as int, elapsed_ms as int),
            )
            &&& (state.generated().len() == 0 ==> resp.completion@ == Seq::<char>::empty())
        },
        r matches Err(e) ==> e matches ServiceError::Tokenizer(_),
{
    let generated = state.generated_ids();
    let tokens_generated = generated.len();
    let completion = if tokens_generated == 0 {
        String::new()
    } else {
        match tokenizer::decode_tokens(tok, &generated, true) {
            Ok(text_out) => text_out,
            Err(message) => {
                return Err(ServiceError::Tokenizer(message));
            },
        }
    };
    let total_tokens = state.current_ids().len();
    let tokens_per_second_milli = metrics::rate_milli(total_tokens, elapsed_ms);
    Ok(
        GenerationResponse {
            prompt,
            completion,
            tokens_generated,
            total_time_ms: elapsed_ms,
            tokens_per_second_milli,
            model,
        },
    )
}

} // verus!
