//! Request and response values of the completion client, and the chat
//! template that flattens a message list into a single prompt.
//!
//! Fractional sampling temperatures are held in tenths as integers, as in
//! [`crate::config`].

use vstd::prelude::*;
use crate::prompt::{
    QuestionTransformationPrompt, spec_fill_in_blank_prompt, spec_explanation_prompt,
    spec_knowledge_tags_prompt, spec_distractors_prompt,
};
use crate::strutil::str_eq;

verus! {

/// One inference request; immutable once submitted.
#[derive(Debug, Clone)]
pub struct InferenceRequest {
    pub prompt: String,
    pub max_tokens: u32,
    /// Sampling temperature in tenths (7 means 0.7).
    pub temperature: u32,
    pub stop_tokens: Vec<String>,
    pub stream: bool,
}

/// One inference result, or one fragment of a streamed result.
#[derive(Debug, Clone)]
pub struct InferenceResponse {
    pub text: String,
    pub tokens_generated: u32,
    pub inference_time_ms: u64,
}

/// One chat turn: a role tag and its content.
#[derive(Debug, Clone)]
pub struct ChatMessage {
    pub role: String,
    pub content: String,
}

/// The text one chat turn contributes to the flattened prompt: a role-tagged
/// segment for the three known roles, nothing for any other role.
pub open spec fn spec_chat_segment(m: ChatMessage) -> Seq<char> {
    if m.role@ == "system"@ {
        "<|im_start|>system\n"@ + m.content@ + "\n<|im_end|>\n"@
    } else if m.role@ == "user"@ {
        "<|im_start|>user\n"@ + m.content@ + "\n<|im_end|>\n"@
    } else if m.role@ == "assistant"@ {
        "<|im_start|>assistant\n"@ + m.content@ + "\n<|im_end|>\n"@
    } else {
        Seq::<char>::empty()
    }
}

/// The segments of all turns, in the order given.
pub open spec fn spec_chat_turns(ms: Seq<ChatMessage>) -> Seq<char>
    decreases ms.len(),
{
    if ms.len() == 0 {
        Seq::<char>::empty()
    } else {
        spec_chat_turns(ms.drop_last()) + spec_chat_segment(ms.last())
    }
}

/// The whole flattened chat prompt: every turn's segment, then the cue for
/// the assistant's reply.
pub open spec fn spec_chat_prompt(ms: Seq<ChatMessage>) -> Seq<char> {
    spec_chat_turns(ms) + "<|im_start|>assistant\n"@
}

/// Flattens a message list into a single prompt by concatenating role-tagged
/// segments in order; turns with an unknown role contribute nothing.
pub fn build_chat_prompt(messages: &Vec<ChatMessage>) -> (r: String)
    ensures
        r@ == spec_chat_prompt(messages@),
{
    let mut s = String::new();
    let n = messages.len();
    let mut i: usize = 0;
    while i < n
        invariant
            n == messages@.len(),
            0 <= i <= n,
            s@ == spec_chat_turns(messages@.subrange(0, i as int)),
        decreases n - i,
    {
        let m = &messages[i];
        if str_eq(m.role.as_str(), "system") {
            s.append("<|im_start|>system\n");
            s.append(m.content.as_str());
            s.append("\n<|im_end|>\n");
        } else if str_eq(m.role.as_str(), "user") {
            s.append("<|im_start|>user\n");
            s.append(m.content.as_str());
            s.append("\n<|im_end|>\n");
        } else if str_eq(m.role.as_str(), "assistant") {
            s.append("<|im_start|>assistant\n");
            s.append(m.content.as_str());
            s.append("\n<|im_end|>\n");
        }
        proof {
            let pre = messages@.subrange(0, i as int);
            let ext = messages@.subrange(0, i as int + 1);
            assert(ext.drop_last() =~= pre);
            assert(ext.last() == messages@[i as int]);
            assert(s@ =~= spec_chat_turns(ext));
        }
        i = i + 1;
    }
    proof {
        assert(messages@.subrange(0, n as int) =~= messages@);
    }
    s.append("<|im_start|>assistant\n");
    s
}

/// The default stop sequences of the chat format.
pub open spec fn spec_chat_stops() -> Seq<Seq<char>> {
    seq!["</s>"@, "[/INST]"@]
}

/// Builds the completion request a chat call dispatches: the flattened
/// prompt, the chat stop sequences, and no streaming.
pub fn chat_request(messages: &Vec<ChatMessage>, max_tokens: u32, temperature: u32) -> (r:
    InferenceRequest)
    ensures
        r.prompt@ == spec_chat_prompt(messages@),
        r.max_tokens == max_tokens,
        r.temperature == temperature,
        r.stop_tokens.deep_view() == spec_chat_stops(),
        r.stream == false,
{
    let prompt = build_chat_prompt(messages);
    let mut stops: Vec<String> = Vec::new();
    stops.push(String::from_str("</s>"));
    stops.push(String::from_str("[/INST]"));
    proof {
        assert(stops.deep_view() =~= spec_chat_stops());
    }
    InferenceRequest { prompt, max_tokens, temperature, stop_tokens: stops, stream: false }
}

/// Builds the request that converts one fill-in-the-blank question: the
/// conversion prompt, 1024 tokens, temperature 0.7, no stops, no streaming.
pub fn transform_request(question: &str, answer: &str, difficulty: u32) -> (r: InferenceRequest)
    ensures
        r.prompt@ == spec_fill_in_blank_prompt(question@, answer@, difficulty),
        r.max_tokens == 1024,
        r.temperature == 7,
        r.stop_tokens.deep_view() == Seq::<Seq<char>>::empty(),
        r.stream == false,
{
    let prompt = QuestionTransformationPrompt::fill_in_blank_to_multiple_choice(
        question,
        answer,
        difficulty,
    );
    let stops: Vec<String> = Vec::new();
    proof {
        assert(stops.deep_view() =~= Seq::<Seq<char>>::empty());
    }
    InferenceRequest { prompt, max_tokens: 1024, temperature: 7, stop_tokens: stops, stream: false }
}

/// Builds the request that asks for `count` distractors at the default
/// medium difficulty: 512 tokens, temperature 0.8, no stops, no streaming.
pub fn distractors_request(question: &str, correct_answer: &str, count: u32) -> (r:
    InferenceRequest)
    ensures
        r.prompt@ == spec_distractors_prompt(question@, correct_answer@, count, 2),
        r.max_tokens == 512,
        r.temperature == 8,
        r.stop_tokens.deep_view() == Seq::<Seq<char>>::empty(),
        r.stream == false,
{
    let prompt = QuestionTransformationPrompt::generate_distractors(
        question,
        correct_answer,
        count,
        2,
    );
    let stops: Vec<String> = Vec::new();
    proof {
        assert(stops.deep_view() =~= Seq::<Seq<char>>::empty());
    }
    InferenceRequest { prompt, max_tokens: 512, temperature: 8, stop_tokens: stops, stream: false }
}

/// Builds the request that asks for a step-by-step explanation: 2048 tokens,
/// temperature 0.7, no stops, no streaming.
pub fn explanation_request(question: &str, answer: &str) -> (r: InferenceRequest)
    ensures
        r.prompt@ == spec_explanation_prompt(question@, answer@),
        r.max_tokens == 2048,
        r.temperature == 7,
        r.stop_tokens.deep_view() == Seq::<Seq<char>>::empty(),
        r.stream == false,
{
    let prompt = QuestionTransformationPrompt::generate_explanation(question, answer);
    let stops: Vec<String> = Vec::new();
    proof {
        assert(stops.deep_view() =~= Seq::<Seq<char>>::empty());
    }
    InferenceRequest { prompt, max_tokens: 2048, temperature: 7, stop_tokens: stops, stream: false }
}

/// Builds the request that asks for knowledge tags: 256 tokens, temperature
/// 0.3, no stops, no streaming.
pub fn tags_request(question: &str) -> (r: InferenceRequest)
    ensures
        r.prompt@ == spec_knowledge_tags_prompt(question@),
        r.max_tokens == 256,
        r.temperature == 3,
        r.stop_tokens.deep_view() == Seq::<Seq<char>>::empty(),
        r.stream == false,
{
    let prompt = QuestionTransformationPrompt::extract_knowledge_tags(question);
    let stops: Vec<String> = Vec::new();
    proof {
        assert(stops.deep_view() =~= Seq::<Seq<char>>::empty());
    }
    InferenceRequest { prompt, max_tokens: 256, temperature: 3, stop_tokens: stops, stream: false }
}

} // verus!
