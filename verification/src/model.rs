//! The typed model of a chat-completion response, and the outbound message
//! shape.
//!
//! A response is decoded once (see `decode`), is immutable afterwards, and
//! each choice is consumed exactly once by the output stage. No invariant
//! forces `choices` to be non-empty, `index` values to be distinct, or
//! `total_tokens` to equal the sum of the other two counters: the service is
//! trusted on those points and the library stays permissive.

use vstd::prelude::*;

verus! {

/// One candidate completion's termination condition. Only `Stop` marks a
/// complete answer whose content may be printed; every other variant means
/// truncation, filtering, or a tool-invocation turn, and the content of such
/// a choice is discarded whole, never partially emitted.
#[derive(Clone, Copy, Debug, PartialEq, Eq, Structural)]
pub enum FinishReason {
    Stop,
    Length,
    ContentFilter,
    ToolCalls,
    FunctionCall,
}

/// The assistant's turn inside one choice: a role label (the service sends
/// "assistant"; the value is kept, not checked) and the text content, which
/// may hold several logical lines separated by newline characters.
pub struct Message {
    pub role: String,
    pub content: String,
}

/// A log-probability exactly as received: a non-negative integer, a
/// negative integer, or any other number kept as its decimal text. It is
/// never interpreted, so any number the service sends is accepted and
/// carried untouched.
#[derive(Debug, PartialEq, Eq)]
pub enum JsonNum {
    UInt(u64),
    Int(i64),
    Other(String),
}

/// One alternative token with its log-probability.
pub struct TopLogProb {
    pub token: String,
    pub logprob: JsonNum,
    pub bytes: Option<Vec<i32>>,
}

/// Per-token diagnostic detail. Present for schema fidelity only; the
/// output stage never reads it.
pub struct TokenInfo {
    pub token: String,
    pub logprob: JsonNum,
    pub bytes: Option<Vec<i32>>,
    pub top_logprobs: Vec<TopLogProb>,
}

/// Optional per-choice log-probability block.
pub struct LogProbs {
    pub content: Option<Vec<TokenInfo>>,
}

/// One candidate completion.
pub struct Choice {
    pub index: u32,
    pub message: Message,
    pub logprobs: Option<LogProbs>,
    pub finish_reason: FinishReason,
}

/// Token accounting for one request. All counters are non-negative; the
/// service is expected, but not required, to make `total_tokens` the sum of
/// the other two.
pub struct Usage {
    pub prompt_tokens: u32,
    pub completion_tokens: u32,
    pub total_tokens: u32,
}

/// The decoded top-level response.
pub struct ChatCompletion {
    pub id: String,
    pub object: String,
    pub created: i64,
    pub model: String,
    pub system_fingerprint: String,
    pub choices: Vec<Choice>,
    pub usage: Usage,
}

/// Outbound message shape: a request carries a single user turn.
pub enum Msg {
    User { content: String },
}

} // verus!
