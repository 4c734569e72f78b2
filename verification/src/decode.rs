//! Decoding a response body into the typed model.
//!
//! The body is parsed into the library's JSON tree (see `jsonv`), and the
//! decoder walks that tree here, in ordinary verified code. What a decode
//! returns is pinned exactly: `decode_response` yields, field for field, the
//! value of the spec decoder `decode_spec` on the named parse result of the
//! body — the same required fields, the same counter ranges, the same closed
//! finish-reason set, and the same error, in the same order of precedence.
//! The spec decoder reads an object only through `doc_get`, key by key, so
//! fields it never asks for can neither fail a decode nor change its result;
//! the two lemmas at the end state that tolerance as a law.

use vstd::prelude::*;
use crate::jsonv::{json_doc_of, parse_json};
use crate::model::{
    ChatCompletion, Choice, FinishReason, JsonNum, LogProbs, Message, TokenInfo, TopLogProb, Usage,
};
use crate::text::str_eq;
use crate::tree::{doc_get, Json};

verus! {

/// Why a response body was rejected.
#[derive(Clone, Copy, Debug, PartialEq, Eq, Structural)]
pub enum DecodeError {
    /// The body is not a JSON document.
    Syntax,
    /// A required field is missing, has the wrong type, or holds a number
    /// outside its counter's range.
    Field,
    /// `finish_reason` holds a string outside the closed variant set.
    UnknownFinishReason,
}

/// The closed mapping from wire strings to finish-reason variants; any
/// other string maps to nothing.
pub open spec fn finish_reason_of(s: Seq<char>) -> Option<FinishReason> {
    if s == "stop"@ {
        Some(FinishReason::Stop)
    } else if s == "length"@ {
        Some(FinishReason::Length)
    } else if s == "content_filter"@ {
        Some(FinishReason::ContentFilter)
    } else if s == "tool_calls"@ {
        Some(FinishReason::ToolCalls)
    } else if s == "function_call"@ {
        Some(FinishReason::FunctionCall)
    } else {
        None
    }
}

/// Parses a wire finish reason. An unrecognized string yields `None`, so it
/// surfaces as an explicit decode error instead of a silently false string
/// comparison.
pub fn finish_reason_from_str(s: &str) -> (r: Option<FinishReason>)
    ensures
        r == finish_reason_of(s@),
{
    if str_eq(s, "stop") {
        Some(FinishReason::Stop)
    } else if str_eq(s, "length") {
        Some(FinishReason::Length)
    } else if str_eq(s, "content_filter") {
        Some(FinishReason::ContentFilter)
    } else if str_eq(s, "tool_calls") {
        Some(FinishReason::ToolCalls)
    } else if str_eq(s, "function_call") {
        Some(FinishReason::FunctionCall)
    } else {
        None
    }
}

// ---------------------------------------------------------------------------
// The decoded values at the spec level: strings as character sequences,
// lists as sequences. `abs_*` maps each model value to this mirror.
// ---------------------------------------------------------------------------

/// A log-probability at the spec level.
pub enum NumV {
    UInt(u64),
    Int(i64),
    Other(Seq<char>),
}

/// One alternative token at the spec level.
pub struct TopV {
    pub token: Seq<char>,
    pub logprob: NumV,
    pub bytes: Option<Seq<i32>>,
}

/// One token's diagnostic record at the spec level.
pub struct TokV {
    pub token: Seq<char>,
    pub logprob: NumV,
    pub bytes: Option<Seq<i32>>,
    pub top_logprobs: Seq<TopV>,
}

/// The per-choice log-probability block at the spec level.
pub struct LogProbsV {
    pub content: Option<Seq<TokV>>,
}

/// The assistant's message at the spec level.
pub struct MessageV {
    pub role: Seq<char>,
    pub content: Seq<char>,
}

/// One candidate completion at the spec level.
pub struct ChoiceV {
    pub index: u32,
    pub message: MessageV,
    pub logprobs: Option<LogProbsV>,
    pub finish_reason: FinishReason,
}

/// The whole decoded response at the spec level.
pub struct ChatV {
    pub id: Seq<char>,
    pub object: Seq<char>,
    pub created: i64,
    pub model: Seq<char>,
    pub system_fingerprint: Seq<char>,
    pub choices: Seq<ChoiceV>,
    pub usage: Usage,
}

pub open spec fn abs_num(n: JsonNum) -> NumV {
    match n {
        JsonNum::UInt(u) => NumV::UInt(u),
        JsonNum::Int(i) => NumV::Int(i),
        JsonNum::Other(s) => NumV::Other(s@),
    }
}

pub open spec fn abs_bytes(b: Option<Vec<i32>>) -> Option<Seq<i32>> {
    match b {
        Some(v) => Some(v@),
        None => None,
    }
}

pub open spec fn abs_top(t: TopLogProb) -> TopV {
    TopV { token: t.token@, logprob: abs_num(t.logprob), bytes: abs_bytes(t.bytes) }
}

pub open spec fn abs_tops(ts: Seq<TopLogProb>) -> Seq<TopV> {
    ts.map_values(|t: TopLogProb| abs_top(t))
}

pub open spec fn abs_token(t: TokenInfo) -> TokV {
    TokV {
        token: t.token@,
        logprob: abs_num(t.logprob),
        bytes: abs_bytes(t.bytes),
        top_logprobs: abs_tops(t.top_logprobs@),
    }
}

pub open spec fn abs_tokens(ts: Seq<TokenInfo>) -> Seq<TokV> {
    ts.map_values(|t: TokenInfo| abs_token(t))
}

pub open spec fn abs_logprobs(l: LogProbs) -> LogProbsV {
    LogProbsV {
        content: match l.content {
            Some(v) => Some(abs_tokens(v@)),
            None => None,
        },
    }
}

pub open spec fn abs_message(m: Message) -> MessageV {
    MessageV { role: m.role@, content: m.content@ }
}

pub open spec fn abs_choice(c: Choice) -> ChoiceV {
    ChoiceV {
        index: c.index,
        message: abs_message(c.message),
        logprobs: match c.logprobs {
            Some(l) => Some(abs_logprobs(l)),
            None => None,
        },
        finish_reason: c.finish_reason,
    }
}

pub open spec fn abs_choices(cs: Seq<Choice>) -> Seq<ChoiceV> {
    cs.map_values(|c: Choice| abs_choice(c))
}

pub open spec fn abs_chat(c: ChatCompletion) -> ChatV {
    ChatV {
        id: c.id@,
        object: c.object@,
        created: c.created,
        model: c.model@,
        system_fingerprint: c.system_fingerprint@,
        choices: abs_choices(c.choices@),
        usage: c.usage,
    }
}

// ---------------------------------------------------------------------------
// The spec decoder: what every field of a decode is, and which error comes
// first where the tree does not fit. Each function mirrors one decoding
// step; an object is only ever read through `doc_get`.
// ---------------------------------------------------------------------------

/// A required string field.
pub open spec fn sp_str(d: Json, key: Seq<char>) -> Result<Seq<char>, DecodeError> {
    match doc_get(d, key) {
        Some(Json::Str(s)) => Ok(s@),
        _ => Err(DecodeError::Field),
    }
}

/// A required counter: a non-negative integer that fits 32 bits.
pub open spec fn sp_u32(d: Json, key: Seq<char>) -> Result<u32, DecodeError> {
    match doc_get(d, key) {
        Some(Json::UInt(x)) => if x <= 0xffff_ffff {
            Ok(x as u32)
        } else {
            Err(DecodeError::Field)
        },
        _ => Err(DecodeError::Field),
    }
}

/// A required signed 64-bit integer field.
pub open spec fn sp_i64(d: Json, key: Seq<char>) -> Result<i64, DecodeError> {
    match doc_get(d, key) {
        Some(Json::UInt(x)) => if x <= 0x7fff_ffff_ffff_ffff {
            Ok(x as i64)
        } else {
            Err(DecodeError::Field)
        },
        Some(Json::Int(x)) => Ok(x),
        _ => Err(DecodeError::Field),
    }
}

/// A number node, kept uninterpreted.
pub open spec fn sp_num(v: Json) -> Result<NumV, DecodeError> {
    match v {
        Json::UInt(u) => Ok(NumV::UInt(u)),
        Json::Int(i) => Ok(NumV::Int(i)),
        Json::Num(s) => Ok(NumV::Other(s@)),
        _ => Err(DecodeError::Field),
    }
}

/// The required `logprob` field of a token record.
pub open spec fn sp_logprob_field(d: Json) -> Result<NumV, DecodeError> {
    match doc_get(d, "logprob"@) {
        Some(v) => sp_num(v),
        None => Err(DecodeError::Field),
    }
}

/// One element of a raw byte list: an integer in the signed 32-bit range.
pub open spec fn sp_byte(v: Json) -> Result<i32, DecodeError> {
    match v {
        Json::UInt(u) => if u <= 0x7fff_ffff {
            Ok(u as i32)
        } else {
            Err(DecodeError::Field)
        },
        Json::Int(i) => if -0x8000_0000 <= i && i <= 0x7fff_ffff {
            Ok(i as i32)
        } else {
            Err(DecodeError::Field)
        },
        _ => Err(DecodeError::Field),
    }
}

/// The byte elements of `items` appended to `acc`, or the first error.
pub open spec fn sp_bytes_rest(items: Seq<Json>, acc: Seq<i32>) -> Result<Seq<i32>, DecodeError>
    decreases items.len(),
{
    if items.len() == 0 {
        Ok(acc)
    } else {
        match sp_byte(items[0]) {
            Ok(b) => sp_bytes_rest(items.drop_first(), acc.push(b)),
            Err(e) => Err(e),
        }
    }
}

/// The optional `bytes` field: absent or null is nothing; otherwise every
/// element must be an integer in the signed 32-bit range.
pub open spec fn sp_opt_bytes(d: Json) -> Result<Option<Seq<i32>>, DecodeError> {
    match doc_get(d, "bytes"@) {
        None => Ok(None),
        Some(Json::Null) => Ok(None),
        Some(Json::Arr(items)) => match sp_bytes_rest(items@, Seq::empty()) {
            Ok(b) => Ok(Some(b)),
            Err(e) => Err(e),
        },
        Some(_) => Err(DecodeError::Field),
    }
}

/// One alternative token: its token string, its uninterpreted number, its
/// optional bytes — the first failing field decides the error.
pub open spec fn sp_top(d: Json) -> Result<TopV, DecodeError> {
    if sp_str(d, "token"@) is Err {
        Err(sp_str(d, "token"@)->Err_0)
    } else if sp_logprob_field(d) is Err {
        Err(sp_logprob_field(d)->Err_0)
    } else if sp_opt_bytes(d) is Err {
        Err(sp_opt_bytes(d)->Err_0)
    } else {
        Ok(
            TopV {
                token: sp_str(d, "token"@)->Ok_0,
                logprob: sp_logprob_field(d)->Ok_0,
                bytes: sp_opt_bytes(d)->Ok_0,
            },
        )
    }
}

/// The alternative tokens of `items` appended to `acc`, or the first error.
pub open spec fn sp_tops_rest(items: Seq<Json>, acc: Seq<TopV>) -> Result<Seq<TopV>, DecodeError>
    decreases items.len(),
{
    if items.len() == 0 {
        Ok(acc)
    } else {
        match sp_top(items[0]) {
            Ok(t) => sp_tops_rest(items.drop_first(), acc.push(t)),
            Err(e) => Err(e),
        }
    }
}

/// The required `top_logprobs` list of a token record.
pub open spec fn sp_tops_field(d: Json) -> Result<Seq<TopV>, DecodeError> {
    match doc_get(d, "top_logprobs"@) {
        Some(Json::Arr(items)) => sp_tops_rest(items@, Seq::empty()),
        _ => Err(DecodeError::Field),
    }
}

/// One token record.
pub open spec fn sp_token(d: Json) -> Result<TokV, DecodeError> {
    if sp_str(d, "token"@) is Err {
        Err(sp_str(d, "token"@)->Err_0)
    } else if sp_logprob_field(d) is Err {
        Err(sp_logprob_field(d)->Err_0)
    } else if sp_opt_bytes(d) is Err {
        Err(sp_opt_bytes(d)->Err_0)
    } else if sp_tops_field(d) is Err {
        Err(sp_tops_field(d)->Err_0)
    } else {
        Ok(
            TokV {
                token: sp_str(d, "token"@)->Ok_0,
                logprob: sp_logprob_field(d)->Ok_0,
                bytes: sp_opt_bytes(d)->Ok_0,
                top_logprobs: sp_tops_field(d)->Ok_0,
            },
        )
    }
}

/// The token records of `items` appended to `acc`, or the first error.
pub open spec fn sp_tokens_rest(items: Seq<Json>, acc: Seq<TokV>) -> Result<Seq<TokV>, DecodeError>
    decreases items.len(),
{
    if items.len() == 0 {
        Ok(acc)
    } else {
        match sp_token(items[0]) {
            Ok(t) => sp_tokens_rest(items.drop_first(), acc.push(t)),
            Err(e) => Err(e),
        }
    }
}

/// The log-probability block: its `content` list is optional the same way
/// `bytes` is.
pub open spec fn sp_logprobs(d: Json) -> Result<LogProbsV, DecodeError> {
    match doc_get(d, "content"@) {
        None => Ok(LogProbsV { content: None }),
        Some(Json::Null) => Ok(LogProbsV { content: None }),
        Some(Json::Arr(items)) => match sp_tokens_rest(items@, Seq::empty()) {
            Ok(ts) => Ok(LogProbsV { content: Some(ts) }),
            Err(e) => Err(e),
        },
        Some(_) => Err(DecodeError::Field),
    }
}

/// The optional `logprobs` field of a choice: absent or null is nothing.
pub open spec fn sp_opt_logprobs(d: Json) -> Result<Option<LogProbsV>, DecodeError> {
    match doc_get(d, "logprobs"@) {
        None => Ok(None),
        Some(Json::Null) => Ok(None),
        Some(l) => match sp_logprobs(l) {
            Ok(x) => Ok(Some(x)),
            Err(e) => Err(e),
        },
    }
}

/// The assistant's message: role and content, both required strings.
pub open spec fn sp_message(d: Json) -> Result<MessageV, DecodeError> {
    if sp_str(d, "role"@) is Err {
        Err(sp_str(d, "role"@)->Err_0)
    } else if sp_str(d, "content"@) is Err {
        Err(sp_str(d, "content"@)->Err_0)
    } else {
        Ok(MessageV { role: sp_str(d, "role"@)->Ok_0, content: sp_str(d, "content"@)->Ok_0 })
    }
}

/// The required `message` field of a choice.
pub open spec fn sp_message_field(d: Json) -> Result<MessageV, DecodeError> {
    match doc_get(d, "message"@) {
        Some(m) => sp_message(m),
        None => Err(DecodeError::Field),
    }
}

/// The required `finish_reason` field: a string of the closed set, an
/// out-of-set string being its own error.
pub open spec fn sp_finish(d: Json) -> Result<FinishReason, DecodeError> {
    match doc_get(d, "finish_reason"@) {
        Some(Json::Str(s)) => match finish_reason_of(s@) {
            Some(fr) => Ok(fr),
            None => Err(DecodeError::UnknownFinishReason),
        },
        _ => Err(DecodeError::Field),
    }
}

/// One candidate completion: index, message, optional log-probabilities,
/// finish reason — the first failing field decides the error.
pub open spec fn sp_choice(d: Json) -> Result<ChoiceV, DecodeError> {
    if sp_u32(d, "index"@) is Err {
        Err(sp_u32(d, "index"@)->Err_0)
    } else if sp_message_field(d) is Err {
        Err(sp_message_field(d)->Err_0)
    } else if sp_opt_logprobs(d) is Err {
        Err(sp_opt_logprobs(d)->Err_0)
    } else if sp_finish(d) is Err {
        Err(sp_finish(d)->Err_0)
    } else {
        Ok(
            ChoiceV {
                index: sp_u32(d, "index"@)->Ok_0,
                message: sp_message_field(d)->Ok_0,
                logprobs: sp_opt_logprobs(d)->Ok_0,
                finish_reason: sp_finish(d)->Ok_0,
            },
        )
    }
}

/// The choices of `items` appended to `acc`, or the first error.
pub open spec fn sp_choices_rest(items: Seq<Json>, acc: Seq<ChoiceV>) -> Result<
    Seq<ChoiceV>,
    DecodeError,
>
    decreases items.len(),
{
    if items.len() == 0 {
        Ok(acc)
    } else {
        match sp_choice(items[0]) {
            Ok(c) => sp_choices_rest(items.drop_first(), acc.push(c)),
            Err(e) => Err(e),
        }
    }
}

/// The required `choices` list.
pub open spec fn sp_choices_field(d: Json) -> Result<Seq<ChoiceV>, DecodeError> {
    match doc_get(d, "choices"@) {
        Some(Json::Arr(items)) => sp_choices_rest(items@, Seq::empty()),
        _ => Err(DecodeError::Field),
    }
}

/// The token accounting block.
pub open spec fn sp_usage(d: Json) -> Result<Usage, DecodeError> {
    if sp_u32(d, "prompt_tokens"@) is Err {
        Err(sp_u32(d, "prompt_tokens"@)->Err_0)
    } else if sp_u32(d, "completion_tokens"@) is Err {
        Err(sp_u32(d, "completion_tokens"@)->Err_0)
    } else if sp_u32(d, "total_tokens"@) is Err {
        Err(sp_u32(d, "total_tokens"@)->Err_0)
    } else {
        Ok(
            Usage {
                prompt_tokens: sp_u32(d, "prompt_tokens"@)->Ok_0,
                completion_tokens: sp_u32(d, "completion_tokens"@)->Ok_0,
                total_tokens: sp_u32(d, "total_tokens"@)->Ok_0,
            },
        )
    }
}

/// The required `usage` field.
pub open spec fn sp_usage_field(d: Json) -> Result<Usage, DecodeError> {
    match doc_get(d, "usage"@) {
        Some(u) => sp_usage(u),
        None => Err(DecodeError::Field),
    }
}

/// What decoding a parsed document returns: every modeled field, or the
/// first error in field order.
pub open spec fn decode_doc_spec(d: Json) -> Result<ChatV, DecodeError> {
    if sp_str(d, "id"@) is Err {
        Err(sp_str(d, "id"@)->Err_0)
    } else if sp_str(d, "object"@) is Err {
        Err(sp_str(d, "object"@)->Err_0)
    } else if sp_i64(d, "created"@) is Err {
        Err(sp_i64(d, "created"@)->Err_0)
    } else if sp_str(d, "model"@) is Err {
        Err(sp_str(d, "model"@)->Err_0)
    } else if sp_str(d, "system_fingerprint"@) is Err {
        Err(sp_str(d, "system_fingerprint"@)->Err_0)
    } else if sp_choices_field(d) is Err {
        Err(sp_choices_field(d)->Err_0)
    } else if sp_usage_field(d) is Err {
        Err(sp_usage_field(d)->Err_0)
    } else {
        Ok(
            ChatV {
                id: sp_str(d, "id"@)->Ok_0,
                object: sp_str(d, "object"@)->Ok_0,
                created: sp_i64(d, "created"@)->Ok_0,
                model: sp_str(d, "model"@)->Ok_0,
                system_fingerprint: sp_str(d, "system_fingerprint"@)->Ok_0,
                choices: sp_choices_field(d)->Ok_0,
                usage: sp_usage_field(d)->Ok_0,
            },
        )
    }
}

/// What decoding a body returns: a body that is no JSON document is a
/// syntax error; otherwise the decode of its parsed tree.
pub open spec fn decode_spec(doc: Option<Json>) -> Result<ChatV, DecodeError> {
    match doc {
        None => Err(DecodeError::Syntax),
        Some(d) => decode_doc_spec(d),
    }
}

// ---------------------------------------------------------------------------
// The executable decoder, each step proved equal to its spec mirror.
// ---------------------------------------------------------------------------

/// A required string field.
fn req_str(v: &Json, key: &str) -> (r: Result<String, DecodeError>)
    ensures
        r is Ok <==> sp_str(*v, key@) is Ok,
        r is Ok ==> r->Ok_0@ == sp_str(*v, key@)->Ok_0,
        r is Err ==> r->Err_0 == sp_str(*v, key@)->Err_0,
{
    match v.get(key) {
        Some(f) => match f {
            Json::Str(s) => Ok(s.clone()),
            _ => Err(DecodeError::Field),
        },
        None => Err(DecodeError::Field),
    }
}

/// A required counter that must fit in 32 bits.
fn req_u32(v: &Json, key: &str) -> (r: Result<u32, DecodeError>)
    ensures
        r == sp_u32(*v, key@),
{
    match v.get(key) {
        Some(f) => match f {
            Json::UInt(x) => {
                if *x <= 0xffff_ffff {
                    Ok(*x as u32)
                } else {
                    Err(DecodeError::Field)
                }
            },
            _ => Err(DecodeError::Field),
        },
        None => Err(DecodeError::Field),
    }
}

/// A required signed 64-bit integer field.
fn req_i64(v: &Json, key: &str) -> (r: Result<i64, DecodeError>)
    ensures
        r == sp_i64(*v, key@),
{
    match v.get(key) {
        Some(f) => match f {
            Json::UInt(x) => {
                if *x <= 0x7fff_ffff_ffff_ffff {
                    Ok(*x as i64)
                } else {
                    Err(DecodeError::Field)
                }
            },
            Json::Int(x) => Ok(*x),
            _ => Err(DecodeError::Field),
        },
        None => Err(DecodeError::Field),
    }
}

/// A number node, kept uninterpreted.
fn req_num(v: &Json) -> (r: Result<JsonNum, DecodeError>)
    ensures
        r is Ok <==> sp_num(*v) is Ok,
        r is Ok ==> abs_num(r->Ok_0) == sp_num(*v)->Ok_0,
        r is Err ==> r->Err_0 == sp_num(*v)->Err_0,
{
    match v {
        Json::UInt(x) => Ok(JsonNum::UInt(*x)),
        Json::Int(x) => Ok(JsonNum::Int(*x)),
        Json::Num(s) => Ok(JsonNum::Other(s.clone())),
        _ => Err(DecodeError::Field),
    }
}

/// One element of a raw byte list.
fn req_byte(v: &Json) -> (r: Result<i32, DecodeError>)
    ensures
        r == sp_byte(*v),
{
    match v {
        Json::UInt(x) => {
            if *x <= 0x7fff_ffff {
                Ok(*x as i32)
            } else {
                Err(DecodeError::Field)
            }
        },
        Json::Int(x) => {
            if -0x8000_0000 <= *x && *x <= 0x7fff_ffff {
                Ok(*x as i32)
            } else {
                Err(DecodeError::Field)
            }
        },
        _ => Err(DecodeError::Field),
    }
}

/// The optional raw byte list of a token record.
#[verifier::loop_isolation(false)]
fn opt_bytes(v: &Json) -> (r: Result<Option<Vec<i32>>, DecodeError>)
    ensures
        r is Ok <==> sp_opt_bytes(*v) is Ok,
        r is Ok ==> abs_bytes(r->Ok_0) == sp_opt_bytes(*v)->Ok_0,
        r is Err ==> r->Err_0 == sp_opt_bytes(*v)->Err_0,
{
    let field = match v.get("bytes") {
        Some(f) => f,
        None => {
            return Ok(None);
        },
    };
    match field {
        Json::Null => Ok(None),
        Json::Arr(items) => {
            let mut out: Vec<i32> = Vec::new();
            let mut i: usize = 0;
            proof {
                assert(items@.skip(0) =~= items@);
                assert(out@ =~= Seq::<i32>::empty());
            }
            while i < items.len()
                invariant
                    i <= items@.len(),
                    sp_bytes_rest(items@, Seq::empty()) == sp_bytes_rest(
                        items@.skip(i as int),
                        out@,
                    ),
                decreases items@.len() - i,
            {
                proof {
                    assert(items@.skip(i as int)[0] == items@[i as int]);
                }
                let b = match req_byte(&items[i]) {
                    Ok(b) => b,
                    Err(e) => {
                        return Err(e);
                    },
                };
                out.push(b);
                proof {
                    assert(items@.skip(i as int).drop_first() =~= items@.skip(i as int + 1));
                }
                i += 1;
            }
            Ok(Some(out))
        },
        _ => Err(DecodeError::Field),
    }
}

/// The required `logprob` field of a token record.
fn req_logprob(v: &Json) -> (r: Result<JsonNum, DecodeError>)
    ensures
        r is Ok <==> sp_logprob_field(*v) is Ok,
        r is Ok ==> abs_num(r->Ok_0) == sp_logprob_field(*v)->Ok_0,
        r is Err ==> r->Err_0 == sp_logprob_field(*v)->Err_0,
{
    match v.get("logprob") {
        Some(l) => req_num(l),
        None => Err(DecodeError::Field),
    }
}

/// One alternative token.
fn decode_top_logprob(v: &Json) -> (r: Result<TopLogProb, DecodeError>)
    ensures
        r is Ok <==> sp_top(*v) is Ok,
        r is Ok ==> abs_top(r->Ok_0) == sp_top(*v)->Ok_0,
        r is Err ==> r->Err_0 == sp_top(*v)->Err_0,
{
    let token = req_str(v, "token")?;
    let logprob = req_logprob(v)?;
    let bytes = opt_bytes(v)?;
    Ok(TopLogProb { token, logprob, bytes })
}

/// One token's diagnostic record, with its list of alternatives.
#[verifier::loop_isolation(false)]
fn decode_token_info(v: &Json) -> (r: Result<TokenInfo, DecodeError>)
    ensures
        r is Ok <==> sp_token(*v) is Ok,
        r is Ok ==> abs_token(r->Ok_0) == sp_token(*v)->Ok_0,
        r is Err ==> r->Err_0 == sp_token(*v)->Err_0,
{
    let token = req_str(v, "token")?;
    let logprob = req_logprob(v)?;
    let bytes = opt_bytes(v)?;
    let items = match v.get("top_logprobs") {
        Some(f) => match f {
            Json::Arr(a) => a,
            _ => {
                return Err(DecodeError::Field);
            },
        },
        None => {
            return Err(DecodeError::Field);
        },
    };
    let mut top_logprobs: Vec<TopLogProb> = Vec::new();
    let mut i: usize = 0;
    proof {
        assert(items@.skip(0) =~= items@);
        assert(abs_tops(top_logprobs@) =~= Seq::<TopV>::empty());
    }
    while i < items.len()
        invariant
            i <= items@.len(),
            sp_tops_rest(items@, Seq::empty()) == sp_tops_rest(
                items@.skip(i as int),
                abs_tops(top_logprobs@),
            ),
        decreases items@.len() - i,
    {
        proof {
            assert(items@.skip(i as int)[0] == items@[i as int]);
        }
        let ghost pre = abs_tops(top_logprobs@);
        let t = decode_top_logprob(&items[i])?;
        top_logprobs.push(t);
        proof {
            assert(abs_tops(top_logprobs@) =~= pre.push(abs_top(t)));
            assert(items@.skip(i as int).drop_first() =~= items@.skip(i as int + 1));
        }
        i += 1;
    }
    Ok(TokenInfo { token, logprob, bytes, top_logprobs })
}

/// The per-choice log-probability block.
#[verifier::loop_isolation(false)]
fn decode_logprobs(v: &Json) -> (r: Result<LogProbs, DecodeError>)
    ensures
        r is Ok <==> sp_logprobs(*v) is Ok,
        r is Ok ==> abs_logprobs(r->Ok_0) == sp_logprobs(*v)->Ok_0,
        r is Err ==> r->Err_0 == sp_logprobs(*v)->Err_0,
{
    let field = match v.get("content") {
        Some(f) => f,
        None => {
            return Ok(LogProbs { content: None });
        },
    };
    match field {
        Json::Null => Ok(LogProbs { content: None }),
        Json::Arr(items) => {
            let mut content: Vec<TokenInfo> = Vec::new();
            let mut i: usize = 0;
            proof {
                assert(items@.skip(0) =~= items@);
                assert(abs_tokens(content@) =~= Seq::<TokV>::empty());
            }
            while i < items.len()
                invariant
                    i <= items@.len(),
                    sp_tokens_rest(items@, Seq::empty()) == sp_tokens_rest(
                        items@.skip(i as int),
                        abs_tokens(content@),
                    ),
                decreases items@.len() - i,
            {
                proof {
                    assert(items@.skip(i as int)[0] == items@[i as int]);
                }
                let ghost pre = abs_tokens(content@);
                let t = decode_token_info(&items[i])?;
                content.push(t);
                proof {
                    assert(abs_tokens(content@) =~= pre.push(abs_token(t)));
                    assert(items@.skip(i as int).drop_first() =~= items@.skip(i as int + 1));
                }
                i += 1;
            }
            Ok(LogProbs { content: Some(content) })
        },
        _ => Err(DecodeError::Field),
    }
}

/// The assistant's message: role and content, both required strings.
fn decode_message(v: &Json) -> (r: Result<Message, DecodeError>)
    ensures
        r is Ok <==> sp_message(*v) is Ok,
        r is Ok ==> abs_message(r->Ok_0) == sp_message(*v)->Ok_0,
        r is Err ==> r->Err_0 == sp_message(*v)->Err_0,
{
    let role = req_str(v, "role")?;
    let content = req_str(v, "content")?;
    Ok(Message { role, content })
}

/// One candidate completion.
fn decode_choice(v: &Json) -> (r: Result<Choice, DecodeError>)
    ensures
        r is Ok <==> sp_choice(*v) is Ok,
        r is Ok ==> abs_choice(r->Ok_0) == sp_choice(*v)->Ok_0,
        r is Err ==> r->Err_0 == sp_choice(*v)->Err_0,
{
    let index = req_u32(v, "index")?;
    let message = match v.get("message") {
        Some(m) => match decode_message(m) {
            Ok(m) => m,
            Err(e) => {
                return Err(e);
            },
        },
        None => {
            return Err(DecodeError::Field);
        },
    };
    let logprobs = match v.get("logprobs") {
        Some(l) => match l {
            Json::Null => None,
            _ => match decode_logprobs(l) {
                Ok(x) => Some(x),
                Err(e) => {
                    return Err(e);
                },
            },
        },
        None => None,
    };
    let finish_reason = match v.get("finish_reason") {
        Some(f) => match f {
            Json::Str(s) => match finish_reason_from_str(s.as_str()) {
                Some(fr) => fr,
                None => {
                    return Err(DecodeError::UnknownFinishReason);
                },
            },
            _ => {
                return Err(DecodeError::Field);
            },
        },
        None => {
            return Err(DecodeError::Field);
        },
    };
    Ok(Choice { index, message, logprobs, finish_reason })
}

/// The token accounting block.
fn decode_usage(v: &Json) -> (r: Result<Usage, DecodeError>)
    ensures
        r == sp_usage(*v),
{
    let prompt_tokens = req_u32(v, "prompt_tokens")?;
    let completion_tokens = req_u32(v, "completion_tokens")?;
    let total_tokens = req_u32(v, "total_tokens")?;
    Ok(Usage { prompt_tokens, completion_tokens, total_tokens })
}

/// Decodes a response body: exactly the value of the spec decoder on the
/// body's parsed tree. A body that is not JSON yields `Syntax`; a missing
/// or ill-typed required field yields `Field`; a finish reason outside the
/// closed set yields `UnknownFinishReason`; and on success every modeled
/// field equals the tree's, choices in their given order.
#[verifier::loop_isolation(false)]
pub fn decode_response(body: &str) -> (r: Result<ChatCompletion, DecodeError>)
    ensures
        r is Ok <==> decode_spec(json_doc_of(body@)) is Ok,
        r is Ok ==> abs_chat(r->Ok_0) == decode_spec(json_doc_of(body@))->Ok_0,
        r is Err ==> r->Err_0 == decode_spec(json_doc_of(body@))->Err_0,
{
    let doc = match parse_json(body) {
        Some(d) => d,
        None => {
            return Err(DecodeError::Syntax);
        },
    };
    let id = req_str(&doc, "id")?;
    let object = req_str(&doc, "object")?;
    let created = req_i64(&doc, "created")?;
    let model = req_str(&doc, "model")?;
    let system_fingerprint = req_str(&doc, "system_fingerprint")?;
    let items = match doc.get("choices") {
        Some(f) => match f {
            Json::Arr(a) => a,
            _ => {
                return Err(DecodeError::Field);
            },
        },
        None => {
            return Err(DecodeError::Field);
        },
    };
    let mut choices: Vec<Choice> = Vec::new();
    let mut i: usize = 0;
    proof {
        assert(items@.skip(0) =~= items@);
        assert(abs_choices(choices@) =~= Seq::<ChoiceV>::empty());
    }
    while i < items.len()
        invariant
            i <= items@.len(),
            sp_choices_rest(items@, Seq::empty()) == sp_choices_rest(
                items@.skip(i as int),
                abs_choices(choices@),
            ),
        decreases items@.len() - i,
    {
        proof {
            assert(items@.skip(i as int)[0] == items@[i as int]);
        }
        let ghost pre = abs_choices(choices@);
        let c = decode_choice(&items[i])?;
        choices.push(c);
        proof {
            assert(abs_choices(choices@) =~= pre.push(abs_choice(c)));
            assert(items@.skip(i as int).drop_first() =~= items@.skip(i as int + 1));
        }
        i += 1;
    }
    let usage = match doc.get("usage") {
        Some(u) => match decode_usage(u) {
            Ok(x) => x,
            Err(e) => {
                return Err(e);
            },
        },
        None => {
            return Err(DecodeError::Field);
        },
    };
    let result = ChatCompletion { id, object, created, model, system_fingerprint, choices, usage };
    Ok(result)
}

// ---------------------------------------------------------------------------
// Tolerance laws: the spec decoder reads an object only through `doc_get`,
// so two documents that agree on the read keys decode identically, whatever
// other fields either carries.
// ---------------------------------------------------------------------------

/// The keys the decoder reads at the response's top level.
pub open spec fn top_level_key(k: Seq<char>) -> bool {
    ||| k == "id"@
    ||| k == "object"@
    ||| k == "created"@
    ||| k == "model"@
    ||| k == "system_fingerprint"@
    ||| k == "choices"@
    ||| k == "usage"@
}

/// Unknown fields cannot change a decode: two parsed documents that agree,
/// key for key, on what the decoder reads at the top level decode to the
/// same result — fields under any other key are invisible.
pub proof fn lemma_decode_ignores_unknown_fields(d1: Json, d2: Json)
    requires
        forall|k: Seq<char>| top_level_key(k) ==> doc_get(d1, k) == doc_get(d2, k),
    ensures
        decode_doc_spec(d1) == decode_doc_spec(d2),
{
    assert(top_level_key("id"@) && top_level_key("object"@) && top_level_key("created"@)
        && top_level_key("model"@) && top_level_key("system_fingerprint"@) && top_level_key(
        "choices"@,
    ) && top_level_key("usage"@));
    assert(doc_get(d1, "id"@) == doc_get(d2, "id"@));
    assert(doc_get(d1, "object"@) == doc_get(d2, "object"@));
    assert(doc_get(d1, "created"@) == doc_get(d2, "created"@));
    assert(doc_get(d1, "model"@) == doc_get(d2, "model"@));
    assert(doc_get(d1, "system_fingerprint"@) == doc_get(d2, "system_fingerprint"@));
    assert(doc_get(d1, "choices"@) == doc_get(d2, "choices"@));
    assert(doc_get(d1, "usage"@) == doc_get(d2, "usage"@));
}

/// The keys the decoder reads inside one choice.
pub open spec fn choice_key(k: Seq<char>) -> bool {
    ||| k == "index"@
    ||| k == "message"@
    ||| k == "logprobs"@
    ||| k == "finish_reason"@
}

/// The same tolerance inside a choice: two choice objects that agree on the
/// four keys the decoder reads decode to the same choice.
pub proof fn lemma_choice_ignores_unknown_fields(d1: Json, d2: Json)
    requires
        forall|k: Seq<char>| choice_key(k) ==> doc_get(d1, k) == doc_get(d2, k),
    ensures
        sp_choice(d1) == sp_choice(d2),
{
    assert(choice_key("index"@) && choice_key("message"@) && choice_key("logprobs"@) && choice_key(
        "finish_reason"@,
    ));
    assert(doc_get(d1, "index"@) == doc_get(d2, "index"@));
    assert(doc_get(d1, "message"@) == doc_get(d2, "message"@));
    assert(doc_get(d1, "logprobs"@) == doc_get(d2, "logprobs"@));
    assert(doc_get(d1, "finish_reason"@) == doc_get(d2, "finish_reason"@));
}

} // verus!
