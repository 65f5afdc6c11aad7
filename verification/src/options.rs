//! Messages, chat options and the normalized request shape handed to
//! the transport layer.

use vstd::prelude::*;

verus! {

/// Who a chat message comes from.
#[derive(Debug, Clone, Copy, PartialEq, Eq, Structural)]
pub enum ChatRole {
    System,
    User,
    Assistant,
}

/// One role-tagged message.
#[derive(Debug, Clone, PartialEq, Eq)]
pub struct ChatMessage {
    pub role: ChatRole,
    pub content: String,
}

/// Options a client is built with.  The sampling parameters
/// `temperature_milli` and `top_p_milli` are fixed-point thousandths
/// (700 stands for 0.7), so the verified core stays free of floating
/// point; the transport layer converts at the boundary.
#[derive(Debug, Clone, PartialEq, Eq)]
pub struct AiChatOptions {
    pub model: String,
    pub base_url: Option<String>,
    pub api_key: String,
    pub temperature_milli: Option<u32>,
    pub top_p_milli: Option<u32>,
    pub max_tokens: Option<u32>,
    pub system_prompt: Option<String>,
    pub stop_sequences: Option<Vec<String>>,
}

/// Token counters a provider may report; any of them may be absent.
#[derive(Debug, Clone, Copy, PartialEq, Eq)]
pub struct TokenUsage {
    pub prompt_tokens: Option<i32>,
    pub completion_tokens: Option<i32>,
    pub total_tokens: Option<i32>,
}

/// One complete (non-streamed) chat answer.
#[derive(Debug, Clone, PartialEq, Eq)]
pub struct ChatResponse {
    pub content: String,
    pub model: String,
    pub usage: Option<TokenUsage>,
}

/// The provider-agnostic request: an optional dedicated system
/// prompt, plus the caller's messages in their order.  System-role
/// entries in `messages` are passed through independently of
/// `system`.
#[derive(Debug, Clone, PartialEq, Eq)]
pub struct NormalizedRequest {
    pub system: Option<String>,
    pub messages: Vec<ChatMessage>,
}

/// The sampling-options object sent with a request.  It exists only
/// when the caller set at least one sampling field; the capture flags
/// are forced on for streaming runs.
#[derive(Debug, Clone, PartialEq, Eq)]
pub struct ChatSamplingOptions {
    pub temperature_milli: Option<u32>,
    pub top_p_milli: Option<u32>,
    pub max_tokens: Option<u32>,
    pub stop_sequences: Option<Vec<String>>,
    pub capture_content: bool,
    pub capture_usage: bool,
}

pub(crate) fn clone_string_vec(v: &Vec<String>) -> (r: Vec<String>)
    ensures
        r@ == v@,
{
    let mut r: Vec<String> = Vec::new();
    let mut i: usize = 0;
    while i < v.len()
        invariant
            i <= v@.len(),
            r@ == v@.take(i as int),
        decreases v@.len() - i,
    {
        r.push(v[i].clone());
        proof {
            assert(r@ =~= v@.take(i + 1));
        }
        i = i + 1;
    }
    proof {
        assert(v@.take(v@.len() as int) =~= v@);
    }
    r
}

pub(crate) fn clone_opt_string(v: &Option<String>) -> (r: Option<String>)
    ensures
        r == *v,
{
    match v {
        Option::Some(s) => Option::Some(s.clone()),
        Option::None => Option::None,
    }
}

pub(crate) fn clone_opt_string_vec(v: &Option<Vec<String>>) -> (r: Option<Vec<String>>)
    ensures
        v matches Option::Some(y) ==> (r matches Option::Some(x) && x@ == y@),
        v is None ==> r is None,
{
    match v {
        Option::Some(s) => Option::Some(clone_string_vec(s)),
        Option::None => Option::None,
    }
}

/// The fixed options a quick one-message chat runs with: no custom
/// endpoint, temperature 0.7 (700 thousandths), everything else left
/// to the provider's defaults.
pub fn quick_chat_options(model: String, api_key: String) -> (r: AiChatOptions)
    ensures
        r.model == model,
        r.api_key == api_key,
        r.base_url is None,
        r.temperature_milli == Option::Some(700u32),
        r.top_p_milli is None,
        r.max_tokens is None,
        r.system_prompt is None,
        r.stop_sequences is None,
{
    AiChatOptions {
        model,
        base_url: Option::None,
        api_key,
        temperature_milli: Option::Some(700),
        top_p_milli: Option::None,
        max_tokens: Option::None,
        system_prompt: Option::None,
        stop_sequences: Option::None,
    }
}

/// Shapes one complete chat answer: the text the provider returned,
/// or a fixed placeholder when it returned none, together with the
/// resolved model name and whatever counters were captured.
pub fn shape_chat_response(
    content: Option<String>,
    model: String,
    prompt_tokens: Option<i32>,
    completion_tokens: Option<i32>,
    total_tokens: Option<i32>,
) -> (r: ChatResponse)
    ensures
        content matches Option::Some(c) ==> r.content == c,
        content is None ==> r.content@ == "No response"@,
        r.model == model,
        r.usage == Option::Some(
            (TokenUsage { prompt_tokens, completion_tokens, total_tokens }),
        ),
{
    let text = match content {
        Option::Some(c) => c,
        Option::None => String::from_str("No response"),
    };
    ChatResponse {
        content: text,
        model,
        usage: Option::Some(TokenUsage { prompt_tokens, completion_tokens, total_tokens }),
    }
}

} // verus!
