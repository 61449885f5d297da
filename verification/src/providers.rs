//! Talking to chat-completion providers: which endpoint and request shape a
//! provider name stands for, and how a provider's HTTP reply is read back.
//! The HTTP exchange itself, and turning JSON text into values, are done by
//! the caller; this module decides everything around them.

use vstd::prelude::*;
use crate::text::{decimal, decimal_seq, opt_str_view, same_text};

verus! {

/// A role a message can be authored under. Deliberately excludes "system":
/// the system prompt travels separately and each provider places it where
/// that provider wants it.
#[derive(Debug, Clone, Copy, PartialEq, Eq, Structural)]
pub enum Role {
    User,
    Assistant,
}

/// One turn of the conversation sent to a provider.
#[derive(Debug, Clone)]
pub struct ChatMessage {
    pub role: Role,
    pub content: String,
}

/// The wire name of a role.
pub open spec fn role_text(role: Role) -> Seq<char> {
    match role {
        Role::User => "user"@,
        Role::Assistant => "assistant"@,
    }
}

/// The wire name of a role, as both provider dialects spell it.
pub fn role_str(role: Role) -> (r: &'static str)
    ensures
        r@ == role_text(role),
{
    match role {
        Role::User => "user",
        Role::Assistant => "assistant",
    }
}

/// Everything that can go wrong while talking to a provider's HTTP API.
#[derive(Debug, Clone)]
pub enum ProviderError {
    /// The request itself failed (DNS, TCP, TLS, timeout, ...); holds the
    /// transport's own description of the failure.
    Network(String),
    /// The provider responded with a non-2xx status. `body` is the raw
    /// response text, so the caller can see exactly what the API said.
    Http { status: u16, body: String },
    /// The response body wasn't shaped the way we expected.
    Parse(String),
    /// `provider` didn't match any of the known provider names.
    UnknownProvider(String),
}

/// The human-readable description of a provider error.
pub open spec fn provider_error_text(e: ProviderError) -> Seq<char> {
    match e {
        ProviderError::Network(m) => "network error: "@ + m@,
        ProviderError::Http { status, body } => "provider returned HTTP "@ + decimal_seq(
            status as nat,
        ) + ": "@ + body@,
        ProviderError::Parse(m) => "failed to parse provider response: "@ + m@,
        ProviderError::UnknownProvider(p) => "unknown provider: \""@ + p@ + "\""@,
    }
}

impl ProviderError {
    /// The text this error is shown with.
    pub fn message(&self) -> (r: String)
        ensures
            r@ == provider_error_text(*self),
    {
        match self {
            ProviderError::Network(m) => {
                let mut s = String::from_str("network error: ");
                s.append(m.as_str());
                s
            },
            ProviderError::Http { status, body } => {
                let mut s = String::from_str("provider returned HTTP ");
                let d = decimal(*status as u64);
                s.append(d.as_str());
                s.append(": ");
                s.append(body.as_str());
                s
            },
            ProviderError::Parse(m) => {
                let mut s = String::from_str("failed to parse provider response: ");
                s.append(m.as_str());
                s
            },
            ProviderError::UnknownProvider(p) => {
                let mut s = String::from_str("unknown provider: \"");
                s.append(p.as_str());
                s.append("\"");
                s
            },
        }
    }
}


/// Full request URL of OpenAI's chat-completions endpoint.
pub const OPENAI_BASE_URL: &'static str = "https://api.openai.com/v1/chat/completions";

/// Full request URL of DeepSeek's OpenAI-compatible endpoint.
pub const DEEPSEEK_BASE_URL: &'static str = "https://api.deepseek.com/chat/completions";

/// Full request URL of the international DashScope (Qwen) OpenAI-compatible
/// endpoint; it must end in `/chat/completions`.
pub const QWEN_BASE_URL: &'static str =
    "https://ws-dxasge76aqlq8gfb.us-east-1.maas.aliyuncs.com/compatible-mode/v1/chat/completions";

/// Anthropic's messages endpoint.
pub const ANTHROPIC_URL: &'static str = "https://api.anthropic.com/v1/messages";

/// Value of the `anthropic-version` header.
pub const ANTHROPIC_VERSION: &'static str = "2023-06-01";

/// Anthropic requires `max_tokens`; callers have no way to choose it, so
/// this fixed default is sent.
pub const DEFAULT_MAX_TOKENS: u32 = 4096;

/// The two request/response shapes the supported providers speak.
#[derive(Debug, Clone, Copy, PartialEq, Eq, Structural)]
pub enum Dialect {
    /// `POST {url}` with `Authorization: Bearer <key>`; body
    /// `{model, messages, temperature}`, the system prompt being the first,
    /// "system"-role message; the reply text is `choices[0].message.content`.
    OpenAiCompatible,
    /// `POST {url}` with `x-api-key: <key>` and `anthropic-version`; body
    /// `{model, max_tokens, messages, system?}` with no temperature; the
    /// reply text is `content[0].text`.
    Anthropic,
}

/// One entry of the request's `messages` array.
#[derive(Debug, Clone)]
pub struct WireMessage {
    pub role: &'static str,
    pub content: String,
}

/// Everything needed to send one chat request, short of the API key and
/// the temperature, which the caller adds as the dialect says.
#[derive(Debug, Clone)]
pub struct ProviderRequest {
    pub dialect: Dialect,
    pub url: &'static str,
    /// Value of the `anthropic-version` header, where the dialect sends one.
    pub api_version: Option<&'static str>,
    pub model: String,
    pub messages: Vec<WireMessage>,
    /// The top-level `system` field (Anthropic only; omitted when `None`).
    pub system: Option<String>,
    /// The `max_tokens` field, where the dialect requires one.
    pub max_tokens: Option<u32>,
    /// Whether the `temperature` field is sent.
    pub send_temperature: bool,
}

/// `w` is the wire form of `m`.
pub open spec fn wire_matches(w: WireMessage, m: ChatMessage) -> bool {
    w.role@ == role_text(m.role) && w.content@ == m.content@
}

/// The `messages` array of an OpenAI-compatible request: the system prompt
/// (if any) as a leading "system" message, then every message in order.
pub open spec fn openai_messages_ok(
    w: Seq<WireMessage>,
    system_prompt: Option<Seq<char>>,
    messages: Seq<ChatMessage>,
) -> bool {
    let off: int = if system_prompt is Some { 1 } else { 0 };
    &&& w.len() == messages.len() + off
    &&& system_prompt matches Some(sp) ==> w[0].role@ == "system"@ && w[0].content@ == sp
    &&& forall|k: int| 0 <= k < messages.len() ==> wire_matches(#[trigger] w[k + off], messages[k])
}

/// The request an OpenAI-compatible provider at `url` is sent.
pub open spec fn openai_request_ok(
    r: ProviderRequest,
    url: Seq<char>,
    model: Seq<char>,
    system_prompt: Option<Seq<char>>,
    messages: Seq<ChatMessage>,
) -> bool {
    &&& r.dialect == Dialect::OpenAiCompatible
    &&& r.url@ == url
    &&& r.api_version is None
    &&& r.model@ == model
    &&& openai_messages_ok(r.messages@, system_prompt, messages)
    &&& r.system is None
    &&& r.max_tokens is None
    &&& r.send_temperature
}

/// The request Anthropic is sent: the messages as they are, the system
/// prompt in its own field, a fixed `max_tokens`, and never a temperature
/// (its newer models reject the field outright).
pub open spec fn anthropic_request_ok(
    r: ProviderRequest,
    model: Seq<char>,
    system_prompt: Option<Seq<char>>,
    messages: Seq<ChatMessage>,
) -> bool {
    &&& r.dialect == Dialect::Anthropic
    &&& r.url@ == ANTHROPIC_URL@
    &&& r.api_version matches Some(v) && v@ == ANTHROPIC_VERSION@
    &&& r.model@ == model
    &&& r.messages@.len() == messages.len()
    &&& forall|k: int| 0 <= k < messages.len() ==> wire_matches(#[trigger] r.messages@[k], messages[k])
    &&& (match r.system {
        Some(s) => system_prompt == Some(s@),
        None => system_prompt is None,
    })
    &&& r.max_tokens == Some(DEFAULT_MAX_TOKENS)
    &&& !r.send_temperature
}

fn wire_messages(messages: &[ChatMessage], out: &mut Vec<WireMessage>)
    ensures
        final(out)@.len() == old(out)@.len() + messages@.len(),
        forall|k: int| 0 <= k < old(out)@.len() ==> final(out)@[k] == old(out)@[k],
        forall|k: int|
            0 <= k < messages@.len() ==> wire_matches(
                #[trigger] final(out)@[old(out)@.len() + k],
                messages@[k],
            ),
{
    let ghost start = out@.len();
    let mut i: usize = 0;
    while i < messages.len()
        invariant
            i <= messages@.len(),
            out@.len() == start + i,
            start == old(out)@.len(),
            forall|k: int| 0 <= k < start ==> out@[k] == old(out)@[k],
            forall|k: int| 0 <= k < i ==> wire_matches(#[trigger] out@[start + k], messages@[k]),
        decreases messages@.len() - i,
    {
        let m = &messages[i];
        out.push(WireMessage { role: role_str(m.role), content: m.content.clone() });
        i = i + 1;
    }
}

fn openai_request(
    url: &'static str,
    model: &str,
    system_prompt: Option<&str>,
    messages: &[ChatMessage],
) -> (r: ProviderRequest)
    ensures
        openai_request_ok(r, url@, model@, opt_str_view(system_prompt), messages@),
{
    let mut out: Vec<WireMessage> = Vec::new();
    if let Some(system) = system_prompt {
        proof { reveal_strlit("system"); }
        out.push(WireMessage { role: "system", content: system.to_owned() });
    }
    let ghost off: int = if system_prompt is Some { 1 } else { 0 };
    assert(out@.len() == off);
    wire_messages(messages, &mut out);
    assert forall|k: int| 0 <= k < messages@.len() implies wire_matches(
        #[trigger] out@[k + off],
        messages@[k],
    ) by {
        assert(out@[k + off] == out@[off + k]);
    }
    ProviderRequest {
        dialect: Dialect::OpenAiCompatible,
        url,
        api_version: None,
        model: model.to_owned(),
        messages: out,
        system: None,
        max_tokens: None,
        send_temperature: true,
    }
}

fn anthropic_request(model: &str, system_prompt: Option<&str>, messages: &[ChatMessage]) -> (r:
    ProviderRequest)
    ensures
        anthropic_request_ok(r, model@, opt_str_view(system_prompt), messages@),
{
    let mut out: Vec<WireMessage> = Vec::new();
    wire_messages(messages, &mut out);
    assert forall|k: int| 0 <= k < messages@.len() implies wire_matches(
        #[trigger] out@[k],
        messages@[k],
    ) by {
        assert(out@[k] == out@[0 + k]);
    }
    let system = match system_prompt {
        Some(s) => Some(s.to_owned()),
        None => None,
    };
    ProviderRequest {
        dialect: Dialect::Anthropic,
        url: ANTHROPIC_URL,
        api_version: Some(ANTHROPIC_VERSION),
        model: model.to_owned(),
        messages: out,
        system,
        max_tokens: Some(DEFAULT_MAX_TOKENS),
        send_temperature: false,
    }
}

/// Which request a provider name stands for: "openai", "deepseek" and
/// "qwen" share the OpenAI-compatible shape and differ only in URL,
/// "anthropic" has its own; any other name is an unknown provider.
pub fn plan_request(
    provider: &str,
    model: &str,
    system_prompt: Option<&str>,
    messages: &[ChatMessage],
) -> (r: Result<ProviderRequest, ProviderError>)
    ensures
        provider@ == "openai"@ ==> (r matches Ok(q) && openai_request_ok(
            q,
            OPENAI_BASE_URL@,
            model@,
            opt_str_view(system_prompt),
            messages@,
        )),
        provider@ == "deepseek"@ ==> (r matches Ok(q) && openai_request_ok(
            q,
            DEEPSEEK_BASE_URL@,
            model@,
            opt_str_view(system_prompt),
            messages@,
        )),
        provider@ == "qwen"@ ==> (r matches Ok(q) && openai_request_ok(
            q,
            QWEN_BASE_URL@,
            model@,
            opt_str_view(system_prompt),
            messages@,
        )),
        provider@ == "anthropic"@ ==> (r matches Ok(q) && anthropic_request_ok(
            q,
            model@,
            opt_str_view(system_prompt),
            messages@,
        )),
        (provider@ != "openai"@ && provider@ != "deepseek"@ && provider@ != "qwen"@ && provider@
            != "anthropic"@) ==> (r matches Err(ProviderError::UnknownProvider(p)) && p@
            == provider@),
{
    proof {
        reveal_strlit("openai");
        reveal_strlit("deepseek");
        reveal_strlit("qwen");
        reveal_strlit("anthropic");
        assert("openai"@.len() == 6);
        assert("deepseek"@.len() == 8);
        assert("qwen"@.len() == 4);
        assert("anthropic"@.len() == 9);
    }
    if same_text(provider, "openai") {
        Ok(openai_request(OPENAI_BASE_URL, model, system_prompt, messages))
    } else if same_text(provider, "deepseek") {
        Ok(openai_request(DEEPSEEK_BASE_URL, model, system_prompt, messages))
    } else if same_text(provider, "qwen") {
        Ok(openai_request(QWEN_BASE_URL, model, system_prompt, messages))
    } else if same_text(provider, "anthropic") {
        Ok(anthropic_request(model, system_prompt, messages))
    } else {
        Err(ProviderError::UnknownProvider(provider.to_owned()))
    }
}


/// Whether an HTTP status is in the success class (200 to 299).
pub open spec fn is_success_status(status: u16) -> bool {
    200 <= status <= 299
}

/// The message reported when a successful response holds no reply text.
pub open spec fn missing_reply_text(dialect: Dialect) -> Seq<char> {
    match dialect {
        Dialect::OpenAiCompatible => "response had no choices"@,
        Dialect::Anthropic => "response had no content blocks"@,
    }
}

/// Read a provider's HTTP reply back into the assistant's text.
///
/// `parsed` is what the JSON body gave: the candidate reply texts in order
/// (`choices[i].message.content` or `content[i].text`, per `dialect`), or
/// the decoder's error message. A non-2xx `status` is an HTTP error that
/// carries the raw body, whatever `parsed` holds; otherwise a decoding
/// error is a parse error, and the first candidate is the reply.
pub fn read_response(
    dialect: Dialect,
    status: u16,
    raw_body: String,
    parsed: Result<Vec<String>, String>,
) -> (r: Result<String, ProviderError>)
    ensures
        !is_success_status(status) ==> r == Err::<String, ProviderError>(
            ProviderError::Http { status, body: raw_body },
        ),
        is_success_status(status) ==> match parsed {
            Err(e) => r == Err::<String, ProviderError>(ProviderError::Parse(e)),
            Ok(texts) => if texts@.len() > 0 {
                r == Ok::<String, ProviderError>(texts@[0])
            } else {
                r matches Err(ProviderError::Parse(m)) && m@ == missing_reply_text(dialect)
            },
        },
{
    if !(200 <= status && status <= 299) {
        return Err(ProviderError::Http { status, body: raw_body });
    }
    match parsed {
        Err(e) => Err(ProviderError::Parse(e)),
        Ok(mut texts) => {
            if texts.len() > 0 {
                Ok(texts.swap_remove(0))
            } else {
                match dialect {
                    Dialect::OpenAiCompatible => Err(
                        ProviderError::Parse(String::from_str("response had no choices")),
                    ),
                    Dialect::Anthropic => Err(
                        ProviderError::Parse(String::from_str("response had no content blocks")),
                    ),
                }
            }
        },
    }
}

} // verus!
