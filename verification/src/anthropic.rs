//! The Anthropic backend adapter.
//!
//! This module holds the protocol logic for one concrete backend: the
//! translation of canonical messages into the backend's wire shape, the
//! mapping of backend stop codes onto [`FinishReason`], the classification
//! of HTTP failure statuses into the error taxonomy, and the normalisation
//! of the backend's event stream into canonical chunks. The HTTP transport
//! and the textual encoding of JSON live outside the library; they hand
//! values in and out of the shapes defined here.

use vstd::prelude::*;
use vstd::string::StringExecFns;

use crate::agent::sat_add_u32;
use crate::errors::{AiError, ProviderError, ValidationError};
use crate::json::{get_str, json_view, spec_get_str, JsonSpec, JsonValue};
use crate::messages::{AssistantContent, AssistantContentSpec, Message, MessageSpec, ToolCall,
    UserContentSpec};
use crate::types::{ChatRequest, ChatResponse, ChatStreamChunk, FinishReason, MessageDelta,
    ToolDefinition, Usage};

verus! {

/// Configuration for the Anthropic provider: credential, endpoint, model,
/// and transport knobs.
#[derive(Debug)]
pub struct AnthropicConfig {
    pub api_key: String,
    pub base_url: String,
    pub model: String,
    pub max_retries: u32,
    pub timeout_seconds: u64,
}

impl AnthropicConfig {
    /// A configuration for the given credential and model, with the public
    /// endpoint and default transport knobs.
    pub fn new(api_key: String, model: String) -> (r: AnthropicConfig)
        ensures
            r.api_key == api_key,
            r.model == model,
            r.base_url@ == "https://api.anthropic.com"@,
            r.max_retries == 3u32,
            r.timeout_seconds == 60u64,
    {
        AnthropicConfig {
            api_key,
            base_url: "https://api.anthropic.com".to_owned(),
            model,
            max_retries: 3,
            timeout_seconds: 60,
        }
    }

    /// Replaces the endpoint.
    pub fn with_base_url(self, base_url: String) -> (r: AnthropicConfig)
        ensures
            r == (AnthropicConfig { base_url, ..self }),
    {
        AnthropicConfig { base_url, ..self }
    }

    /// Replaces the request timeout, in seconds.
    pub fn with_timeout(self, seconds: u64) -> (r: AnthropicConfig)
        ensures
            r == (AnthropicConfig { timeout_seconds: seconds, ..self }),
    {
        AnthropicConfig { timeout_seconds: seconds, ..self }
    }

    /// Replaces the retry budget.
    pub fn with_max_retries(self, retries: u32) -> (r: AnthropicConfig)
        ensures
            r == (AnthropicConfig { max_retries: retries, ..self }),
    {
        AnthropicConfig { max_retries: retries, ..self }
    }
}

/// One wire message: a role and its content blocks.
#[derive(Debug)]
pub struct AnthropicMessage {
    pub role: String,
    pub content: Vec<AnthropicContent>,
}

/// Model of [`AnthropicMessage`].
#[verifier::ext_equal]
pub struct AnthropicMessageSpec {
    pub role: Seq<char>,
    pub content: Seq<AnthropicContentSpec>,
}

impl DeepView for AnthropicMessage {
    type V = AnthropicMessageSpec;

    open spec fn deep_view(&self) -> AnthropicMessageSpec {
        AnthropicMessageSpec { role: self.role@, content: self.content.deep_view() }
    }
}

/// One wire content block.
#[derive(Debug)]
pub enum AnthropicContent {
    Text { text: String },
    Image { source: AnthropicImageSource },
    ToolUse { id: String, name: String, input: JsonValue },
    ToolResult { tool_use_id: String, content: JsonValue, is_error: Option<bool> },
}

/// Model of [`AnthropicContent`].
#[verifier::ext_equal]
pub enum AnthropicContentSpec {
    Text { text: Seq<char> },
    Image { source: AnthropicImageSourceSpec },
    ToolUse { id: Seq<char>, name: Seq<char>, input: JsonSpec },
    ToolResult { tool_use_id: Seq<char>, content: JsonSpec, is_error: Option<bool> },
}

impl DeepView for AnthropicContent {
    type V = AnthropicContentSpec;

    open spec fn deep_view(&self) -> AnthropicContentSpec {
        match self {
            AnthropicContent::Text { text } => AnthropicContentSpec::Text { text: text@ },
            AnthropicContent::Image { source } => AnthropicContentSpec::Image {
                source: source.deep_view(),
            },
            AnthropicContent::ToolUse { id, name, input } => AnthropicContentSpec::ToolUse {
                id: id@,
                name: name@,
                input: json_view(*input),
            },
            AnthropicContent::ToolResult { tool_use_id, content, is_error } => {
                AnthropicContentSpec::ToolResult {
                    tool_use_id: tool_use_id@,
                    content: json_view(*content),
                    is_error: *is_error,
                }
            },
        }
    }
}

/// A base64 image source on the wire.
#[derive(Debug)]
pub struct AnthropicImageSource {
    pub kind: String,
    pub media_type: String,
    pub data: String,
}

/// Model of [`AnthropicImageSource`].
#[verifier::ext_equal]
pub struct AnthropicImageSourceSpec {
    pub kind: Seq<char>,
    pub media_type: Seq<char>,
    pub data: Seq<char>,
}

impl DeepView for AnthropicImageSource {
    type V = AnthropicImageSourceSpec;

    open spec fn deep_view(&self) -> AnthropicImageSourceSpec {
        AnthropicImageSourceSpec {
            kind: self.kind@,
            media_type: self.media_type@,
            data: self.data@,
        }
    }
}

/// One tool on the wire.
#[derive(Debug)]
pub struct AnthropicTool {
    pub name: String,
    pub description: String,
    pub input_schema: JsonValue,
}

/// Model of [`AnthropicTool`].
#[verifier::ext_equal]
pub struct AnthropicToolSpec {
    pub name: Seq<char>,
    pub description: Seq<char>,
    pub input_schema: JsonSpec,
}

impl DeepView for AnthropicTool {
    type V = AnthropicToolSpec;

    open spec fn deep_view(&self) -> AnthropicToolSpec {
        AnthropicToolSpec {
            name: self.name@,
            description: self.description@,
            input_schema: json_view(self.input_schema),
        }
    }
}

/// A full wire request body.
#[derive(Debug)]
pub struct AnthropicRequest {
    pub model: String,
    pub max_tokens: u32,
    /// Sampling temperature, in thousandths.
    pub temperature: Option<u32>,
    pub system: Option<String>,
    pub messages: Vec<AnthropicMessage>,
    pub tools: Option<Vec<AnthropicTool>>,
    pub stream: bool,
}

/// Token usage as the backend reports it.
#[derive(Debug, Clone, Copy, PartialEq, Eq, Structural)]
pub struct AnthropicUsage {
    pub input_tokens: u32,
    pub output_tokens: u32,
}

/// A full wire response body.
#[derive(Debug)]
pub struct AnthropicResponse {
    pub id: String,
    pub content: Vec<AnthropicContent>,
    pub stop_reason: Option<String>,
    pub usage: Option<AnthropicUsage>,
}

/// The canonical finish reason for a backend stop code: recognised codes
/// map across, anything unrecognised (or absent) falls back to `Stop` —
/// never a failure.
pub open spec fn spec_stop_reason(code: Option<Seq<char>>) -> FinishReason {
    match code {
        Some(s) => if s == "end_turn"@ {
            FinishReason::Stop
        } else if s == "max_tokens"@ {
            FinishReason::Length
        } else if s == "tool_use"@ {
            FinishReason::ToolCalls
        } else {
            FinishReason::Stop
        },
        None => FinishReason::Stop,
    }
}

/// Maps a backend stop code to the canonical finish reason, with the
/// unrecognised-code fallback to `Stop`.
pub fn map_stop_reason(code: &Option<String>) -> (r: FinishReason)
    ensures
        r == spec_stop_reason(match code {
            Some(s) => Some(s@),
            None => None,
        }),
{
    match code {
        Some(s) => {
            if *s == "end_turn".to_owned() {
                FinishReason::Stop
            } else if *s == "max_tokens".to_owned() {
                FinishReason::Length
            } else if *s == "tool_use".to_owned() {
                FinishReason::ToolCalls
            } else {
                FinishReason::Stop
            }
        },
        None => FinishReason::Stop,
    }
}

/// The canonical usage for backend-reported token counts: the total is the
/// saturating sum of input and output.
pub open spec fn spec_usage(u: AnthropicUsage) -> Usage {
    Usage {
        prompt_tokens: u.input_tokens,
        completion_tokens: u.output_tokens,
        total_tokens: sat_add_u32(u.input_tokens, u.output_tokens),
    }
}

/// Converts backend usage to canonical usage.
pub fn map_usage(u: &AnthropicUsage) -> (r: Usage)
    ensures
        r == spec_usage(*u),
{
    let total = if u.input_tokens > u32::MAX - u.output_tokens {
        u32::MAX
    } else {
        u.input_tokens + u.output_tokens
    };
    Usage {
        prompt_tokens: u.input_tokens,
        completion_tokens: u.output_tokens,
        total_tokens: total,
    }
}

/// Classifies an HTTP failure status into the typed taxonomy: 401 is an
/// authentication failure, 429 a rate limit (retry-after unknown), anything
/// else a generic API error carrying status and message.
pub fn classify_http_failure(status: u16, body: String) -> (r: AiError)
    ensures
        status == 401 ==> (r matches AiError::Provider(
            ProviderError::Authentication { provider, message },
        ) && provider@ == "anthropic"@ && message@ == body@),
        status == 429 ==> (r matches AiError::Provider(
            ProviderError::RateLimit { provider, retry_after, message },
        ) && provider@ == "anthropic"@ && retry_after is None && message@ == body@),
        status != 401 && status != 429 ==> (r matches AiError::Provider(
            ProviderError::ApiError { provider, status: st, message },
        ) && provider@ == "anthropic"@ && st == status && message@ == body@),
{
    if status == 401 {
        AiError::Provider(
            ProviderError::Authentication { provider: "anthropic".to_owned(), message: body },
        )
    } else if status == 429 {
        AiError::Provider(
            ProviderError::RateLimit {
                provider: "anthropic".to_owned(),
                retry_after: None,
                message: body,
            },
        )
    } else {
        AiError::Provider(
            ProviderError::ApiError { provider: "anthropic".to_owned(), status, message: body },
        )
    }
}

/// The wire shape of one tool definition.
pub open spec fn spec_wire_tool(t: crate::types::ToolDefinitionSpec) -> AnthropicToolSpec {
    AnthropicToolSpec {
        name: t.name,
        description: t.description,
        input_schema: t.parameters,
    }
}

/// Converts tool definitions to their wire shape, one for one, in order.
pub fn convert_tools(tools: &Vec<ToolDefinition>) -> (r: Vec<AnthropicTool>)
    ensures
        r.deep_view().len() == tools.deep_view().len(),
        forall|i: int|
            0 <= i < tools.deep_view().len() ==> #[trigger] r.deep_view()[i] == spec_wire_tool(
                tools.deep_view()[i],
            ),
{
    let mut out: Vec<AnthropicTool> = Vec::new();
    let n = tools.len();
    let mut i: usize = 0;
    while i < n
        invariant
            0 <= i <= n,
            n == tools@.len(),
            out@.len() == i,
            forall|j: int|
                0 <= j < i ==> #[trigger] out@[j].deep_view() == spec_wire_tool(
                    tools@[j].deep_view(),
                ),
        decreases n - i,
    {
        let t = &tools[i];
        out.push(
            AnthropicTool {
                name: t.name.clone(),
                description: t.description.clone(),
                input_schema: t.parameters.deep_clone(),
            },
        );
        i = i + 1;
    }
    out
}


/// All image parts of the user content carry base64 data, as the backend
/// requires.
pub open spec fn user_parts_ok(content: Seq<UserContentSpec>) -> bool {
    forall|i: int|
        0 <= i < content.len() ==> ((#[trigger] content[i]) matches UserContentSpec::Image(img)
            ==> img.base64 is Some)
}

/// Every user message's images carry base64 data: the condition under which
/// a conversation converts to the wire shape.
pub open spec fn messages_ok(msgs: Seq<MessageSpec>) -> bool {
    forall|i: int|
        0 <= i < msgs.len() ==> ((#[trigger] msgs[i]) matches MessageSpec::User { content, .. }
            ==> user_parts_ok(content))
}

/// The wire form of user content: text passes through, an image becomes a
/// base64 source with its media type (`image/jpeg` when unstated).
pub open spec fn wire_user_content(content: Seq<UserContentSpec>) -> Seq<AnthropicContentSpec>
    decreases content.len(),
{
    if content.len() == 0 {
        Seq::empty()
    } else {
        (match content[0] {
            UserContentSpec::Text(t) => seq![AnthropicContentSpec::Text { text: t }],
            UserContentSpec::Image(img) => seq![
                AnthropicContentSpec::Image {
                    source: AnthropicImageSourceSpec {
                        kind: "base64"@,
                        media_type: match img.mime_type {
                            Some(m) => m,
                            None => "image/jpeg"@,
                        },
                        data: match img.base64 {
                            Some(b) => b,
                            None => Seq::empty(),
                        },
                    },
                },
            ],
        }) + wire_user_content(content.skip(1))
    }
}

/// The wire form of assistant content: empty text parts are dropped, text
/// passes through, a tool call becomes a tool-use block.
pub open spec fn wire_assistant_content(content: Seq<AssistantContentSpec>) -> Seq<
    AnthropicContentSpec,
>
    decreases content.len(),
{
    if content.len() == 0 {
        Seq::empty()
    } else {
        (match content[0] {
            AssistantContentSpec::Text(t) => if t.len() == 0 {
                Seq::<AnthropicContentSpec>::empty()
            } else {
                seq![AnthropicContentSpec::Text { text: t }]
            },
            AssistantContentSpec::ToolCall(tc) => seq![
                AnthropicContentSpec::ToolUse { id: tc.id, name: tc.name, input: tc.arguments },
            ],
        }) + wire_assistant_content(content.skip(1))
    }
}

/// The wire form of tool results: one user message per result, carrying a
/// tool-result block correlated by identifier.
pub open spec fn wire_tool_messages(results: Seq<crate::messages::ToolResultSpec>) -> Seq<
    AnthropicMessageSpec,
>
    decreases results.len(),
{
    if results.len() == 0 {
        Seq::empty()
    } else {
        seq![
            AnthropicMessageSpec {
                role: "user"@,
                content: seq![
                    AnthropicContentSpec::ToolResult {
                        tool_use_id: results[0].tool_call_id,
                        content: results[0].result,
                        is_error: Some(results[0].is_error),
                    },
                ],
            },
        ] + wire_tool_messages(results.skip(1))
    }
}

/// The wire form of a conversation: system messages are lifted out, user
/// and assistant messages convert in place, a tool message becomes one user
/// message per result.
pub open spec fn wire_messages(msgs: Seq<MessageSpec>) -> Seq<AnthropicMessageSpec>
    decreases msgs.len(),
{
    if msgs.len() == 0 {
        Seq::empty()
    } else {
        (match msgs[0] {
            MessageSpec::System { .. } => Seq::<AnthropicMessageSpec>::empty(),
            MessageSpec::User { content, .. } => seq![
                AnthropicMessageSpec { role: "user"@, content: wire_user_content(content) },
            ],
            MessageSpec::Assistant { content, .. } => seq![
                AnthropicMessageSpec {
                    role: "assistant"@,
                    content: wire_assistant_content(content),
                },
            ],
            MessageSpec::Tool { tool_results, .. } => wire_tool_messages(tool_results),
        }) + wire_messages(msgs.skip(1))
    }
}

/// All system text parts of the conversation, in order.
pub open spec fn system_parts(msgs: Seq<MessageSpec>) -> Seq<Seq<char>>
    decreases msgs.len(),
{
    if msgs.len() == 0 {
        Seq::empty()
    } else {
        (match msgs[0] {
            MessageSpec::System { content, .. } => content,
            _ => Seq::<Seq<char>>::empty(),
        }) + system_parts(msgs.skip(1))
    }
}

/// Text parts joined by single spaces.
pub open spec fn join_space(parts: Seq<Seq<char>>) -> Seq<char>
    decreases parts.len(),
{
    if parts.len() == 0 {
        Seq::empty()
    } else if parts.len() == 1 {
        parts[0]
    } else {
        parts[0] + " "@ + join_space(parts.skip(1))
    }
}

/// Joining one more part appends a space and the part (or is the part, when
/// it is the first).
pub proof fn lemma_join_push(parts: Seq<Seq<char>>, p: Seq<char>)
    ensures
        parts.len() == 0 ==> join_space(parts.push(p)) == p,
        parts.len() > 0 ==> join_space(parts.push(p)) == join_space(parts) + " "@ + p,
    decreases parts.len(),
{
    let pushed = parts.push(p);
    if parts.len() == 0 {
        assert(pushed.len() == 1);
        assert(pushed[0] == p);
    } else if parts.len() == 1 {
        assert(pushed.len() == 2);
        assert(pushed[0] == parts[0]);
        assert(pushed.skip(1) =~= Seq::<Seq<char>>::empty().push(p));
        assert(pushed.skip(1).len() == 1);
        assert(pushed.skip(1)[0] == p);
        assert(join_space(pushed.skip(1)) == p);
    } else {
        lemma_join_push(parts.skip(1), p);
        assert(pushed[0] == parts[0]);
        assert(pushed.skip(1) =~= parts.skip(1).push(p));
        assert(join_space(pushed.skip(1)) == join_space(parts.skip(1).push(p)));
        assert(join_space(pushed) == pushed[0] + " "@ + join_space(pushed.skip(1)));
        assert(join_space(parts) == parts[0] + " "@ + join_space(parts.skip(1)));
        assert(parts[0] + " "@ + (join_space(parts.skip(1)) + " "@ + p) =~= (parts[0] + " "@
            + join_space(parts.skip(1))) + " "@ + p);
    }
}

fn invalid_image_error() -> (r: AiError)
    ensures
        r matches AiError::Validation(ValidationError::InvalidValue { field, message })
            && field@ == "image"@ && message@ == "Anthropic requires base64 encoded images"@,
{
    AiError::Validation(
        ValidationError::InvalidValue {
            field: "image".to_owned(),
            message: "Anthropic requires base64 encoded images".to_owned(),
        },
    )
}

/// Converts user content to its wire shape; an image without base64 data is
/// rejected.
#[verifier::loop_isolation(false)]
pub fn convert_text_content(content: &Vec<crate::messages::UserContent>) -> (r: Result<
    Vec<AnthropicContent>,
    AiError,
>)
    ensures
        r is Ok <==> user_parts_ok(content.deep_view()),
        r matches Ok(w) ==> w.deep_view() == wire_user_content(content.deep_view()),
        r matches Err(e) ==> (e matches AiError::Validation(
            ValidationError::InvalidValue { field, message },
        ) && field@ == "image"@ && message@ == "Anthropic requires base64 encoded images"@),
{
    let ghost cv = content.deep_view();
    let mut out: Vec<AnthropicContent> = Vec::new();
    let n = content.len();
    let mut i: usize = 0;
    proof {
        assert(cv.skip(0) =~= cv);
        assert(out.deep_view() =~= Seq::<AnthropicContentSpec>::empty());
    }
    while i < n
        invariant
            0 <= i <= n,
            out.deep_view() + wire_user_content(cv.skip(i as int)) == wire_user_content(cv),
            forall|j: int|
                0 <= j < i ==> ((#[trigger] cv[j]) matches UserContentSpec::Image(img)
                    ==> img.base64 is Some),
        decreases n - i,
    {
        let ghost pre = out.deep_view();
        proof {
            assert(cv.skip(i as int)[0] == cv[i as int]);
            assert(cv.skip(i as int).skip(1) =~= cv.skip(i as int + 1));
        }
        match &content[i] {
            crate::messages::UserContent::Text { text } => {
                out.push(AnthropicContent::Text { text: text.clone() });
            },
            crate::messages::UserContent::Image { image } => {
                match &image.base64 {
                    Some(b64) => {
                        let media_type = match &image.mime_type {
                            Some(m) => m.clone(),
                            None => "image/jpeg".to_owned(),
                        };
                        out.push(
                            AnthropicContent::Image {
                                source: AnthropicImageSource {
                                    kind: "base64".to_owned(),
                                    media_type,
                                    data: b64.clone(),
                                },
                            },
                        );
                    },
                    None => {
                        return Err(invalid_image_error());
                    },
                }
            },
        }
        proof {
            assert(out.deep_view() =~= pre.push(out@[out@.len() - 1].deep_view()));
            assert(pre.push(out@[out@.len() - 1].deep_view()) + wire_user_content(
                cv.skip(i as int + 1),
            ) =~= pre + (seq![out@[out@.len() - 1].deep_view()] + wire_user_content(
                cv.skip(i as int + 1),
            )));
        }
        i = i + 1;
    }
    proof {
        assert(cv.skip(n as int) =~= Seq::<UserContentSpec>::empty());
        assert(out.deep_view() + Seq::<AnthropicContentSpec>::empty() =~= out.deep_view());
    }
    Ok(out)
}

/// Converts assistant content to its wire shape, dropping empty text parts.
#[verifier::loop_isolation(false)]
pub fn convert_assistant_content(content: &Vec<AssistantContent>) -> (r: Vec<AnthropicContent>)
    ensures
        r.deep_view() == wire_assistant_content(content.deep_view()),
{
    let ghost cv = content.deep_view();
    let mut out: Vec<AnthropicContent> = Vec::new();
    let n = content.len();
    let mut i: usize = 0;
    proof {
        assert(cv.skip(0) =~= cv);
        assert(out.deep_view() =~= Seq::<AnthropicContentSpec>::empty());
    }
    while i < n
        invariant
            0 <= i <= n,
            out.deep_view() + wire_assistant_content(cv.skip(i as int)) == wire_assistant_content(
                cv,
            ),
        decreases n - i,
    {
        let ghost pre = out.deep_view();
        proof {
            assert(cv.skip(i as int)[0] == cv[i as int]);
            assert(cv.skip(i as int).skip(1) =~= cv.skip(i as int + 1));
        }
        match &content[i] {
            AssistantContent::Text { text } => {
                if !text.as_str().is_empty() {
                    out.push(AnthropicContent::Text { text: text.clone() });
                    proof {
                        assert(out.deep_view() =~= pre.push(out@[out@.len() - 1].deep_view()));
                        assert(pre.push(out@[out@.len() - 1].deep_view())
                            + wire_assistant_content(cv.skip(i as int + 1)) =~= pre + (seq![
                            out@[out@.len() - 1].deep_view(),
                        ] + wire_assistant_content(cv.skip(i as int + 1))));
                    }
                } else {
                    proof {
                        assert(pre + (Seq::<AnthropicContentSpec>::empty()
                            + wire_assistant_content(cv.skip(i as int + 1))) =~= pre
                            + wire_assistant_content(cv.skip(i as int + 1)));
                    }
                }
            },
            AssistantContent::ToolCall { tool_call } => {
                out.push(
                    AnthropicContent::ToolUse {
                        id: tool_call.id.clone(),
                        name: tool_call.name.clone(),
                        input: tool_call.arguments.deep_clone(),
                    },
                );
                proof {
                    assert(out.deep_view() =~= pre.push(out@[out@.len() - 1].deep_view()));
                    assert(pre.push(out@[out@.len() - 1].deep_view()) + wire_assistant_content(
                        cv.skip(i as int + 1),
                    ) =~= pre + (seq![out@[out@.len() - 1].deep_view()] + wire_assistant_content(
                        cv.skip(i as int + 1),
                    )));
                }
            },
        }
        i = i + 1;
    }
    proof {
        assert(cv.skip(n as int) =~= Seq::<AssistantContentSpec>::empty());
        assert(out.deep_view() + Seq::<AnthropicContentSpec>::empty() =~= out.deep_view());
    }
    out
}

/// Converts a conversation to the backend's wire shape: the system prompt
/// (all system text parts, space-joined; `None` when there are none) and
/// the wire messages. An image without base64 data is rejected.
#[verifier::loop_isolation(false)]
pub fn convert_messages(messages: &Vec<Message>) -> (r: Result<
    (Option<String>, Vec<AnthropicMessage>),
    AiError,
>)
    ensures
        r is Ok <==> messages_ok(messages.deep_view()),
        r matches Ok(p) ==> p.1.deep_view() == wire_messages(messages.deep_view()),
        r matches Ok(p) ==> (match p.0 {
            Some(sys) => system_parts(messages.deep_view()).len() > 0 && sys@ == join_space(
                system_parts(messages.deep_view()),
            ),
            None => system_parts(messages.deep_view()).len() == 0,
        }),
        r matches Err(e) ==> (e matches AiError::Validation(
            ValidationError::InvalidValue { field, message },
        ) && field@ == "image"@ && message@ == "Anthropic requires base64 encoded images"@),
{
    let ghost mv = messages.deep_view();
    let mut out: Vec<AnthropicMessage> = Vec::new();
    let mut system: String = String::new();
    let mut has_system = false;
    let ghost mut sp = Seq::<Seq<char>>::empty();
    let n = messages.len();
    let mut i: usize = 0;
    proof {
        assert(mv.skip(0) =~= mv);
        assert(out.deep_view() =~= Seq::<AnthropicMessageSpec>::empty());
        assert(sp + system_parts(mv.skip(0)) =~= system_parts(mv));
    }
    while i < n
        invariant
            0 <= i <= n,
            out.deep_view() + wire_messages(mv.skip(i as int)) == wire_messages(mv),
            sp + system_parts(mv.skip(i as int)) == system_parts(mv),
            has_system == (sp.len() > 0),
            has_system ==> system@ == join_space(sp),
            !has_system ==> system@ == Seq::<char>::empty(),
            forall|j: int|
                0 <= j < i ==> ((#[trigger] mv[j]) matches MessageSpec::User { content, .. }
                    ==> user_parts_ok(content)),
        decreases n - i,
    {
        let ghost pre = out.deep_view();
        proof {
            assert(mv.skip(i as int)[0] == mv[i as int]);
            assert(mv.skip(i as int).skip(1) =~= mv.skip(i as int + 1));
        }
        match &messages[i] {
            Message::System { content, .. } => {
                let ghost cpre = sp;
                let m = content.len();
                let ghost cv = content.deep_view();
                let mut p: usize = 0;
                proof {
                    assert(cv.take(0) =~= Seq::<Seq<char>>::empty());
                    assert(cpre + cv.take(0) =~= cpre);
                }
                while p < m
                    invariant
                        0 <= p <= m,
                        sp == cpre + cv.take(p as int),
                        has_system == (sp.len() > 0),
                        has_system ==> system@ == join_space(sp),
                        !has_system ==> system@ == Seq::<char>::empty(),
                    decreases m - p,
                {
                    match &content[p] {
                        crate::messages::SystemContent::Text { text } => {
                            proof {
                                lemma_join_push(sp, text@);
                            }
                            if has_system {
                                system.append(" ");
                                system.append(text.as_str());
                            } else {
                                system.append(text.as_str());
                                has_system = true;
                            }
                            proof {
                                sp = sp.push(text@);
                                assert(cpre + cv.take(p as int + 1) =~= (cpre + cv.take(
                                    p as int,
                                )).push(cv[p as int]));
                            }
                        },
                    }
                    p = p + 1;
                }
                proof {
                    assert(cv.take(m as int) =~= cv);
                    assert((cpre + cv) + system_parts(mv.skip(i as int + 1)) =~= cpre + (cv
                        + system_parts(mv.skip(i as int + 1))));
                    assert(pre + (Seq::<AnthropicMessageSpec>::empty() + wire_messages(
                        mv.skip(i as int + 1),
                    )) =~= pre + wire_messages(mv.skip(i as int + 1)));
                }
            },
            Message::User { content, .. } => {
                let converted = match convert_text_content(content) {
                    Ok(w) => w,
                    Err(e) => {
                        proof {
                            assert(mv[i as int] matches MessageSpec::User { content: c2, .. }
                                && c2 == content.deep_view());
                            assert(!messages_ok(mv));
                        }
                        return Err(e);
                    },
                };
                let ghost c2 = content.deep_view();
                out.push(AnthropicMessage { role: "user".to_owned(), content: converted });
                proof {
                    assert(mv[i as int] matches MessageSpec::User { content: c3, .. } && c3 == c2);
                    assert(out.deep_view() =~= pre.push(out@[out@.len() - 1].deep_view()));
                    assert(out@[out@.len() - 1].deep_view() =~= (AnthropicMessageSpec {
                        role: "user"@,
                        content: wire_user_content(c2),
                    }));
                    assert(pre.push(out@[out@.len() - 1].deep_view()) + wire_messages(
                        mv.skip(i as int + 1),
                    ) =~= pre + (seq![out@[out@.len() - 1].deep_view()] + wire_messages(
                        mv.skip(i as int + 1),
                    )));
                }
            },
            Message::Assistant { content, .. } => {
                let converted = convert_assistant_content(content);
                out.push(AnthropicMessage { role: "assistant".to_owned(), content: converted });
                proof {
                    assert(out.deep_view() =~= pre.push(out@[out@.len() - 1].deep_view()));
                    assert(pre.push(out@[out@.len() - 1].deep_view()) + wire_messages(
                        mv.skip(i as int + 1),
                    ) =~= pre + (seq![out@[out@.len() - 1].deep_view()] + wire_messages(
                        mv.skip(i as int + 1),
                    )));
                }
            },
            Message::Tool { tool_results, .. } => {
                let ghost trv = tool_results.deep_view();
                let m = tool_results.len();
                let ghost opre = out.deep_view();
                let mut p: usize = 0;
                proof {
                    assert(trv.skip(0) =~= trv);
                    assert(opre + wire_tool_messages(trv.skip(0)) =~= opre + wire_tool_messages(
                        trv,
                    ));
                }
                while p < m
                    invariant
                        0 <= p <= m,
                        out.deep_view() + wire_tool_messages(trv.skip(p as int)) == opre
                            + wire_tool_messages(trv),
                    decreases m - p,
                {
                    let ghost pre2 = out.deep_view();
                    proof {
                        assert(trv.skip(p as int)[0] == trv[p as int]);
                        assert(trv.skip(p as int).skip(1) =~= trv.skip(p as int + 1));
                    }
                    let tr = &tool_results[p];
                    let mut blocks: Vec<AnthropicContent> = Vec::new();
                    blocks.push(
                        AnthropicContent::ToolResult {
                            tool_use_id: tr.tool_call_id.clone(),
                            content: tr.result.deep_clone(),
                            is_error: Some(tr.is_error),
                        },
                    );
                    let wm = AnthropicMessage { role: "user".to_owned(), content: blocks };
                    let ghost wmv = wm.deep_view();
                    out.push(wm);
                    proof {
                        assert(wmv =~= (AnthropicMessageSpec {
                            role: "user"@,
                            content: seq![
                                AnthropicContentSpec::ToolResult {
                                    tool_use_id: trv[p as int].tool_call_id,
                                    content: trv[p as int].result,
                                    is_error: Some(trv[p as int].is_error),
                                },
                            ],
                        }));
                        assert(out.deep_view() =~= pre2.push(wmv));
                        assert(pre2.push(wmv) + wire_tool_messages(trv.skip(p as int + 1)) =~= pre2
                            + (seq![wmv] + wire_tool_messages(trv.skip(p as int + 1))));
                    }
                    p = p + 1;
                }
                proof {
                    assert(trv.skip(m as int) =~= Seq::<crate::messages::ToolResultSpec>::empty());
                    assert(out.deep_view() + Seq::<AnthropicMessageSpec>::empty()
                        =~= out.deep_view());
                    assert(pre + (wire_tool_messages(trv) + wire_messages(mv.skip(i as int + 1)))
                        =~= (pre + wire_tool_messages(trv)) + wire_messages(mv.skip(i as int + 1)));
                }
            },
        }
        i = i + 1;
    }
    proof {
        assert(mv.skip(n as int) =~= Seq::<MessageSpec>::empty());
        assert(out.deep_view() + Seq::<AnthropicMessageSpec>::empty() =~= out.deep_view());
        assert(sp + Seq::<Seq<char>>::empty() =~= sp);
    }
    if has_system {
        Ok((Some(system), out))
    } else {
        Ok((None, out))
    }
}


/// The canonical assistant content of a wire response: text passes through,
/// tool-use blocks become tool calls, other block shapes are skipped.
pub open spec fn canonical_content(content: Seq<AnthropicContentSpec>) -> Seq<
    AssistantContentSpec,
>
    decreases content.len(),
{
    if content.len() == 0 {
        Seq::empty()
    } else {
        (match content[0] {
            AnthropicContentSpec::Text { text } => seq![AssistantContentSpec::Text(text)],
            AnthropicContentSpec::ToolUse { id, name, input } => seq![
                AssistantContentSpec::ToolCall(
                    crate::messages::ToolCallSpec { id: id, name: name, arguments: input },
                ),
            ],
            _ => Seq::<AssistantContentSpec>::empty(),
        }) + canonical_content(content.skip(1))
    }
}

/// Converts a wire response to the canonical response: an assistant message
/// with the canonical content, the mapped finish reason, and the mapped
/// usage.
#[verifier::loop_isolation(false)]
pub fn parse_response(resp: AnthropicResponse) -> (r: ChatResponse)
    ensures
        r.deep_view() == (crate::types::ChatResponseSpec {
            id: resp.id@,
            message: (MessageSpec::Assistant {
                content: canonical_content(resp.content.deep_view()),
                metadata: None,
            }),
            finish_reason: spec_stop_reason(match resp.stop_reason {
                Some(s) => Some(s@),
                None => None,
            }),
            usage: (match resp.usage {
                Some(u) => Some(spec_usage(u)),
                None => None,
            }),
            metadata: None,
        }),
{
    let ghost cv = resp.content.deep_view();
    let mut content: Vec<AssistantContent> = Vec::new();
    let n = resp.content.len();
    let mut i: usize = 0;
    proof {
        assert(cv.skip(0) =~= cv);
        assert(content.deep_view() =~= Seq::<AssistantContentSpec>::empty());
    }
    while i < n
        invariant
            0 <= i <= n,
            content.deep_view() + canonical_content(cv.skip(i as int)) == canonical_content(cv),
        decreases n - i,
    {
        let ghost pre = content.deep_view();
        proof {
            assert(cv.skip(i as int)[0] == cv[i as int]);
            assert(cv.skip(i as int).skip(1) =~= cv.skip(i as int + 1));
        }
        match &resp.content[i] {
            AnthropicContent::Text { text } => {
                content.push(AssistantContent::Text { text: text.clone() });
                proof {
                    assert(content.deep_view() =~= pre.push(
                        content@[content@.len() - 1].deep_view(),
                    ));
                    assert(pre.push(content@[content@.len() - 1].deep_view())
                        + canonical_content(cv.skip(i as int + 1)) =~= pre + (seq![
                        content@[content@.len() - 1].deep_view(),
                    ] + canonical_content(cv.skip(i as int + 1))));
                }
            },
            AnthropicContent::ToolUse { id, name, input } => {
                content.push(
                    AssistantContent::ToolCall {
                        tool_call: ToolCall {
                            id: id.clone(),
                            name: name.clone(),
                            arguments: input.deep_clone(),
                        },
                    },
                );
                proof {
                    assert(content.deep_view() =~= pre.push(
                        content@[content@.len() - 1].deep_view(),
                    ));
                    assert(pre.push(content@[content@.len() - 1].deep_view())
                        + canonical_content(cv.skip(i as int + 1)) =~= pre + (seq![
                        content@[content@.len() - 1].deep_view(),
                    ] + canonical_content(cv.skip(i as int + 1))));
                }
            },
            _ => {
                proof {
                    assert(pre + (Seq::<AssistantContentSpec>::empty() + canonical_content(
                        cv.skip(i as int + 1),
                    )) =~= pre + canonical_content(cv.skip(i as int + 1)));
                }
            },
        }
        i = i + 1;
    }
    proof {
        assert(cv.skip(n as int) =~= Seq::<AnthropicContentSpec>::empty());
        assert(content.deep_view() + Seq::<AssistantContentSpec>::empty() =~= content.deep_view());
    }
    let finish_reason = map_stop_reason(&resp.stop_reason);
    let usage = match &resp.usage {
        Some(u) => Some(map_usage(u)),
        None => None,
    };
    let r = ChatResponse {
        id: resp.id,
        message: Message::Assistant { content, metadata: None },
        finish_reason,
        usage,
        metadata: None,
    };
    proof {
        assert(r.deep_view() =~= (crate::types::ChatResponseSpec {
            id: resp.id@,
            message: (MessageSpec::Assistant {
                content: canonical_content(resp.content.deep_view()),
                metadata: None,
            }),
            finish_reason: spec_stop_reason(match resp.stop_reason {
                Some(s) => Some(s@),
                None => None,
            }),
            usage: (match resp.usage {
                Some(u) => Some(spec_usage(u)),
                None => None,
            }),
            metadata: None,
        }));
    }
    r
}

/// Builds the wire request for a chat request: the model and transport come
/// from the configuration, a missing token ceiling defaults to 1000, and the
/// conversation converts as [`convert_messages`] says. An image without
/// base64 data is rejected.
pub fn build_request(config: &AnthropicConfig, request: &ChatRequest, stream: bool) -> (r: Result<
    AnthropicRequest,
    AiError,
>)
    ensures
        r is Ok <==> messages_ok(request.deep_view().messages),
        r matches Ok(w) ==> ({
            &&& w.model@ == config.model@
            &&& w.stream == stream
            &&& w.max_tokens == (match request.settings.max_tokens {
                Some(t) => t,
                None => 1000u32,
            })
            &&& w.temperature == request.settings.temperature
            &&& (match w.system {
                Some(sys) => system_parts(request.deep_view().messages).len() > 0 && sys@
                    == join_space(system_parts(request.deep_view().messages)),
                None => system_parts(request.deep_view().messages).len() == 0,
            })
            &&& w.messages.deep_view() == wire_messages(request.deep_view().messages)
            &&& (match (&request.tools, &w.tools) {
                (Some(t), Some(wt)) => wt.deep_view().len() == t.deep_view().len() && (forall|
                    i: int,
                |
                    0 <= i < t.deep_view().len() ==> #[trigger] wt.deep_view()[i]
                        == spec_wire_tool(t.deep_view()[i])),
                (None, None) => true,
                _ => false,
            })
        }),
        r matches Err(e) ==> (e matches AiError::Validation(
            ValidationError::InvalidValue { field, message },
        ) && field@ == "image"@ && message@ == "Anthropic requires base64 encoded images"@),
{
    let converted = convert_messages(&request.messages);
    match converted {
        Ok(pair) => {
            let (system, messages) = pair;
            let max_tokens = match request.settings.max_tokens {
                Some(t) => t,
                None => 1000,
            };
            let tools = match &request.tools {
                Some(t) => Some(convert_tools(t)),
                None => None,
            };
            Ok(
                AnthropicRequest {
                    model: config.model.clone(),
                    max_tokens,
                    temperature: request.settings.temperature,
                    system,
                    messages,
                    tools,
                    stream,
                },
            )
        },
        Err(e) => Err(e),
    }
}

/// One parsed backend stream-event delta.
#[derive(Debug)]
pub enum AnthropicStreamDelta {
    TextDelta { text: String },
    InputJsonDelta { partial_json: String },
    ThinkingDelta { thinking: String },
    Other,
}

/// Model of [`AnthropicStreamDelta`].
#[verifier::ext_equal]
pub enum AnthropicStreamDeltaSpec {
    TextDelta { text: Seq<char> },
    InputJsonDelta { partial_json: Seq<char> },
    ThinkingDelta { thinking: Seq<char> },
    Other,
}

impl DeepView for AnthropicStreamDelta {
    type V = AnthropicStreamDeltaSpec;

    open spec fn deep_view(&self) -> AnthropicStreamDeltaSpec {
        match self {
            AnthropicStreamDelta::TextDelta { text } => AnthropicStreamDeltaSpec::TextDelta {
                text: text@,
            },
            AnthropicStreamDelta::InputJsonDelta { partial_json } => {
                AnthropicStreamDeltaSpec::InputJsonDelta { partial_json: partial_json@ }
            },
            AnthropicStreamDelta::ThinkingDelta { thinking } => {
                AnthropicStreamDeltaSpec::ThinkingDelta { thinking: thinking@ }
            },
            AnthropicStreamDelta::Other => AnthropicStreamDeltaSpec::Other,
        }
    }
}

/// One parsed backend stream event. Anything with an unrecognised `type`
/// discriminator parses to `Unknown`, which normalises to an invisible
/// chunk: forward compatibility never fails the stream.
#[derive(Debug)]
pub enum AnthropicStreamEvent {
    MessageStart { id: String, usage: Option<AnthropicUsage> },
    ContentBlockStart,
    ContentBlockDelta { delta: AnthropicStreamDelta },
    ContentBlockStop,
    MessageDeltaEvent { stop_reason: Option<String>, usage: Option<AnthropicUsage> },
    MessageStop,
    Ping,
    ErrorEvent { message: String },
    Unknown,
}

/// Model of [`AnthropicStreamEvent`].
#[verifier::ext_equal]
pub enum AnthropicStreamEventSpec {
    MessageStart { id: Seq<char>, usage: Option<AnthropicUsage> },
    ContentBlockStart,
    ContentBlockDelta { delta: AnthropicStreamDeltaSpec },
    ContentBlockStop,
    MessageDeltaEvent { stop_reason: Option<Seq<char>>, usage: Option<AnthropicUsage> },
    MessageStop,
    Ping,
    ErrorEvent { message: Seq<char> },
    Unknown,
}

impl DeepView for AnthropicStreamEvent {
    type V = AnthropicStreamEventSpec;

    open spec fn deep_view(&self) -> AnthropicStreamEventSpec {
        match self {
            AnthropicStreamEvent::MessageStart { id, usage } => {
                AnthropicStreamEventSpec::MessageStart { id: id@, usage: *usage }
            },
            AnthropicStreamEvent::ContentBlockStart => AnthropicStreamEventSpec::ContentBlockStart,
            AnthropicStreamEvent::ContentBlockDelta { delta } => {
                AnthropicStreamEventSpec::ContentBlockDelta { delta: delta.deep_view() }
            },
            AnthropicStreamEvent::ContentBlockStop => AnthropicStreamEventSpec::ContentBlockStop,
            AnthropicStreamEvent::MessageDeltaEvent { stop_reason, usage } => {
                AnthropicStreamEventSpec::MessageDeltaEvent {
                    stop_reason: stop_reason.deep_view(),
                    usage: *usage,
                }
            },
            AnthropicStreamEvent::MessageStop => AnthropicStreamEventSpec::MessageStop,
            AnthropicStreamEvent::Ping => AnthropicStreamEventSpec::Ping,
            AnthropicStreamEvent::ErrorEvent { message } => {
                AnthropicStreamEventSpec::ErrorEvent { message: message@ }
            },
            AnthropicStreamEvent::Unknown => AnthropicStreamEventSpec::Unknown,
        }
    }
}

/// The text, or empty when absent.
pub open spec fn or_empty(s: Option<Seq<char>>) -> Seq<char> {
    match s {
        Some(x) => x,
        None => Seq::empty(),
    }
}

/// Backend usage read from a JSON object: both token counts must be
/// integers in range.
pub open spec fn spec_parse_usage(j: Option<JsonSpec>) -> Option<AnthropicUsage> {
    match j {
        Some(obj) => match (crate::json::json_get(obj, "input_tokens"@), crate::json::json_get(
            obj,
            "output_tokens"@,
        )) {
            (Some(JsonSpec::Int(a)), Some(JsonSpec::Int(b))) => if 0 <= a && a <= u32::MAX && 0
                <= b && b <= u32::MAX {
                Some(AnthropicUsage { input_tokens: a as u32, output_tokens: b as u32 })
            } else {
                None
            },
            _ => None,
        },
        None => None,
    }
}

/// A content-block delta read from a JSON object.
pub open spec fn spec_parse_delta(j: Option<JsonSpec>) -> AnthropicStreamDeltaSpec {
    match j {
        Some(d) => match spec_get_str(d, "type"@) {
            Some(t) => if t == "text_delta"@ {
                AnthropicStreamDeltaSpec::TextDelta { text: or_empty(spec_get_str(d, "text"@)) }
            } else if t == "input_json_delta"@ {
                AnthropicStreamDeltaSpec::InputJsonDelta {
                    partial_json: or_empty(spec_get_str(d, "partial_json"@)),
                }
            } else if t == "thinking_delta"@ {
                AnthropicStreamDeltaSpec::ThinkingDelta {
                    thinking: or_empty(spec_get_str(d, "thinking"@)),
                }
            } else {
                AnthropicStreamDeltaSpec::Other
            },
            None => AnthropicStreamDeltaSpec::Other,
        },
        None => AnthropicStreamDeltaSpec::Other,
    }
}

/// A backend stream event read from its JSON payload. The `type`
/// discriminator selects the variant; a missing or unrecognised type yields
/// `Unknown`.
pub open spec fn spec_parse_event(j: JsonSpec) -> AnthropicStreamEventSpec {
    match spec_get_str(j, "type"@) {
        None => AnthropicStreamEventSpec::Unknown,
        Some(t) => if t == "message_start"@ {
            AnthropicStreamEventSpec::MessageStart {
                id: (match crate::json::json_get(j, "message"@) {
                    Some(msg) => match spec_get_str(msg, "id"@) {
                        Some(id) => id,
                        None => "stream"@,
                    },
                    None => "stream"@,
                }),
                usage: (match crate::json::json_get(j, "message"@) {
                    Some(msg) => spec_parse_usage(crate::json::json_get(msg, "usage"@)),
                    None => None,
                }),
            }
        } else if t == "content_block_start"@ {
            AnthropicStreamEventSpec::ContentBlockStart
        } else if t == "content_block_delta"@ {
            AnthropicStreamEventSpec::ContentBlockDelta {
                delta: spec_parse_delta(crate::json::json_get(j, "delta"@)),
            }
        } else if t == "content_block_stop"@ {
            AnthropicStreamEventSpec::ContentBlockStop
        } else if t == "message_delta"@ {
            AnthropicStreamEventSpec::MessageDeltaEvent {
                stop_reason: (match crate::json::json_get(j, "delta"@) {
                    Some(d) => spec_get_str(d, "stop_reason"@),
                    None => None,
                }),
                usage: spec_parse_usage(crate::json::json_get(j, "usage"@)),
            }
        } else if t == "message_stop"@ {
            AnthropicStreamEventSpec::MessageStop
        } else if t == "ping"@ {
            AnthropicStreamEventSpec::Ping
        } else if t == "error"@ {
            AnthropicStreamEventSpec::ErrorEvent {
                message: (match crate::json::json_get(j, "error"@) {
                    Some(e) => or_empty(spec_get_str(e, "message"@)),
                    None => Seq::empty(),
                }),
            }
        } else {
            AnthropicStreamEventSpec::Unknown
        },
    }
}

fn parse_usage(v: Option<&JsonValue>) -> (r: Option<AnthropicUsage>)
    ensures
        r == spec_parse_usage(match v {
            Some(j) => Some(j.deep_view()),
            None => None,
        }),
{
    match v {
        Some(obj) => {
            let a = obj.get(&"input_tokens".to_owned());
            let b = obj.get(&"output_tokens".to_owned());
            match (a, b) {
                (Some(JsonValue::Int(x)), Some(JsonValue::Int(y))) => {
                    if *x >= 0 && *x <= u32::MAX as i64 && *y >= 0 && *y <= u32::MAX as i64 {
                        Some(AnthropicUsage { input_tokens: *x as u32, output_tokens: *y as u32 })
                    } else {
                        None
                    }
                },
                _ => None,
            }
        },
        None => None,
    }
}

fn parse_delta(v: Option<&JsonValue>) -> (r: AnthropicStreamDelta)
    ensures
        r.deep_view() == spec_parse_delta(match v {
            Some(j) => Some(j.deep_view()),
            None => None,
        }),
{
    match v {
        Some(d) => match get_str(d, "type".to_owned()) {
            Some(t) => {
                if *t == "text_delta".to_owned() {
                    let text = match get_str(d, "text".to_owned()) {
                        Some(x) => x.clone(),
                        None => String::new(),
                    };
                    AnthropicStreamDelta::TextDelta { text }
                } else if *t == "input_json_delta".to_owned() {
                    let partial_json = match get_str(d, "partial_json".to_owned()) {
                        Some(x) => x.clone(),
                        None => String::new(),
                    };
                    AnthropicStreamDelta::InputJsonDelta { partial_json }
                } else if *t == "thinking_delta".to_owned() {
                    let thinking = match get_str(d, "thinking".to_owned()) {
                        Some(x) => x.clone(),
                        None => String::new(),
                    };
                    AnthropicStreamDelta::ThinkingDelta { thinking }
                } else {
                    AnthropicStreamDelta::Other
                }
            },
            None => AnthropicStreamDelta::Other,
        },
        None => AnthropicStreamDelta::Other,
    }
}

/// Parses a backend stream event from its JSON payload: the `type`
/// discriminator selects the variant; a missing or unrecognised type yields
/// `Unknown` rather than a failure.
pub fn parse_stream_event(v: &JsonValue) -> (r: AnthropicStreamEvent)
    ensures
        r.deep_view() == spec_parse_event(v.deep_view()),
{
    let t = match get_str(v, "type".to_owned()) {
        Some(t) => t,
        None => {
            return AnthropicStreamEvent::Unknown;
        },
    };
    if *t == "message_start".to_owned() {
        match v.get(&"message".to_owned()) {
            Some(msg) => {
                let id = match get_str(msg, "id".to_owned()) {
                    Some(id) => id.clone(),
                    None => "stream".to_owned(),
                };
                let usage = parse_usage(msg.get(&"usage".to_owned()));
                AnthropicStreamEvent::MessageStart { id, usage }
            },
            None => AnthropicStreamEvent::MessageStart {
                id: "stream".to_owned(),
                usage: None,
            },
        }
    } else if *t == "content_block_start".to_owned() {
        AnthropicStreamEvent::ContentBlockStart
    } else if *t == "content_block_delta".to_owned() {
        AnthropicStreamEvent::ContentBlockDelta {
            delta: parse_delta(v.get(&"delta".to_owned())),
        }
    } else if *t == "content_block_stop".to_owned() {
        AnthropicStreamEvent::ContentBlockStop
    } else if *t == "message_delta".to_owned() {
        let stop_reason = match v.get(&"delta".to_owned()) {
            Some(d) => match get_str(d, "stop_reason".to_owned()) {
                Some(sr) => Some(sr.clone()),
                None => None,
            },
            None => None,
        };
        let usage = parse_usage(v.get(&"usage".to_owned()));
        AnthropicStreamEvent::MessageDeltaEvent { stop_reason, usage }
    } else if *t == "message_stop".to_owned() {
        AnthropicStreamEvent::MessageStop
    } else if *t == "ping".to_owned() {
        AnthropicStreamEvent::Ping
    } else if *t == "error".to_owned() {
        let message = match v.get(&"error".to_owned()) {
            Some(e) => match get_str(e, "message".to_owned()) {
                Some(m) => m.clone(),
                None => String::new(),
            },
            None => String::new(),
        };
        AnthropicStreamEvent::ErrorEvent { message }
    } else {
        AnthropicStreamEvent::Unknown
    }
}

/// The canonical chunk (or error) one backend event normalises to, keyed by
/// variant: content deltas become assistant deltas, the message-delta and
/// message-stop events carry the finish reason, metadata-only events become
/// empty invisible deltas, and an explicit error event becomes an API error.
pub open spec fn spec_event_chunk(ev: AnthropicStreamEventSpec) -> Result<
    crate::types::ChatStreamChunkSpec,
    Seq<char>,
> {
    match ev {
        AnthropicStreamEventSpec::MessageStart { id, usage } => Ok(
            crate::types::ChatStreamChunkSpec {
                id: id,
                delta: crate::types::MessageDeltaSpec::Assistant { content: None },
                finish_reason: None,
                usage: (match usage {
                    Some(u) => Some(spec_usage(u)),
                    None => None,
                }),
            },
        ),
        AnthropicStreamEventSpec::ContentBlockDelta { delta } => Ok(
            crate::types::ChatStreamChunkSpec {
                id: "stream"@,
                delta: crate::types::MessageDeltaSpec::Assistant {
                    content: (match delta {
                        AnthropicStreamDeltaSpec::TextDelta { text } => Some(
                            AssistantContentSpec::Text(text),
                        ),
                        AnthropicStreamDeltaSpec::ThinkingDelta { thinking } => Some(
                            AssistantContentSpec::Text(thinking),
                        ),
                        _ => None,
                    }),
                },
                finish_reason: None,
                usage: None,
            },
        ),
        AnthropicStreamEventSpec::MessageDeltaEvent { stop_reason, usage } => Ok(
            crate::types::ChatStreamChunkSpec {
                id: "stream"@,
                delta: crate::types::MessageDeltaSpec::Assistant { content: None },
                finish_reason: (match stop_reason {
                    Some(sr) => Some(spec_stop_reason(Some(sr))),
                    None => None,
                }),
                usage: (match usage {
                    Some(u) => Some(spec_usage(u)),
                    None => None,
                }),
            },
        ),
        AnthropicStreamEventSpec::MessageStop => Ok(
            crate::types::ChatStreamChunkSpec {
                id: "stream"@,
                delta: crate::types::MessageDeltaSpec::Assistant { content: None },
                finish_reason: Some(FinishReason::Stop),
                usage: None,
            },
        ),
        AnthropicStreamEventSpec::ErrorEvent { message } => Err(message),
        _ => Ok(
            crate::types::ChatStreamChunkSpec {
                id: "stream"@,
                delta: crate::types::MessageDeltaSpec::Assistant { content: None },
                finish_reason: None,
                usage: None,
            },
        ),
    }
}

/// Normalises one backend event into a canonical chunk, or into an API
/// error for an explicit backend error event.
pub fn handle_stream_event(event: AnthropicStreamEvent) -> (r: Result<ChatStreamChunk, AiError>)
    ensures
        (match spec_event_chunk(event.deep_view()) {
            Ok(cs) => r matches Ok(c) && c.deep_view() == cs,
            Err(m) => r matches Err(e) && (e matches AiError::Provider(
                ProviderError::ApiError { provider, status, message },
            ) && provider@ == "anthropic"@ && status == 500 && message@ == m),
        }),
{
    match event {
        AnthropicStreamEvent::MessageStart { id, usage } => {
            let mapped = match &usage {
                Some(u) => Some(map_usage(u)),
                None => None,
            };
            Ok(
                ChatStreamChunk {
                    id,
                    delta: MessageDelta::Assistant { content: None },
                    finish_reason: None,
                    usage: mapped,
                },
            )
        },
        AnthropicStreamEvent::ContentBlockDelta { delta } => {
            let content = match delta {
                AnthropicStreamDelta::TextDelta { text } => Some(
                    AssistantContent::Text { text },
                ),
                AnthropicStreamDelta::ThinkingDelta { thinking } => Some(
                    AssistantContent::Text { text: thinking },
                ),
                _ => None,
            };
            Ok(
                ChatStreamChunk {
                    id: "stream".to_owned(),
                    delta: MessageDelta::Assistant { content },
                    finish_reason: None,
                    usage: None,
                },
            )
        },
        AnthropicStreamEvent::MessageDeltaEvent { stop_reason, usage } => {
            let finish_reason = match &stop_reason {
                Some(_) => Some(map_stop_reason(&stop_reason)),
                None => None,
            };
            let mapped = match &usage {
                Some(u) => Some(map_usage(u)),
                None => None,
            };
            Ok(
                ChatStreamChunk {
                    id: "stream".to_owned(),
                    delta: MessageDelta::Assistant { content: None },
                    finish_reason,
                    usage: mapped,
                },
            )
        },
        AnthropicStreamEvent::MessageStop => Ok(
            ChatStreamChunk {
                id: "stream".to_owned(),
                delta: MessageDelta::Assistant { content: None },
                finish_reason: Some(FinishReason::Stop),
                usage: None,
            },
        ),
        AnthropicStreamEvent::ErrorEvent { message } => Err(
            AiError::Provider(
                ProviderError::ApiError {
                    provider: "anthropic".to_owned(),
                    status: 500,
                    message,
                },
            ),
        ),
        _ => Ok(
            ChatStreamChunk {
                id: "stream".to_owned(),
                delta: MessageDelta::Assistant { content: None },
                finish_reason: None,
                usage: None,
            },
        ),
    }
}

/// Whether a chunk belongs in the externally visible sequence: an empty
/// assistant delta is filtered out unless it carries a finish reason or
/// usage.
pub open spec fn spec_chunk_visible(c: crate::types::ChatStreamChunkSpec) -> bool {
    !(c.delta matches crate::types::MessageDeltaSpec::Assistant { content: None })
        || c.finish_reason is Some || c.usage is Some
}

/// Decides chunk visibility.
pub fn chunk_visible(c: &ChatStreamChunk) -> (r: bool)
    ensures
        r == spec_chunk_visible(c.deep_view()),
{
    let empty_delta = match &c.delta {
        MessageDelta::Assistant { content: None } => true,
        _ => false,
    };
    !empty_delta || c.finish_reason.is_some() || c.usage.is_some()
}

/// Forward compatibility of the stream: an unrecognised backend event type,
/// or a keep-alive or block-boundary event, never terminates or fails the
/// chunk sequence — it normalises to a chunk the visibility filter drops,
/// so it is simply absent from the externally visible sequence.
pub proof fn lemma_unknown_event_invisible(ev: AnthropicStreamEventSpec)
    requires
        ev is Unknown || ev is Ping || ev is ContentBlockStart || ev is ContentBlockStop,
    ensures
        spec_event_chunk(ev) matches Ok(c) && !spec_chunk_visible(c),
{
}

} // verus!
