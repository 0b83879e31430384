//! The canonical, role-tagged conversation representation.
//!
//! A conversation is an ordered sequence of [`Message`] values. Each role
//! admits exactly the content parts that belong to it: system and user
//! messages carry text (user messages also images), assistant messages carry
//! text and tool calls, tool messages carry tool results. The mapping from
//! role to permitted parts is enforced at construction and mutation time.
//!
//! Every tool result in a well-formed conversation correlates to a tool call
//! issued by an earlier assistant message; [`conversation_correlated`] states
//! that invariant and [`check_correlated`] decides it.

use vstd::prelude::*;

use crate::json::{json_obj_view, json_view, JsonSpec, JsonValue};

verus! {

/// Free-form metadata attached to a message: string-keyed JSON values.
pub type Metadata = Vec<(String, JsonValue)>;

/// Model of one metadata mapping.
pub open spec fn meta_view(m: Option<Metadata>) -> Option<Seq<(Seq<char>, JsonSpec)>> {
    match m {
        Some(v) => Some(json_obj_view(v@)),
        None => None,
    }
}

/// Image content with flexible source types.
#[derive(Debug)]
pub struct ImageContent {
    pub url: Option<String>,
    pub base64: Option<String>,
    pub mime_type: Option<String>,
}

/// Model of [`ImageContent`].
#[verifier::ext_equal]
pub struct ImageContentSpec {
    pub url: Option<Seq<char>>,
    pub base64: Option<Seq<char>>,
    pub mime_type: Option<Seq<char>>,
}

impl DeepView for ImageContent {
    type V = ImageContentSpec;

    open spec fn deep_view(&self) -> ImageContentSpec {
        ImageContentSpec {
            url: self.url.deep_view(),
            base64: self.base64.deep_view(),
            mime_type: self.mime_type.deep_view(),
        }
    }
}

/// A model-issued request to invoke a named tool with structured arguments.
#[derive(Debug)]
pub struct ToolCall {
    pub id: String,
    pub name: String,
    pub arguments: JsonValue,
}

/// Model of [`ToolCall`].
#[verifier::ext_equal]
pub struct ToolCallSpec {
    pub id: Seq<char>,
    pub name: Seq<char>,
    pub arguments: JsonSpec,
}

impl DeepView for ToolCall {
    type V = ToolCallSpec;

    open spec fn deep_view(&self) -> ToolCallSpec {
        ToolCallSpec { id: self.id@, name: self.name@, arguments: json_view(self.arguments) }
    }
}

impl ToolCall {
    /// A structural copy, equal to `self` under the model.
    pub fn deep_clone(&self) -> (r: ToolCall)
        ensures
            r.deep_view() == self.deep_view(),
    {
        ToolCall {
            id: self.id.clone(),
            name: self.name.clone(),
            arguments: self.arguments.deep_clone(),
        }
    }
}

/// The structured output (or error report) of one tool invocation,
/// correlated to its call by `tool_call_id`.
#[derive(Debug)]
pub struct ToolResult {
    pub tool_call_id: String,
    pub result: JsonValue,
    pub is_error: bool,
}

/// Model of [`ToolResult`].
#[verifier::ext_equal]
pub struct ToolResultSpec {
    pub tool_call_id: Seq<char>,
    pub result: JsonSpec,
    pub is_error: bool,
}

impl DeepView for ToolResult {
    type V = ToolResultSpec;

    open spec fn deep_view(&self) -> ToolResultSpec {
        ToolResultSpec {
            tool_call_id: self.tool_call_id@,
            result: json_view(self.result),
            is_error: self.is_error,
        }
    }
}

/// Content parts for system messages.
#[derive(Debug)]
pub enum SystemContent {
    Text { text: String },
}

impl DeepView for SystemContent {
    type V = Seq<char>;

    open spec fn deep_view(&self) -> Seq<char> {
        match self {
            SystemContent::Text { text } => text@,
        }
    }
}

/// Content parts for user messages.
#[derive(Debug)]
pub enum UserContent {
    Text { text: String },
    Image { image: ImageContent },
}

/// Model of [`UserContent`].
#[verifier::ext_equal]
pub enum UserContentSpec {
    Text(Seq<char>),
    Image(ImageContentSpec),
}

impl DeepView for UserContent {
    type V = UserContentSpec;

    open spec fn deep_view(&self) -> UserContentSpec {
        match self {
            UserContent::Text { text } => UserContentSpec::Text(text@),
            UserContent::Image { image } => UserContentSpec::Image(image.deep_view()),
        }
    }
}

/// Content parts for assistant messages: text and tool calls.
#[derive(Debug)]
pub enum AssistantContent {
    Text { text: String },
    ToolCall { tool_call: ToolCall },
}

/// Model of [`AssistantContent`].
#[verifier::ext_equal]
pub enum AssistantContentSpec {
    Text(Seq<char>),
    ToolCall(ToolCallSpec),
}

impl DeepView for AssistantContent {
    type V = AssistantContentSpec;

    open spec fn deep_view(&self) -> AssistantContentSpec {
        match self {
            AssistantContent::Text { text } => AssistantContentSpec::Text(text@),
            AssistantContent::ToolCall { tool_call } => AssistantContentSpec::ToolCall(
                tool_call.deep_view(),
            ),
        }
    }
}

/// A conversation message, tagged by role, with role-specific content.
#[derive(Debug)]
pub enum Message {
    System { content: Vec<SystemContent>, metadata: Option<Metadata> },
    User { content: Vec<UserContent>, metadata: Option<Metadata> },
    Assistant { content: Vec<AssistantContent>, metadata: Option<Metadata> },
    Tool { tool_results: Vec<ToolResult>, metadata: Option<Metadata> },
}

/// Model of [`Message`].
#[verifier::ext_equal]
pub enum MessageSpec {
    System { content: Seq<Seq<char>>, metadata: Option<Seq<(Seq<char>, JsonSpec)>> },
    User { content: Seq<UserContentSpec>, metadata: Option<Seq<(Seq<char>, JsonSpec)>> },
    Assistant { content: Seq<AssistantContentSpec>, metadata: Option<Seq<(Seq<char>, JsonSpec)>> },
    Tool { tool_results: Seq<ToolResultSpec>, metadata: Option<Seq<(Seq<char>, JsonSpec)>> },
}

impl DeepView for Message {
    type V = MessageSpec;

    open spec fn deep_view(&self) -> MessageSpec {
        match self {
            Message::System { content, metadata } => MessageSpec::System {
                content: content.deep_view(),
                metadata: meta_view(*metadata),
            },
            Message::User { content, metadata } => MessageSpec::User {
                content: content.deep_view(),
                metadata: meta_view(*metadata),
            },
            Message::Assistant { content, metadata } => MessageSpec::Assistant {
                content: content.deep_view(),
                metadata: meta_view(*metadata),
            },
            Message::Tool { tool_results, metadata } => MessageSpec::Tool {
                tool_results: tool_results.deep_view(),
                metadata: meta_view(*metadata),
            },
        }
    }
}

impl Message {
    /// A system message with one text part and no metadata.
    pub fn system(text: &str) -> (r: Message)
        ensures
            r.deep_view() == (MessageSpec::System { content: seq![text@], metadata: None }),
    {
        let mut content: Vec<SystemContent> = Vec::new();
        content.push(SystemContent::Text { text: text.to_owned() });
        let r = Message::System { content, metadata: None };
        proof {
            assert(r.deep_view() =~= (MessageSpec::System {
                content: seq![text@],
                metadata: None,
            }));
        }
        r
    }

    /// A user message with one text part and no metadata.
    pub fn user(text: &str) -> (r: Message)
        ensures
            r.deep_view() == (MessageSpec::User {
                content: seq![UserContentSpec::Text(text@)],
                metadata: None,
            }),
    {
        let mut content: Vec<UserContent> = Vec::new();
        content.push(UserContent::Text { text: text.to_owned() });
        let r = Message::User { content, metadata: None };
        proof {
            assert(r.deep_view() =~= (MessageSpec::User {
                content: seq![UserContentSpec::Text(text@)],
                metadata: None,
            }));
        }
        r
    }

    /// An assistant message with one text part and no metadata.
    pub fn assistant(text: &str) -> (r: Message)
        ensures
            r.deep_view() == (MessageSpec::Assistant {
                content: seq![AssistantContentSpec::Text(text@)],
                metadata: None,
            }),
    {
        let mut content: Vec<AssistantContent> = Vec::new();
        content.push(AssistantContent::Text { text: text.to_owned() });
        let r = Message::Assistant { content, metadata: None };
        proof {
            assert(r.deep_view() =~= (MessageSpec::Assistant {
                content: seq![AssistantContentSpec::Text(text@)],
                metadata: None,
            }));
        }
        r
    }

    /// A tool message with one result and no metadata.
    pub fn tool(tool_result: ToolResult) -> (r: Message)
        ensures
            r.deep_view() == (MessageSpec::Tool {
                tool_results: seq![tool_result.deep_view()],
                metadata: None,
            }),
    {
        let ghost trv = tool_result.deep_view();
        let mut tool_results: Vec<ToolResult> = Vec::new();
        tool_results.push(tool_result);
        let r = Message::Tool { tool_results, metadata: None };
        proof {
            assert(r.deep_view() =~= (MessageSpec::Tool {
                tool_results: seq![trv],
                metadata: None,
            }));
        }
        r
    }

    /// Appends a text part to a system or user message; assistant and tool
    /// messages are returned unchanged.
    pub fn add_text(self, text: &str) -> (r: Message)
        ensures
            match self.deep_view() {
                MessageSpec::System { content, metadata } => r.deep_view()
                    == (MessageSpec::System { content: content.push(text@), metadata }),
                MessageSpec::User { content, metadata } => r.deep_view() == (MessageSpec::User {
                    content: content.push(UserContentSpec::Text(text@)),
                    metadata,
                }),
                _ => r.deep_view() == self.deep_view(),
            },
    {
        let ghost pre = self.deep_view();
        match self {
            Message::System { mut content, metadata } => {
                let ghost oldc = content.deep_view();
                let ghost oldm = meta_view(metadata);
                content.push(SystemContent::Text { text: text.to_owned() });
                let r = Message::System { content, metadata };
                proof {
                    assert(pre == (MessageSpec::System { content: oldc, metadata: oldm }));
                    assert(r.deep_view() =~= (MessageSpec::System {
                        content: oldc.push(text@),
                        metadata: oldm,
                    }));
                }
                r
            },
            Message::User { mut content, metadata } => {
                let ghost oldc = content.deep_view();
                let ghost oldm = meta_view(metadata);
                content.push(UserContent::Text { text: text.to_owned() });
                let r = Message::User { content, metadata };
                proof {
                    assert(pre == (MessageSpec::User { content: oldc, metadata: oldm }));
                    assert(r.deep_view() =~= (MessageSpec::User {
                        content: oldc.push(UserContentSpec::Text(text@)),
                        metadata: oldm,
                    }));
                }
                r
            },
            other => other,
        }
    }

    /// Appends an image part to a user message; other roles are returned
    /// unchanged.
    pub fn add_image(self, image: ImageContent) -> (r: Message)
        ensures
            match self.deep_view() {
                MessageSpec::User { content, metadata } => r.deep_view() == (MessageSpec::User {
                    content: content.push(UserContentSpec::Image(image.deep_view())),
                    metadata,
                }),
                _ => r.deep_view() == self.deep_view(),
            },
    {
        let ghost pre = self.deep_view();
        let ghost iv = image.deep_view();
        match self {
            Message::User { mut content, metadata } => {
                let ghost oldc = content.deep_view();
                let ghost oldm = meta_view(metadata);
                content.push(UserContent::Image { image });
                let r = Message::User { content, metadata };
                proof {
                    assert(pre == (MessageSpec::User { content: oldc, metadata: oldm }));
                    assert(r.deep_view() =~= (MessageSpec::User {
                        content: oldc.push(UserContentSpec::Image(iv)),
                        metadata: oldm,
                    }));
                }
                r
            },
            other => other,
        }
    }

    /// Appends a tool call to an assistant message; other roles are returned
    /// unchanged.
    pub fn add_tool_call(self, tool_call: ToolCall) -> (r: Message)
        ensures
            match self.deep_view() {
                MessageSpec::Assistant { content, metadata } => r.deep_view()
                    == (MessageSpec::Assistant {
                    content: content.push(AssistantContentSpec::ToolCall(tool_call.deep_view())),
                    metadata,
                }),
                _ => r.deep_view() == self.deep_view(),
            },
    {
        let ghost pre = self.deep_view();
        let ghost cv = tool_call.deep_view();
        match self {
            Message::Assistant { mut content, metadata } => {
                let ghost oldc = content.deep_view();
                let ghost oldm = meta_view(metadata);
                content.push(AssistantContent::ToolCall { tool_call });
                let r = Message::Assistant { content, metadata };
                proof {
                    assert(pre == (MessageSpec::Assistant { content: oldc, metadata: oldm }));
                    assert(r.deep_view() =~= (MessageSpec::Assistant {
                        content: oldc.push(AssistantContentSpec::ToolCall(cv)),
                        metadata: oldm,
                    }));
                }
                r
            },
            other => other,
        }
    }

    /// The role of this message, as text.
    pub fn role(&self) -> (r: &'static str)
        ensures
            match self {
                Message::System { .. } => r@ == "system"@,
                Message::User { .. } => r@ == "user"@,
                Message::Assistant { .. } => r@ == "assistant"@,
                Message::Tool { .. } => r@ == "tool"@,
            },
    {
        match self {
            Message::System { .. } => "system",
            Message::User { .. } => "user",
            Message::Assistant { .. } => "assistant",
            Message::Tool { .. } => "tool",
        }
    }
}

/// The tool calls among a sequence of assistant content parts, in order.
pub open spec fn calls_of_content(content: Seq<AssistantContentSpec>) -> Seq<ToolCallSpec>
    decreases content.len(),
{
    if content.len() == 0 {
        Seq::empty()
    } else {
        let rest = calls_of_content(content.skip(1));
        match content[0] {
            AssistantContentSpec::ToolCall(tc) => seq![tc] + rest,
            _ => rest,
        }
    }
}

/// The tool calls issued by a message model, in content order; empty for
/// non-assistant messages.
pub open spec fn spec_tool_calls(m: MessageSpec) -> Seq<ToolCallSpec> {
    match m {
        MessageSpec::Assistant { content, .. } => calls_of_content(content),
        _ => Seq::empty(),
    }
}

/// Whether one of the given tool calls carries identifier `id`.
pub open spec fn calls_contain_id(calls: Seq<ToolCallSpec>, id: Seq<char>) -> bool
    decreases calls.len(),
{
    if calls.len() == 0 {
        false
    } else {
        calls[0].id == id || calls_contain_id(calls.skip(1), id)
    }
}

/// Whether a message model issues a tool call with identifier `id`.
pub open spec fn message_issues_call(m: MessageSpec, id: Seq<char>) -> bool {
    calls_contain_id(spec_tool_calls(m), id)
}

/// Whether an assistant message at index `a` in `msgs` issues a tool call
/// with identifier `id` before index `k`.
pub open spec fn has_prior_call(msgs: Seq<MessageSpec>, k: int, id: Seq<char>) -> bool {
    exists|a: int| 0 <= a < k && message_issues_call(#[trigger] msgs[a], id)
}

/// Message `k` of `msgs` keeps the correlation invariant: if it is a tool
/// message, each of its results answers a tool call of an earlier assistant
/// message.
pub open spec fn correlated_at(msgs: Seq<MessageSpec>, k: int) -> bool {
    msgs[k] matches MessageSpec::Tool { tool_results, .. } ==> forall|j: int|
        0 <= j < tool_results.len() ==> has_prior_call(
            msgs,
            k,
            #[trigger] tool_results[j].tool_call_id,
        )
}

/// Every tool result in the conversation correlates to a preceding assistant
/// tool call.
pub open spec fn conversation_correlated(msgs: Seq<MessageSpec>) -> bool {
    forall|k: int| 0 <= k < msgs.len() ==> #[trigger] correlated_at(msgs, k)
}

fn clone_metadata(m: &Option<Metadata>) -> (r: Option<Metadata>)
    ensures
        meta_view(r) == meta_view(*m),
{
    match m {
        Option::None => Option::None,
        Option::Some(entries) => {
            let mut out: Metadata = Vec::new();
            let n = entries.len();
            let mut i: usize = 0;
            while i < n
                invariant
                    0 <= i <= n,
                    n == entries@.len(),
                    out@.len() == i,
                    forall|j: int|
                        0 <= j < i ==> out@[j].0@ == entries@[j].0@ && json_view(out@[j].1)
                            == json_view(entries@[j].1),
                decreases n - i,
            {
                let k = entries[i].0.clone();
                let v = entries[i].1.deep_clone();
                out.push((k, v));
                i = i + 1;
            }
            proof {
                crate::json::lemma_json_obj_view(out@);
                crate::json::lemma_json_obj_view(entries@);
                assert(json_obj_view(out@) =~= json_obj_view(entries@));
            }
            Option::Some(out)
        },
    }
}

impl ImageContent {
    /// A structural copy, equal to `self` under the model.
    pub fn deep_clone(&self) -> (r: ImageContent)
        ensures
            r.deep_view() == self.deep_view(),
    {
        ImageContent {
            url: match &self.url {
                Option::Some(s) => Option::Some(s.clone()),
                Option::None => Option::None,
            },
            base64: match &self.base64 {
                Option::Some(s) => Option::Some(s.clone()),
                Option::None => Option::None,
            },
            mime_type: match &self.mime_type {
                Option::Some(s) => Option::Some(s.clone()),
                Option::None => Option::None,
            },
        }
    }
}

impl ToolResult {
    /// A structural copy, equal to `self` under the model.
    pub fn deep_clone(&self) -> (r: ToolResult)
        ensures
            r.deep_view() == self.deep_view(),
    {
        ToolResult {
            tool_call_id: self.tool_call_id.clone(),
            result: self.result.deep_clone(),
            is_error: self.is_error,
        }
    }
}

impl Message {
    /// A structural copy, equal to `self` under the model.
    pub fn deep_clone(&self) -> (r: Message)
        ensures
            r.deep_view() == self.deep_view(),
    {
        match self {
            Message::System { content, metadata } => {
                let mut out: Vec<SystemContent> = Vec::new();
                let n = content.len();
                let mut i: usize = 0;
                while i < n
                    invariant
                        0 <= i <= n,
                        n == content@.len(),
                        out@.len() == i,
                        forall|j: int|
                            0 <= j < i ==> #[trigger] out@[j].deep_view()
                                == content@[j].deep_view(),
                    decreases n - i,
                {
                    match &content[i] {
                        SystemContent::Text { text } => out.push(
                            SystemContent::Text { text: text.clone() },
                        ),
                    }
                    i = i + 1;
                }
                let r = Message::System { content: out, metadata: clone_metadata(metadata) };
                proof {
                    assert(r.deep_view() =~= self.deep_view());
                }
                r
            },
            Message::User { content, metadata } => {
                let mut out: Vec<UserContent> = Vec::new();
                let n = content.len();
                let mut i: usize = 0;
                while i < n
                    invariant
                        0 <= i <= n,
                        n == content@.len(),
                        out@.len() == i,
                        forall|j: int|
                            0 <= j < i ==> #[trigger] out@[j].deep_view()
                                == content@[j].deep_view(),
                    decreases n - i,
                {
                    match &content[i] {
                        UserContent::Text { text } => out.push(
                            UserContent::Text { text: text.clone() },
                        ),
                        UserContent::Image { image } => out.push(
                            UserContent::Image { image: image.deep_clone() },
                        ),
                    }
                    i = i + 1;
                }
                let r = Message::User { content: out, metadata: clone_metadata(metadata) };
                proof {
                    assert(r.deep_view() =~= self.deep_view());
                }
                r
            },
            Message::Assistant { content, metadata } => {
                let mut out: Vec<AssistantContent> = Vec::new();
                let n = content.len();
                let mut i: usize = 0;
                while i < n
                    invariant
                        0 <= i <= n,
                        n == content@.len(),
                        out@.len() == i,
                        forall|j: int|
                            0 <= j < i ==> #[trigger] out@[j].deep_view()
                                == content@[j].deep_view(),
                    decreases n - i,
                {
                    match &content[i] {
                        AssistantContent::Text { text } => out.push(
                            AssistantContent::Text { text: text.clone() },
                        ),
                        AssistantContent::ToolCall { tool_call } => out.push(
                            AssistantContent::ToolCall { tool_call: tool_call.deep_clone() },
                        ),
                    }
                    i = i + 1;
                }
                let r = Message::Assistant { content: out, metadata: clone_metadata(metadata) };
                proof {
                    assert(r.deep_view() =~= self.deep_view());
                }
                r
            },
            Message::Tool { tool_results, metadata } => {
                let mut out: Vec<ToolResult> = Vec::new();
                let n = tool_results.len();
                let mut i: usize = 0;
                while i < n
                    invariant
                        0 <= i <= n,
                        n == tool_results@.len(),
                        out@.len() == i,
                        forall|j: int|
                            0 <= j < i ==> #[trigger] out@[j].deep_view()
                                == tool_results@[j].deep_view(),
                    decreases n - i,
                {
                    out.push(tool_results[i].deep_clone());
                    i = i + 1;
                }
                let r = Message::Tool { tool_results: out, metadata: clone_metadata(metadata) };
                proof {
                    assert(r.deep_view() =~= self.deep_view());
                }
                r
            },
        }
    }

    /// The tool calls this message issues, in content order; empty for
    /// non-assistant messages.
    pub fn tool_calls(&self) -> (r: Vec<ToolCall>)
        ensures
            r.deep_view() == spec_tool_calls(self.deep_view()),
    {
        let mut out: Vec<ToolCall> = Vec::new();
        match self {
            Message::Assistant { content, .. } => {
                let ghost cview = content.deep_view();
                let n = content.len();
                let mut i: usize = 0;
                proof {
                    assert(cview.skip(0) =~= cview);
                    assert(out.deep_view() =~= Seq::<ToolCallSpec>::empty());
                }
                while i < n
                    invariant
                        0 <= i <= n,
                        n == content@.len(),
                        cview == content.deep_view(),
                        cview.len() == n,
                        calls_of_content(cview) == out.deep_view() + calls_of_content(
                            cview.skip(i as int),
                        ),
                    decreases n - i,
                {
                    let ghost pre = out.deep_view();
                    proof {
                        assert(cview.skip(i as int)[0] == cview[i as int]);
                        assert(cview.skip(i as int).skip(1) =~= cview.skip(i as int + 1));
                    }
                    match &content[i] {
                        AssistantContent::ToolCall { tool_call } => {
                            out.push(tool_call.deep_clone());
                            proof {
                                let tcv = cview[i as int]->ToolCall_0;
                                assert(out.deep_view() =~= pre.push(tcv));
                                assert(pre.push(tcv) + calls_of_content(cview.skip(i as int + 1))
                                    =~= pre + (seq![tcv] + calls_of_content(
                                    cview.skip(i as int + 1),
                                )));
                            }
                        },
                        _ => {},
                    }
                    i = i + 1;
                }
                proof {
                    assert(cview.skip(n as int) =~= Seq::<AssistantContentSpec>::empty());
                    assert(out.deep_view() + calls_of_content(cview.skip(n as int)) =~= out.deep_view());
                }
            },
            _ => {
                proof {
                    assert(out.deep_view() =~= Seq::<ToolCallSpec>::empty());
                }
            },
        }
        out
    }
}

fn message_has_call_id(m: &Message, id: &String) -> (r: bool)
    ensures
        r == message_issues_call(m.deep_view(), id@),
{
    match m {
        Message::Assistant { content, .. } => {
            let ghost cview = content.deep_view();
            let n = content.len();
            let mut i: usize = 0;
            proof {
                assert(cview.skip(0) =~= cview);
            }
            while i < n
                invariant
                    0 <= i <= n,
                    n == content@.len(),
                    cview == content.deep_view(),
                    cview.len() == n,
                    message_issues_call(m.deep_view(), id@) == calls_contain_id(
                        calls_of_content(cview.skip(i as int)),
                        id@,
                    ),
                decreases n - i,
            {
                proof {
                    assert(cview.skip(i as int)[0] == cview[i as int]);
                    assert(cview.skip(i as int).skip(1) =~= cview.skip(i as int + 1));
                }
                match &content[i] {
                    AssistantContent::ToolCall { tool_call } => {
                        let ghost tcv = cview[i as int]->ToolCall_0;
                        let ghost calls = seq![tcv] + calls_of_content(cview.skip(i as int + 1));
                        proof {
                            assert(calls[0] == tcv);
                            assert(calls.skip(1) =~= calls_of_content(cview.skip(i as int + 1)));
                        }
                        if tool_call.id == *id {
                            return true;
                        }
                    },
                    _ => {},
                }
                i = i + 1;
            }
            proof {
                assert(cview.skip(n as int) =~= Seq::<AssistantContentSpec>::empty());
            }
            false
        },
        _ => false,
    }
}

fn find_prior_call(msgs: &Vec<Message>, k: usize, id: &String) -> (r: bool)
    requires
        k <= msgs@.len(),
    ensures
        r == has_prior_call(msgs.deep_view(), k as int, id@),
{
    let mut a: usize = 0;
    while a < k
        invariant
            0 <= a <= k,
            k <= msgs@.len(),
            forall|t: int|
                0 <= t < a ==> !message_issues_call(#[trigger] msgs.deep_view()[t], id@),
        decreases k - a,
    {
        if message_has_call_id(&msgs[a], id) {
            proof {
                assert(message_issues_call(msgs.deep_view()[a as int], id@));
            }
            return true;
        }
        a = a + 1;
    }
    false
}

/// Decides the correlation invariant on a conversation.
pub fn check_correlated(msgs: &Vec<Message>) -> (r: bool)
    ensures
        r == conversation_correlated(msgs.deep_view()),
{
    let ghost view = msgs.deep_view();
    let n = msgs.len();
    let mut k: usize = 0;
    while k < n
        invariant
            0 <= k <= n,
            n == msgs@.len(),
            view == msgs.deep_view(),
            view.len() == n,
            forall|t: int| 0 <= t < k ==> #[trigger] correlated_at(view, t),
        decreases n - k,
    {
        match &msgs[k] {
            Message::Tool { tool_results, .. } => {
                let m = tool_results.len();
                let ghost trs = tool_results.deep_view();
                let mut j: usize = 0;
                while j < m
                    invariant
                        0 <= j <= m,
                        m == tool_results@.len(),
                        k < n,
                        n == msgs@.len(),
                        view == msgs.deep_view(),
                        view.len() == n,
                        trs == tool_results.deep_view(),
                        trs.len() == m,
                        msgs@[k as int] matches Message::Tool { tool_results: tr2, .. } && tr2@
                            == tool_results@,
                        forall|t: int|
                            0 <= t < j ==> has_prior_call(
                                view,
                                k as int,
                                #[trigger] trs[t].tool_call_id,
                            ),
                    decreases m - j,
                {
                    if !find_prior_call(msgs, k, &tool_results[j].tool_call_id) {
                        proof {
                            assert(view[k as int] matches MessageSpec::Tool {
                                tool_results: t2,
                                ..
                            } && t2 == trs);
                            assert(trs[j as int] == tool_results@[j as int].deep_view());
                            assert(!has_prior_call(view, k as int, trs[j as int].tool_call_id));
                            assert(!correlated_at(view, k as int));
                        }
                        return false;
                    }
                    j = j + 1;
                }
                proof {
                    assert(view[k as int] matches MessageSpec::Tool { tool_results: t2, .. } && t2
                        == trs);
                    assert(correlated_at(view, k as int));
                }
            },
            _ => {
                proof {
                    assert(correlated_at(view, k as int));
                }
            },
        }
        k = k + 1;
    }
    true
}

/// Appending a tool message with a result that answers no prior tool call
/// violates the correlation invariant.
pub proof fn lemma_uncorrelated_append(
    msgs: Seq<MessageSpec>,
    tool_results: Seq<ToolResultSpec>,
    metadata: Option<Seq<(Seq<char>, JsonSpec)>>,
    j: int,
)
    requires
        0 <= j < tool_results.len(),
        !has_prior_call(
            msgs.push(MessageSpec::Tool { tool_results, metadata }),
            msgs.len() as int,
            tool_results[j].tool_call_id,
        ),
    ensures
        !conversation_correlated(msgs.push(MessageSpec::Tool { tool_results, metadata })),
{
    let appended = msgs.push(MessageSpec::Tool { tool_results, metadata });
    let k = msgs.len() as int;
    assert(appended[k] matches MessageSpec::Tool { tool_results: tr, .. } && tr == tool_results);
    assert(!correlated_at(appended, k));
}

} // verus!
