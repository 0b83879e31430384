//! Request, response and streaming-chunk types shared by providers and the
//! agent loop.

use vstd::prelude::*;

use crate::json::{json_view, JsonSpec, JsonValue};
use crate::messages::{
    AssistantContent, AssistantContentSpec, Message, MessageSpec, Metadata, SystemContent,
    ToolResult, ToolResultSpec, UserContent, UserContentSpec, meta_view,
};

verus! {

/// Provider-reported cause for ending a single step's generation. A closed
/// set: backends map their own codes onto it.
#[derive(Debug, Clone, Copy, PartialEq, Eq, Structural)]
pub enum FinishReason {
    Stop,
    Length,
    ToolCalls,
    ContentFilter,
    Error,
}

/// Token usage reported by a provider.
#[derive(Debug, Clone, Copy, PartialEq, Eq, Structural)]
pub struct Usage {
    pub prompt_tokens: u32,
    pub completion_tokens: u32,
    pub total_tokens: u32,
}

/// Generation parameters, all optional. Sampling knobs that are fractional
/// at the wire level (temperature, nucleus probability, penalties) are held
/// in thousandths: a `temperature` of `700` means 0.7.
#[derive(Debug)]
pub struct GenerationSettings {
    /// Sampling temperature, in thousandths.
    pub temperature: Option<u32>,
    pub max_tokens: Option<u32>,
    /// Nucleus sampling probability, in thousandths.
    pub top_p: Option<u32>,
    pub top_k: Option<u32>,
    /// Frequency penalty, in thousandths.
    pub frequency_penalty: Option<i32>,
    /// Presence penalty, in thousandths.
    pub presence_penalty: Option<i32>,
    pub stop_sequences: Option<Vec<String>>,
    pub seed: Option<u64>,
}

/// Model of [`GenerationSettings`].
#[verifier::ext_equal]
pub struct GenerationSettingsSpec {
    pub temperature: Option<u32>,
    pub max_tokens: Option<u32>,
    pub top_p: Option<u32>,
    pub top_k: Option<u32>,
    pub frequency_penalty: Option<i32>,
    pub presence_penalty: Option<i32>,
    pub stop_sequences: Option<Seq<Seq<char>>>,
    pub seed: Option<u64>,
}

impl DeepView for GenerationSettings {
    type V = GenerationSettingsSpec;

    open spec fn deep_view(&self) -> GenerationSettingsSpec {
        GenerationSettingsSpec {
            temperature: self.temperature,
            max_tokens: self.max_tokens,
            top_p: self.top_p,
            top_k: self.top_k,
            frequency_penalty: self.frequency_penalty,
            presence_penalty: self.presence_penalty,
            stop_sequences: self.stop_sequences.deep_view(),
            seed: self.seed,
        }
    }
}

/// All parameters absent.
pub open spec fn default_settings() -> GenerationSettingsSpec {
    GenerationSettingsSpec {
        temperature: None,
        max_tokens: None,
        top_p: None,
        top_k: None,
        frequency_penalty: None,
        presence_penalty: None,
        stop_sequences: None,
        seed: None,
    }
}

impl Default for GenerationSettings {
    /// Settings with every parameter absent.
    fn default() -> (r: GenerationSettings)
        ensures
            r.deep_view() == default_settings(),
    {
        GenerationSettings {
            temperature: None,
            max_tokens: None,
            top_p: None,
            top_k: None,
            frequency_penalty: None,
            presence_penalty: None,
            stop_sequences: None,
            seed: None,
        }
    }
}

/// What a tool looks like to the provider: name, description (empty string
/// if none) and a JSON-Schema-shaped parameters value (empty object if
/// none).
#[derive(Debug)]
pub struct ToolDefinition {
    pub name: String,
    pub description: String,
    pub parameters: JsonValue,
}

/// Model of [`ToolDefinition`].
#[verifier::ext_equal]
pub struct ToolDefinitionSpec {
    pub name: Seq<char>,
    pub description: Seq<char>,
    pub parameters: JsonSpec,
}

impl DeepView for ToolDefinition {
    type V = ToolDefinitionSpec;

    open spec fn deep_view(&self) -> ToolDefinitionSpec {
        ToolDefinitionSpec {
            name: self.name@,
            description: self.description@,
            parameters: json_view(self.parameters),
        }
    }
}

/// A chat generation request: the conversation so far, generation settings
/// and the tools offered to the model.
#[derive(Debug)]
pub struct ChatRequest {
    pub messages: Vec<Message>,
    pub settings: GenerationSettings,
    pub tools: Option<Vec<ToolDefinition>>,
}

/// Model of [`ChatRequest`].
#[verifier::ext_equal]
pub struct ChatRequestSpec {
    pub messages: Seq<MessageSpec>,
    pub settings: GenerationSettingsSpec,
    pub tools: Option<Seq<ToolDefinitionSpec>>,
}

impl DeepView for ChatRequest {
    type V = ChatRequestSpec;

    open spec fn deep_view(&self) -> ChatRequestSpec {
        ChatRequestSpec {
            messages: self.messages.deep_view(),
            settings: self.settings.deep_view(),
            tools: match self.tools {
                Some(ref t) => Some(t.deep_view()),
                None => None,
            },
        }
    }
}

impl ChatRequest {
    /// An empty request with default settings and no tools.
    pub fn new() -> (r: ChatRequest)
        ensures
            r.deep_view() == (ChatRequestSpec {
                messages: Seq::<MessageSpec>::empty(),
                settings: default_settings(),
                tools: None,
            }),
    {
        let r = ChatRequest {
            messages: Vec::new(),
            settings: GenerationSettings::default(),
            tools: None,
        };
        proof {
            assert(r.deep_view() =~= (ChatRequestSpec {
                messages: Seq::<MessageSpec>::empty(),
                settings: default_settings(),
                tools: None,
            }));
        }
        r
    }

    /// Appends one message.
    pub fn message(self, message: Message) -> (r: ChatRequest)
        ensures
            r.deep_view() == (ChatRequestSpec {
                messages: self.deep_view().messages.push(message.deep_view()),
                ..self.deep_view()
            }),
    {
        let ghost pre = self.deep_view();
        let ghost mv = message.deep_view();
        let mut s = self;
        s.messages.push(message);
        proof {
            assert(s.deep_view() =~= (ChatRequestSpec { messages: pre.messages.push(mv), ..pre }));
        }
        s
    }

    /// Appends several messages, in order.
    pub fn messages(self, messages: Vec<Message>) -> (r: ChatRequest)
        ensures
            r.deep_view() == (ChatRequestSpec {
                messages: self.deep_view().messages + messages.deep_view(),
                ..self.deep_view()
            }),
    {
        let ghost pre = self.deep_view();
        let ghost added = messages.deep_view();
        let mut s = self;
        let mut rest = messages;
        let n = rest.len();
        let mut i: usize = 0;
        proof {
            assert(pre.messages + added.take(0) =~= pre.messages);
        }
        while i < n
            invariant
                0 <= i <= n,
                n == added.len(),
                rest@.len() == n - i,
                forall|j: int| 0 <= j < n - i ==> #[trigger] rest@[j].deep_view() == added[i + j],
                s.deep_view() == (ChatRequestSpec {
                    messages: pre.messages + added.take(i as int),
                    ..pre
                }),
            decreases n - i,
        {
            let ghost mid = s.deep_view();
            let m = rest.remove(0);
            s.messages.push(m);
            proof {
                assert(s.deep_view() =~= (ChatRequestSpec {
                    messages: mid.messages.push(added[i as int]),
                    ..mid
                }));
                assert(pre.messages + added.take(i as int + 1) =~= (pre.messages + added.take(
                    i as int,
                )).push(added[i as int]));
            }
            i = i + 1;
        }
        proof {
            assert(added.take(n as int) =~= added);
        }
        s
    }

    /// Appends a system message with the given text.
    pub fn system(self, text: &str) -> (r: ChatRequest)
        ensures
            r.deep_view() == (ChatRequestSpec {
                messages: self.deep_view().messages.push(
                    MessageSpec::System { content: seq![text@], metadata: None },
                ),
                ..self.deep_view()
            }),
    {
        self.message(Message::system(text))
    }

    /// Appends a user message with the given text.
    pub fn user(self, text: &str) -> (r: ChatRequest)
        ensures
            r.deep_view() == (ChatRequestSpec {
                messages: self.deep_view().messages.push(
                    MessageSpec::User {
                        content: seq![UserContentSpec::Text(text@)],
                        metadata: None,
                    },
                ),
                ..self.deep_view()
            }),
    {
        self.message(Message::user(text))
    }

    /// Appends an assistant message with the given text.
    pub fn assistant(self, text: &str) -> (r: ChatRequest)
        ensures
            r.deep_view() == (ChatRequestSpec {
                messages: self.deep_view().messages.push(
                    MessageSpec::Assistant {
                        content: seq![AssistantContentSpec::Text(text@)],
                        metadata: None,
                    },
                ),
                ..self.deep_view()
            }),
    {
        self.message(Message::assistant(text))
    }

    /// Sets the sampling temperature, in thousandths.
    pub fn temperature(self, temp: u32) -> (r: ChatRequest)
        ensures
            r.deep_view() == (ChatRequestSpec {
                settings: GenerationSettingsSpec {
                    temperature: Some(temp),
                    ..self.deep_view().settings
                },
                ..self.deep_view()
            }),
    {
        let ghost pre = self.deep_view();
        let mut s = self;
        s.settings.temperature = Some(temp);
        proof {
            assert(s.deep_view() =~= (ChatRequestSpec {
                settings: GenerationSettingsSpec { temperature: Some(temp), ..pre.settings },
                ..pre
            }));
        }
        s
    }

    /// Sets the token ceiling.
    pub fn max_tokens(self, tokens: u32) -> (r: ChatRequest)
        ensures
            r.deep_view() == (ChatRequestSpec {
                settings: GenerationSettingsSpec {
                    max_tokens: Some(tokens),
                    ..self.deep_view().settings
                },
                ..self.deep_view()
            }),
    {
        let ghost pre = self.deep_view();
        let mut s = self;
        s.settings.max_tokens = Some(tokens);
        proof {
            assert(s.deep_view() =~= (ChatRequestSpec {
                settings: GenerationSettingsSpec { max_tokens: Some(tokens), ..pre.settings },
                ..pre
            }));
        }
        s
    }

    /// Sets the tools offered to the model.
    pub fn tools(self, tools: Vec<ToolDefinition>) -> (r: ChatRequest)
        ensures
            r.deep_view() == (ChatRequestSpec {
                tools: Some(tools.deep_view()),
                ..self.deep_view()
            }),
    {
        let ghost pre = self.deep_view();
        let ghost tv = tools.deep_view();
        let mut s = self;
        s.tools = Some(tools);
        proof {
            assert(s.deep_view() =~= (ChatRequestSpec { tools: Some(tv), ..pre }));
        }
        s
    }
}

impl Default for ChatRequest {
    /// An empty request with default settings and no tools.
    fn default() -> (r: ChatRequest)
        ensures
            r.deep_view() == (ChatRequestSpec {
                messages: Seq::<MessageSpec>::empty(),
                settings: default_settings(),
                tools: None,
            }),
    {
        ChatRequest::new()
    }
}

/// One full response from a chat generation call.
#[derive(Debug)]
pub struct ChatResponse {
    pub id: String,
    pub message: Message,
    pub finish_reason: FinishReason,
    pub usage: Option<Usage>,
    pub metadata: Option<Metadata>,
}

/// Model of [`ChatResponse`].
#[verifier::ext_equal]
pub struct ChatResponseSpec {
    pub id: Seq<char>,
    pub message: MessageSpec,
    pub finish_reason: FinishReason,
    pub usage: Option<Usage>,
    pub metadata: Option<Seq<(Seq<char>, JsonSpec)>>,
}

impl DeepView for ChatResponse {
    type V = ChatResponseSpec;

    open spec fn deep_view(&self) -> ChatResponseSpec {
        ChatResponseSpec {
            id: self.id@,
            message: self.message.deep_view(),
            finish_reason: self.finish_reason,
            usage: self.usage,
            metadata: meta_view(self.metadata),
        }
    }
}

/// Delta content for one streaming chunk: a partial message fragment for
/// exactly one role.
#[derive(Debug)]
pub enum MessageDelta {
    System { content: Option<SystemContent> },
    User { content: Option<UserContent> },
    Assistant { content: Option<AssistantContent> },
    Tool { tool_result: Option<ToolResult> },
}

/// Model of [`MessageDelta`].
#[verifier::ext_equal]
pub enum MessageDeltaSpec {
    System { content: Option<Seq<char>> },
    User { content: Option<UserContentSpec> },
    Assistant { content: Option<AssistantContentSpec> },
    Tool { tool_result: Option<ToolResultSpec> },
}

impl DeepView for MessageDelta {
    type V = MessageDeltaSpec;

    open spec fn deep_view(&self) -> MessageDeltaSpec {
        match self {
            MessageDelta::System { content } => MessageDeltaSpec::System {
                content: content.deep_view(),
            },
            MessageDelta::User { content } => MessageDeltaSpec::User {
                content: content.deep_view(),
            },
            MessageDelta::Assistant { content } => MessageDeltaSpec::Assistant {
                content: content.deep_view(),
            },
            MessageDelta::Tool { tool_result } => MessageDeltaSpec::Tool {
                tool_result: tool_result.deep_view(),
            },
        }
    }
}

/// One streaming chunk: an incremental delta, plus the finish reason on the
/// terminal chunk of a step and usage when the backend reports it.
#[derive(Debug)]
pub struct ChatStreamChunk {
    pub id: String,
    pub delta: MessageDelta,
    pub finish_reason: Option<FinishReason>,
    pub usage: Option<Usage>,
}

/// Model of [`ChatStreamChunk`].
#[verifier::ext_equal]
pub struct ChatStreamChunkSpec {
    pub id: Seq<char>,
    pub delta: MessageDeltaSpec,
    pub finish_reason: Option<FinishReason>,
    pub usage: Option<Usage>,
}

impl DeepView for ChatStreamChunk {
    type V = ChatStreamChunkSpec;

    open spec fn deep_view(&self) -> ChatStreamChunkSpec {
        ChatStreamChunkSpec {
            id: self.id@,
            delta: self.delta.deep_view(),
            finish_reason: self.finish_reason,
            usage: self.usage,
        }
    }
}

/// Request for embedding generation.
#[derive(Debug)]
pub struct EmbeddingRequest {
    pub inputs: Vec<String>,
    pub model: Option<String>,
    pub encoding_format: Option<String>,
    pub dimensions: Option<u32>,
}

/// Request for image generation.
#[derive(Debug)]
pub struct ImageRequest {
    pub prompt: String,
    pub size: Option<String>,
    pub quality: Option<String>,
    pub n: Option<u32>,
    pub response_format: Option<String>,
}

/// A generated image.
#[derive(Debug)]
pub struct GeneratedImage {
    pub url: Option<String>,
    pub base64: Option<String>,
    pub revised_prompt: Option<String>,
}

} // verus!
