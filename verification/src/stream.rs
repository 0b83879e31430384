//! The incremental (streaming) driver, as a step-by-step session.
//!
//! Streaming I/O itself happens outside the library: the surrounding program
//! opens one streaming call per step and feeds every arriving canonical
//! chunk into a [`StreamSession`], which wraps it for the consumer,
//! accumulates the assistant message for history, and — once the step's
//! terminal chunk has arrived — executes tool calls and decides whether to
//! open another step or end the stream.
//!
//! A `NoHandler` outcome during streaming ends the produced sequence
//! without emitting further chunks: a silent stop, not an error item.

use vstd::prelude::*;

use crate::agent::{batch_has_unhandled, result_for_call, run_tool_batch, ChatTextGeneration};
use crate::messages::{spec_tool_calls, AssistantContent, AssistantContentSpec, Message,
    MessageSpec, ToolResultSpec};
use crate::strategy::RunUntil;
use crate::tools::{BuiltToolRouter, ToolHandler};
use crate::types::{ChatRequest, ChatRequestSpec, ChatStreamChunk, ChatStreamChunkSpec,
    FinishReason, GenerationSettings, MessageDeltaSpec, ToolDefinition};

verus! {

/// The concatenated text of the text parts of assistant content, in order.
pub open spec fn content_text(parts: Seq<AssistantContentSpec>) -> Seq<char>
    decreases parts.len(),
{
    if parts.len() == 0 {
        Seq::empty()
    } else {
        (match parts[0] {
            AssistantContentSpec::Text(t) => t,
            _ => Seq::empty(),
        }) + content_text(parts.skip(1))
    }
}

/// The text a chunk's delta contributes: the text of an assistant text
/// delta, nothing otherwise.
pub open spec fn delta_text(d: MessageDeltaSpec) -> Seq<char> {
    match d {
        MessageDeltaSpec::Assistant { content: Some(AssistantContentSpec::Text(t)) } => t,
        _ => Seq::empty(),
    }
}

/// The assistant content part a chunk's delta contributes, if any.
pub open spec fn delta_part(d: MessageDeltaSpec) -> Option<AssistantContentSpec> {
    match d {
        MessageDeltaSpec::Assistant { content } => content,
        _ => None,
    }
}

/// The concatenated text of all deltas of a chunk sequence, in order.
pub open spec fn concat_delta_texts(chunks: Seq<ChatStreamChunkSpec>) -> Seq<char>
    decreases chunks.len(),
{
    if chunks.len() == 0 {
        Seq::empty()
    } else {
        delta_text(chunks[0].delta) + concat_delta_texts(chunks.skip(1))
    }
}

/// Appending one part extends the concatenated text by that part's text.
pub proof fn lemma_content_text_push(parts: Seq<AssistantContentSpec>, p: AssistantContentSpec)
    ensures
        content_text(parts.push(p)) == content_text(parts) + (match p {
            AssistantContentSpec::Text(t) => t,
            _ => Seq::<char>::empty(),
        }),
    decreases parts.len(),
{
    let pushed = parts.push(p);
    let ptext = (match p {
        AssistantContentSpec::Text(t) => t,
        _ => Seq::<char>::empty(),
    });
    assert(pushed.len() == parts.len() + 1);
    assert(content_text(pushed) == (match pushed[0] {
        AssistantContentSpec::Text(t) => t,
        _ => Seq::<char>::empty(),
    }) + content_text(pushed.skip(1)));
    if parts.len() == 0 {
        assert(pushed[0] == p);
        assert(pushed.skip(1) =~= Seq::<AssistantContentSpec>::empty());
        assert(content_text(pushed.skip(1)) == Seq::<char>::empty());
        assert(content_text(parts) == Seq::<char>::empty());
        assert(ptext + Seq::<char>::empty() =~= ptext);
        assert(Seq::<char>::empty() + ptext =~= ptext);
    } else {
        lemma_content_text_push(parts.skip(1), p);
        assert(pushed[0] == parts[0]);
        assert(pushed.skip(1) =~= parts.skip(1).push(p));
        assert(content_text(pushed.skip(1)) == content_text(parts.skip(1).push(p)));
        let head = (match parts[0] {
            AssistantContentSpec::Text(t) => t,
            _ => Seq::<char>::empty(),
        });
        assert(content_text(parts) == head + content_text(parts.skip(1)));
        assert(head + (content_text(parts.skip(1)) + ptext) =~= (head + content_text(
            parts.skip(1),
        )) + ptext);
    }
}

/// Appending one chunk extends the concatenated delta text by that chunk's.
pub proof fn lemma_delta_texts_push(chunks: Seq<ChatStreamChunkSpec>, c: ChatStreamChunkSpec)
    ensures
        concat_delta_texts(chunks.push(c)) == concat_delta_texts(chunks) + delta_text(c.delta),
    decreases chunks.len(),
{
    let pushed = chunks.push(c);
    assert(pushed.len() == chunks.len() + 1);
    assert(concat_delta_texts(pushed) == delta_text(pushed[0].delta) + concat_delta_texts(
        pushed.skip(1),
    ));
    if chunks.len() == 0 {
        assert(pushed[0] == c);
        assert(pushed.skip(1) =~= Seq::<ChatStreamChunkSpec>::empty());
        assert(concat_delta_texts(pushed.skip(1)) == Seq::<char>::empty());
        assert(concat_delta_texts(chunks) == Seq::<char>::empty());
        assert(delta_text(c.delta) + Seq::<char>::empty() =~= delta_text(c.delta));
        assert(Seq::<char>::empty() + delta_text(c.delta) =~= delta_text(c.delta));
    } else {
        lemma_delta_texts_push(chunks.skip(1), c);
        assert(pushed[0] == chunks[0]);
        assert(pushed.skip(1) =~= chunks.skip(1).push(c));
        assert(concat_delta_texts(pushed.skip(1)) == concat_delta_texts(chunks.skip(1).push(c)));
        assert(concat_delta_texts(chunks) == delta_text(chunks[0].delta) + concat_delta_texts(
            chunks.skip(1),
        ));
        assert(delta_text(chunks[0].delta) + (concat_delta_texts(chunks.skip(1)) + delta_text(
            c.delta,
        )) =~= (delta_text(chunks[0].delta) + concat_delta_texts(chunks.skip(1))) + delta_text(
            c.delta,
        ));
    }
}

/// Streaming/non-streaming equivalence: when the text deltas of a step's
/// chunk sequence concatenate to the same text as a single-shot assistant
/// message's content — an equivalent deterministic provider — the message
/// the streaming driver reconstructs from those chunks carries exactly the
/// single-shot message's text.
pub proof fn lemma_stream_equals_generate(
    reconstructed: Seq<AssistantContentSpec>,
    chunks: Seq<ChatStreamChunkSpec>,
    single: Seq<AssistantContentSpec>,
)
    requires
        content_text(reconstructed) == concat_delta_texts(chunks),
        content_text(single) == concat_delta_texts(chunks),
    ensures
        content_text(reconstructed) == content_text(single),
{
}

/// Configuration for a streaming run: the provider, the initial
/// conversation, generation settings, the tool definitions offered to the
/// model, the bound tool router, and the termination strategy.
pub struct StreamConfig<P, R, S, H> where
    P: ChatTextGeneration,
    R: RunUntil,
    H: ToolHandler<S>,
 {
    pub provider: P,
    pub messages: Vec<Message>,
    pub settings: GenerationSettings,
    pub tools: Option<Vec<ToolDefinition>>,
    pub tool_router: Option<BuiltToolRouter<S, H>>,
    pub run_until: R,
}

impl<P: ChatTextGeneration> StreamConfig<P, crate::strategy::MaxSteps, (), crate::agent::NoTool> {
    /// A configuration with no messages, default settings, no tools and a
    /// single-step bound.
    pub fn new(provider: P) -> (r: StreamConfig<
        P,
        crate::strategy::MaxSteps,
        (),
        crate::agent::NoTool,
    >)
        ensures
            r.provider == provider,
            r.messages@.len() == 0,
            r.settings.deep_view() == crate::types::default_settings(),
            r.tools is None,
            r.tool_router is None,
            r.run_until == (crate::strategy::MaxSteps { max: 1 }),
    {
        StreamConfig {
            provider,
            messages: Vec::new(),
            settings: GenerationSettings::default(),
            tools: None,
            tool_router: None,
            run_until: crate::strategy::MaxSteps::new(1),
        }
    }
}

impl<P, R, S, H> StreamConfig<P, R, S, H> where
    P: ChatTextGeneration,
    R: RunUntil,
    H: ToolHandler<S>,
 {
    /// Replaces the generation settings.
    pub fn settings(self, settings: GenerationSettings) -> (r: StreamConfig<P, R, S, H>)
        ensures
            r == (StreamConfig { settings, ..self }),
    {
        StreamConfig { settings, ..self }
    }

    /// Replaces the initial conversation.
    pub fn messages(self, messages: Vec<Message>) -> (r: StreamConfig<P, R, S, H>)
        ensures
            r == (StreamConfig { messages, ..self }),
    {
        StreamConfig { messages, ..self }
    }

    /// Replaces the termination strategy.
    pub fn run_until<R2: RunUntil>(self, run_until: R2) -> (r: StreamConfig<P, R2, S, H>)
        ensures
            r.provider == self.provider,
            r.messages == self.messages,
            r.settings == self.settings,
            r.tools == self.tools,
            r.tool_router == self.tool_router,
            r.run_until == run_until,
    {
        StreamConfig {
            provider: self.provider,
            messages: self.messages,
            settings: self.settings,
            tools: self.tools,
            tool_router: self.tool_router,
            run_until,
        }
    }

    /// Sets the sampling temperature, in thousandths.
    pub fn temperature(self, temp: u32) -> (r: StreamConfig<P, R, S, H>)
        ensures
            r.settings.temperature == Some(temp),
            r.settings.max_tokens == self.settings.max_tokens,
            r.provider == self.provider,
            r.messages == self.messages,
            r.tools == self.tools,
            r.tool_router == self.tool_router,
            r.run_until == self.run_until,
    {
        let mut s = self;
        s.settings.temperature = Some(temp);
        s
    }

    /// Sets the token ceiling.
    pub fn max_tokens(self, tokens: u32) -> (r: StreamConfig<P, R, S, H>)
        ensures
            r.settings.max_tokens == Some(tokens),
            r.settings.temperature == self.settings.temperature,
            r.provider == self.provider,
            r.messages == self.messages,
            r.tools == self.tools,
            r.tool_router == self.tool_router,
            r.run_until == self.run_until,
    {
        let mut s = self;
        s.settings.max_tokens = Some(tokens);
        s
    }

    /// Attaches a bound tool router; its tool definitions are extracted and
    /// offered to the model.
    pub fn tools<S2, H2: ToolHandler<S2>>(self, router: BuiltToolRouter<S2, H2>) -> (r:
        StreamConfig<P, R, S2, H2>)
        ensures
            r.provider == self.provider,
            r.messages == self.messages,
            r.settings == self.settings,
            r.run_until == self.run_until,
            r.tool_router == Some(router),
            r.tools matches Some(defs) && defs.deep_view().len() == router.spec_entries().len()
                && (forall|i: int|
                0 <= i < defs.deep_view().len() ==> #[trigger] defs.deep_view()[i]
                    == crate::tools::definition_of(router.spec_entries()[i].metadata)),
    {
        let defs = router.get_tool_definitions();
        StreamConfig {
            provider: self.provider,
            messages: self.messages,
            settings: self.settings,
            tools: Some(defs),
            tool_router: Some(router),
            run_until: self.run_until,
        }
    }
}

/// One item of the agent's outgoing stream: a canonical chunk tagged with
/// the step that produced it and whether it is the step's terminal chunk.
#[derive(Debug)]
pub struct AgentStreamChunk {
    pub step: u32,
    pub chunk: ChatStreamChunk,
    pub is_final: bool,
}

/// What [`StreamSession::finish_step`] decides: open one more streaming
/// call, or end the stream.
#[derive(Debug, Clone, Copy, PartialEq, Eq, Structural)]
pub enum StreamControl {
    /// Run another step on the current request.
    NextStep,
    /// The stream is over: the strategy said stop, a tool call had no
    /// handler, or the step counter reached its machine limit.
    Finished,
}

/// The state of one streaming run. The surrounding program makes the
/// provider calls: per step it opens one streaming request with
/// [`StreamSession::request`], forwards each arriving chunk through
/// [`StreamSession::on_chunk`] to its consumer, and when the step's chunk
/// sequence is exhausted calls [`StreamSession::finish_step`], which runs
/// tool calls and decides whether another step follows.
pub struct StreamSession<P, R, S, H> where
    P: ChatTextGeneration,
    R: RunUntil,
    H: ToolHandler<S>,
 {
    provider: P,
    request: ChatRequest,
    tool_router: Option<BuiltToolRouter<S, H>>,
    run_until: R,
    step: u32,
    content: Vec<AssistantContent>,
    finish_reason: FinishReason,
    terminal_seen: bool,
    done: bool,
    chunk_log: Ghost<Seq<ChatStreamChunkSpec>>,
}

impl<P, R, S, H> StreamSession<P, R, S, H> where
    P: ChatTextGeneration,
    R: RunUntil,
    H: ToolHandler<S>,
 {
    /// The conversation and settings the current step's request carries.
    pub closed spec fn spec_request(&self) -> ChatRequestSpec {
        self.request.deep_view()
    }

    /// The 0-based index of the current step.
    pub closed spec fn spec_step(&self) -> u32 {
        self.step
    }

    /// The assistant content accumulated so far in the current step.
    pub closed spec fn spec_content(&self) -> Seq<AssistantContentSpec> {
        self.content.deep_view()
    }

    /// The chunks fed so far in the current step.
    pub closed spec fn spec_chunks(&self) -> Seq<ChatStreamChunkSpec> {
        self.chunk_log@
    }

    /// The latest finish reason a chunk reported this step (`Stop` until one
    /// does).
    pub closed spec fn spec_finish_reason(&self) -> FinishReason {
        self.finish_reason
    }

    /// Whether the current step's terminal chunk has arrived.
    pub closed spec fn spec_terminal_seen(&self) -> bool {
        self.terminal_seen
    }

    /// Whether the stream is over.
    pub closed spec fn spec_done(&self) -> bool {
        self.done
    }

    /// The session's tool router.
    pub closed spec fn spec_tool_router(&self) -> Option<BuiltToolRouter<S, H>> {
        self.tool_router
    }

    /// The session's termination strategy.
    pub closed spec fn spec_run_until(&self) -> R {
        self.run_until
    }

    /// The streaming counterpart of the generation loop's accumulation law:
    /// the text of the assistant content reconstructed so far equals the
    /// concatenation of the text deltas of the chunks fed so far.
    pub open spec fn accumulation_ok(&self) -> bool {
        content_text(self.spec_content()) == concat_delta_texts(self.spec_chunks())
    }

    /// Starts a streaming run at step 0 with an empty accumulation.
    pub fn new(config: StreamConfig<P, R, S, H>) -> (r: StreamSession<P, R, S, H>)
        ensures
            r.spec_request() == (ChatRequestSpec {
                messages: config.messages.deep_view(),
                settings: config.settings.deep_view(),
                tools: match config.tools {
                    Some(t) => Some(t.deep_view()),
                    None => None,
                },
            }),
            r.spec_step() == 0,
            r.spec_content() == Seq::<AssistantContentSpec>::empty(),
            r.spec_chunks() == Seq::<ChatStreamChunkSpec>::empty(),
            r.spec_finish_reason() == FinishReason::Stop,
            !r.spec_terminal_seen(),
            !r.spec_done(),
            r.spec_tool_router() == config.tool_router,
            r.spec_run_until() == config.run_until,
            r.accumulation_ok(),
    {
        let StreamConfig { provider, messages, settings, tools, tool_router, run_until } = config;
        let r = StreamSession {
            provider,
            request: ChatRequest { messages, settings, tools },
            tool_router,
            run_until,
            step: 0,
            content: Vec::new(),
            finish_reason: FinishReason::Stop,
            terminal_seen: false,
            done: false,
            chunk_log: Ghost(Seq::empty()),
        };
        proof {
            assert(r.spec_content() =~= Seq::<AssistantContentSpec>::empty());
            assert(r.spec_request() =~= (ChatRequestSpec {
                messages: config.messages.deep_view(),
                settings: config.settings.deep_view(),
                tools: match config.tools {
                    Some(t) => Some(t.deep_view()),
                    None => None,
                },
            }));
        }
        r
    }

    /// The provider this run drives.
    pub fn provider(&self) -> &P {
        &self.provider
    }

    /// The request to open the current step's streaming call with.
    pub fn request(&self) -> (r: &ChatRequest)
        ensures
            r.deep_view() == self.spec_request(),
    {
        &self.request
    }

    /// Whether the stream is over: no further chunks will be emitted.
    pub fn is_done(&self) -> (r: bool)
        ensures
            r == self.spec_done(),
    {
        self.done
    }

    /// Feeds one arriving chunk: the assistant delta, if any, joins the
    /// reconstruction of this step's message; a finish reason marks the
    /// step's terminal chunk. Returns the chunk wrapped for the consumer,
    /// tagged with the owning step and the terminal flag.
    pub fn on_chunk(&mut self, chunk: ChatStreamChunk) -> (r: AgentStreamChunk)
        requires
            !old(self).spec_done(),
            !old(self).spec_terminal_seen(),
        ensures
            r.step == old(self).spec_step(),
            r.is_final == (chunk.finish_reason is Some),
            r.chunk == chunk,
            final(self).spec_chunks() == old(self).spec_chunks().push(chunk.deep_view()),
            final(self).spec_content() == (match delta_part(chunk.deep_view().delta) {
                Some(part) => old(self).spec_content().push(part),
                None => old(self).spec_content(),
            }),
            final(self).spec_finish_reason() == (match chunk.finish_reason {
                Some(fr) => fr,
                None => old(self).spec_finish_reason(),
            }),
            final(self).spec_terminal_seen() == (chunk.finish_reason is Some),
            final(self).spec_step() == old(self).spec_step(),
            final(self).spec_request() == old(self).spec_request(),
            final(self).spec_tool_router() == old(self).spec_tool_router(),
            final(self).spec_run_until() == old(self).spec_run_until(),
            !final(self).spec_done(),
            old(self).accumulation_ok() ==> final(self).accumulation_ok(),
    {
        let ghost pre_content = self.content.deep_view();
        let ghost cv = chunk.deep_view();
        let is_final = chunk.finish_reason.is_some();
        match &chunk.finish_reason {
            Some(fr) => {
                self.finish_reason = *fr;
                self.terminal_seen = true;
            },
            None => {},
        }
        match &chunk.delta {
            crate::types::MessageDelta::Assistant { content: Some(part) } => {
                let owned = match part {
                    AssistantContent::Text { text } => AssistantContent::Text {
                        text: text.clone(),
                    },
                    AssistantContent::ToolCall { tool_call } => AssistantContent::ToolCall {
                        tool_call: tool_call.deep_clone(),
                    },
                };
                proof {
                    assert(owned.deep_view() == delta_part(cv.delta)->0);
                }
                self.content.push(owned);
                proof {
                    assert(self.content.deep_view() =~= pre_content.push(
                        delta_part(cv.delta)->0,
                    ));
                }
            },
            _ => {},
        }
        proof {
            self.chunk_log@ = self.chunk_log@.push(cv);
            lemma_delta_texts_push(old(self).spec_chunks(), cv);
            if old(self).accumulation_ok() {
                match delta_part(cv.delta) {
                    Some(part) => {
                        lemma_content_text_push(pre_content, part);
                        assert(delta_text(cv.delta) == (match part {
                            AssistantContentSpec::Text(t) => t,
                            _ => Seq::<char>::empty(),
                        }));
                    },
                    None => {
                        assert(delta_text(cv.delta) =~= Seq::<char>::empty());
                        assert(content_text(self.spec_content()) + Seq::<char>::empty()
                            =~= content_text(self.spec_content()));
                    },
                }
            }
        }
        AgentStreamChunk { step: self.step, chunk, is_final }
    }

    /// Closes the step once its chunk sequence is exhausted: appends the
    /// reconstructed assistant message (if any content arrived), executes
    /// its tool calls through the router and appends their results as one
    /// tool message, then consults the termination strategy. Returns
    /// [`StreamControl::NextStep`] exactly when another step follows; a
    /// tool call without a handler ends the stream silently.
    pub fn finish_step(&mut self) -> (r: StreamControl)
        requires
            !old(self).spec_done(),
        ensures
            final(self).spec_step() == old(self).spec_step() || final(self).spec_step() == old(
                self,
            ).spec_step() + 1,
            final(self).spec_content() == Seq::<AssistantContentSpec>::empty(),
            final(self).spec_chunks() == Seq::<ChatStreamChunkSpec>::empty(),
            final(self).accumulation_ok(),
            final(self).spec_tool_router() == old(self).spec_tool_router(),
            final(self).spec_run_until() == old(self).spec_run_until(),
            (r == StreamControl::Finished) == final(self).spec_done(),
            ({
                let pre = old(self);
                let built = (MessageSpec::Assistant {
                    content: pre.spec_content(),
                    metadata: None,
                });
                let calls = spec_tool_calls(built);
                let rp = pre.spec_tool_router() is Some;
                if pre.spec_content().len() == 0 {
                    // nothing arrived: history unchanged, only the strategy decides
                    &&& final(self).spec_request() == pre.spec_request()
                    &&& ((r == StreamControl::NextStep) <==> (pre.spec_run_until().spec_continue(
                        pre.spec_step(),
                        pre.spec_finish_reason(),
                    ) && pre.spec_step() < u32::MAX - 1))
                } else if rp && calls.len() > 0 {
                    let router = pre.spec_tool_router()->0;
                    if batch_has_unhandled(router, calls) {
                        // silent stop: the assistant message stays, no tool message
                        &&& r == StreamControl::Finished
                        &&& final(self).spec_request() == (ChatRequestSpec {
                            messages: pre.spec_request().messages.push(built),
                            ..pre.spec_request()
                        })
                    } else {
                        &&& (exists|results: Seq<ToolResultSpec>|
                            {
                                &&& results.len() == calls.len()
                                &&& (forall|t: int|
                                    0 <= t < calls.len() ==> result_for_call(
                                        router,
                                        calls[t],
                                        #[trigger] results[t],
                                    ))
                                &&& final(self).spec_request() == (ChatRequestSpec {
                                    messages: pre.spec_request().messages.push(built).push(
                                        (MessageSpec::Tool {
                                            tool_results: results,
                                            metadata: None,
                                        }),
                                    ),
                                    ..pre.spec_request()
                                })
                            })
                        &&& ((r == StreamControl::NextStep) <==> (
                        pre.spec_run_until().spec_continue(
                            pre.spec_step(),
                            pre.spec_finish_reason(),
                        ) && pre.spec_step() < u32::MAX - 1))
                    }
                } else {
                    &&& final(self).spec_request() == (ChatRequestSpec {
                        messages: pre.spec_request().messages.push(built),
                        ..pre.spec_request()
                    })
                    &&& ((r == StreamControl::NextStep) <==> (pre.spec_run_until().spec_continue(
                        pre.spec_step(),
                        pre.spec_finish_reason(),
                    ) && pre.spec_step() < u32::MAX - 1))
                }
            }),
    {
        let ghost pre = *old(self);
        let ghost pre_msgs = self.request.deep_view().messages;
        let ghost built = (MessageSpec::Assistant {
            content: self.content.deep_view(),
            metadata: None,
        });

        let mut content: Vec<AssistantContent> = Vec::new();
        core::mem::swap(&mut content, &mut self.content);
        proof {
            self.chunk_log@ = Seq::empty();
        }

        let mut aborted = false;
        if content.len() > 0 {
            let message = Message::Assistant { content, metadata: None };
            let calls = message.tool_calls();
            self.request.messages.push(message);
            proof {
                assert(self.request.deep_view().messages =~= pre_msgs.push(built));
                assert(self.request.deep_view() =~= (ChatRequestSpec {
                    messages: pre_msgs.push(built),
                    ..pre.spec_request()
                }));
            }
            if calls.len() > 0 && self.tool_router.is_some() {
                let router = self.tool_router.as_ref().unwrap();
                let batch = run_tool_batch(router, &calls);
                aborted = batch.1;
                let results = batch.0;
                if aborted {
                    self.done = true;
                    self.terminal_seen = false;
                    return StreamControl::Finished;
                }
                let ghost resultsv = results.deep_view();
                let ghost prev2 = self.request.deep_view();
                let tool_msg = Message::Tool { tool_results: results, metadata: None };
                let ghost toolv = tool_msg.deep_view();
                self.request.messages.push(tool_msg);
                proof {
                    assert(toolv =~= (MessageSpec::Tool {
                        tool_results: resultsv,
                        metadata: None,
                    }));
                    assert(self.request.deep_view() =~= (ChatRequestSpec {
                        messages: prev2.messages.push(toolv),
                        ..prev2
                    }));
                }
            }
        }

        let fin = self.finish_reason;
        let cont = self.run_until.should_continue(self.step, &fin);
        if cont && self.step < u32::MAX - 1 {
            self.step = self.step + 1;
            self.terminal_seen = false;
            self.finish_reason = FinishReason::Stop;
            StreamControl::NextStep
        } else {
            self.done = true;
            self.terminal_seen = false;
            StreamControl::Finished
        }
    }
}

} // verus!
