//! The agent execution loop.
//!
//! [`generate_text`] drives a bounded or conditionally-terminated loop of
//! request/response exchanges with a provider, accumulating conversation
//! history. After each step it dispatches any tool calls the assistant
//! issued through the bound tool router, appends the results as one tool
//! message, and consults the termination strategy.
//!
//! The loop's behaviour is captured by a ghost trace: one [`StepLog`] per
//! completed step, recording the provider response, the tool results
//! appended, and whether the step aborted the loop because a tool had no
//! handler. [`generate_ok`] states exactly how the returned
//! [`AgentResponse`] relates to that trace.

use vstd::prelude::*;

use crate::errors::{AiError, ToolExecutionError};
use crate::json::{json_view, JsonSpec, JsonValue};
use crate::messages::{spec_tool_calls, Message, MessageSpec, ToolCall, ToolCallSpec, ToolResult,
    ToolResultSpec};
use crate::strategy::{MaxSteps, RunUntil, RunUntilFirst, StopOnReason};
use crate::tools::{lookup, not_found_message, BuiltToolRouter, ExecuteOutcome, ToolHandler};
use crate::types::{ChatRequest, ChatRequestSpec, ChatResponse, FinishReason, GenerationSettings,
    ToolDefinition, Usage};

verus! {

/// A chat-capable text generation provider: capability flags, local request
/// validation and a single-shot generation call. Streaming providers
/// additionally feed a [`crate::stream::StreamSession`] chunk by chunk.
pub trait ChatTextGeneration: Sized {
    /// The provider's name. Implementations outside the verifier's view
    /// leave it unspecified.
    open spec fn spec_name(&self) -> Seq<char> {
        arbitrary()
    }

    /// The model identifier in use.
    open spec fn spec_model(&self) -> Seq<char> {
        arbitrary()
    }

    /// Whether tool calling is supported.
    open spec fn spec_supports_tools(&self) -> bool {
        arbitrary()
    }

    /// Whether vision (image input) is supported.
    open spec fn spec_supports_vision(&self) -> bool {
        arbitrary()
    }

    /// Whether system messages are supported.
    open spec fn spec_supports_system_messages(&self) -> bool {
        arbitrary()
    }

    /// The provider's token ceiling, if it has one.
    open spec fn spec_max_tokens(&self) -> Option<u32> {
        arbitrary()
    }

    /// The relation between a request and any response this provider may
    /// return for it. The default promises nothing, which is what an
    /// implementation outside the verifier's view provides.
    open spec fn gen_post(&self, request: ChatRequestSpec, response: ChatResponse) -> bool {
        true
    }

    /// The provider's name.
    fn name(&self) -> (r: &str)
        ensures
            r@ == self.spec_name(),
    ;

    /// The model identifier in use.
    fn model(&self) -> (r: &str)
        ensures
            r@ == self.spec_model(),
    ;

    /// Whether tool calling is supported.
    fn supports_tools(&self) -> (r: bool)
        ensures
            r == self.spec_supports_tools(),
    ;

    /// Whether vision (image input) is supported.
    fn supports_vision(&self) -> (r: bool)
        ensures
            r == self.spec_supports_vision(),
    ;

    /// Whether system messages are supported.
    fn supports_system_messages(&self) -> (r: bool)
        ensures
            r == self.spec_supports_system_messages(),
    ;

    /// The provider's token ceiling, if it has one.
    fn max_tokens(&self) -> (r: Option<u32>)
        ensures
            r == self.spec_max_tokens(),
    ;

    /// One full (non-streaming) generation exchange.
    fn generate(&self, request: &ChatRequest) -> (r: Result<ChatResponse, AiError>)
        ensures
            r matches Ok(resp) ==> self.gen_post(request.deep_view(), resp),
    ;
}

/// A message model is compatible with the given capability flags.
pub open spec fn message_supported(
    tools_ok: bool,
    vision_ok: bool,
    system_ok: bool,
    m: MessageSpec,
) -> bool {
    match m {
        MessageSpec::System { .. } => system_ok,
        MessageSpec::User { content, .. } => vision_ok || (forall|p: int|
            0 <= p < content.len() ==> !((#[trigger] content[p]) is Image)),
        MessageSpec::Assistant { content, .. } => tools_ok || (forall|p: int|
            0 <= p < content.len() ==> !((#[trigger] content[p]) is ToolCall)),
        MessageSpec::Tool { .. } => tools_ok,
    }
}

/// A request model is compatible with the given capability flags: tools are
/// only offered or used when supported, images only when vision is
/// supported, system messages only when supported.
pub open spec fn spec_request_valid(
    tools_ok: bool,
    vision_ok: bool,
    system_ok: bool,
    req: ChatRequestSpec,
) -> bool {
    &&& (req.tools is Some ==> tools_ok)
    &&& (forall|i: int|
        0 <= i < req.messages.len() ==> message_supported(
            tools_ok,
            vision_ok,
            system_ok,
            #[trigger] req.messages[i],
        ))
}

/// Checks, before any network call, that a request is compatible with a
/// provider's capabilities: tool use against tool support, images against
/// vision support, system messages against system-message support. Returns
/// an unsupported-feature error naming the first incompatible feature found.
#[verifier::loop_isolation(false)]
pub fn validate_request<P: ChatTextGeneration>(provider: &P, request: &ChatRequest) -> (r: Result<
    (),
    AiError,
>)
    ensures
        r is Ok <==> spec_request_valid(
            provider.spec_supports_tools(),
            provider.spec_supports_vision(),
            provider.spec_supports_system_messages(),
            request.deep_view(),
        ),
        r matches Err(e) ==> (e matches AiError::Provider(
            crate::errors::ProviderError::UnsupportedFeature { provider: p, feature },
        ) && p@ == provider.spec_name() && (feature@ == "tools"@
            || feature@ == "vision"@ || feature@ == "system messages"@)),
{
    let tools_ok = provider.supports_tools();
    let vision_ok = provider.supports_vision();
    let system_ok = provider.supports_system_messages();
    let ghost req = request.deep_view();

    if request.tools.is_some() && !tools_ok {
        proof {
            assert(req.tools is Some);
        }
        return Err(unsupported(provider, "tools"));
    }

    let n = request.messages.len();
    let mut i: usize = 0;
    while i < n
        invariant
            0 <= i <= n,
            n == request.messages@.len(),
            req == request.deep_view(),
            req.messages.len() == n,
            req.tools is Some ==> tools_ok,
            forall|k: int|
                0 <= k < i ==> message_supported(
                    tools_ok,
                    vision_ok,
                    system_ok,
                    #[trigger] req.messages[k],
                ),
        decreases n - i,
    {
        proof {
            assert(req.messages[i as int] == request.messages@[i as int].deep_view());
        }
        match &request.messages[i] {
            Message::System { .. } => {
                if !system_ok {
                    proof {
                        assert(!message_supported(tools_ok, vision_ok, system_ok, req.messages[i as int]));
                    }
                    return Err(unsupported(provider, "system messages"));
                }
            },
            Message::User { content, .. } => {
                if !vision_ok {
                    let m = content.len();
                    let mut p: usize = 0;
                    while p < m
                        invariant
                            0 <= p <= m,
                            m == content@.len(),
                            forall|q: int|
                                0 <= q < p ==> !((#[trigger] content@[q].deep_view()) is Image),
                        decreases m - p,
                    {
                        if let crate::messages::UserContent::Image { .. } = &content[p] {
                            proof {
                                assert(req.messages[i as int] matches MessageSpec::User {
                                    content: cv,
                                    ..
                                } && cv == content.deep_view() && cv[p as int] is Image);
                                assert(!message_supported(
                                    tools_ok,
                                    vision_ok,
                                    system_ok,
                                    req.messages[i as int],
                                ));
                            }
                            return Err(unsupported(provider, "vision"));
                        }
                        p = p + 1;
                    }
                }
            },
            Message::Assistant { content, .. } => {
                if !tools_ok {
                    let m = content.len();
                    let mut p: usize = 0;
                    while p < m
                        invariant
                            0 <= p <= m,
                            m == content@.len(),
                            forall|q: int|
                                0 <= q < p ==> !((#[trigger] content@[q].deep_view()) is ToolCall),
                        decreases m - p,
                    {
                        if let crate::messages::AssistantContent::ToolCall { .. } = &content[p] {
                            proof {
                                assert(req.messages[i as int] matches MessageSpec::Assistant {
                                    content: cv,
                                    ..
                                } && cv == content.deep_view() && cv[p as int] is ToolCall);
                                assert(!message_supported(
                                    tools_ok,
                                    vision_ok,
                                    system_ok,
                                    req.messages[i as int],
                                ));
                            }
                            return Err(unsupported(provider, "tools"));
                        }
                        p = p + 1;
                    }
                }
            },
            Message::Tool { .. } => {
                if !tools_ok {
                    proof {
                        assert(!message_supported(tools_ok, vision_ok, system_ok, req.messages[i as int]));
                    }
                    return Err(unsupported(provider, "tools"));
                }
            },
        }
        i = i + 1;
    }
    Ok(())
}

fn unsupported<P: ChatTextGeneration>(provider: &P, feature: &str) -> (r: AiError)
    ensures
        r matches AiError::Provider(
            crate::errors::ProviderError::UnsupportedFeature { provider: p, feature: f },
        ) && p@ == provider.spec_name() && f@ == feature@,
{
    AiError::Provider(
        crate::errors::ProviderError::UnsupportedFeature {
            provider: provider.name().to_owned(),
            feature: feature.to_owned(),
        },
    )
}

/// A tool with no local implementation: the placeholder handler type for
/// configurations without a tool router.
#[derive(Debug)]
pub struct NoTool;

impl ToolHandler<()> for NoTool {
    open spec fn post(
        &self,
        state: (),
        input: JsonSpec,
        output: Result<JsonValue, ToolExecutionError>,
    ) -> bool {
        output is Err
    }

    fn call(&self, state: &(), input: &JsonValue) -> (r: Result<JsonValue, ToolExecutionError>) {
        Err(ToolExecutionError::ExecutionError("no tool handlers are registered".to_owned()))
    }
}

/// The ghost record of one completed loop step: the provider response, the
/// tool results appended to history (empty when none were), and whether the
/// step aborted the loop because a tool call had no handler.
pub struct StepLog {
    pub response: ChatResponse,
    pub results: Seq<ToolResultSpec>,
    pub aborted: bool,
}

/// The JSON object `{"error": message}` recorded for a failed tool call.
pub open spec fn error_json(message: Seq<char>) -> JsonSpec {
    JsonSpec::Obj(seq![("error"@, JsonSpec::Str(message))])
}

/// A tool name is registered but has no handler.
pub open spec fn call_unhandled<S, H>(router: BuiltToolRouter<S, H>, name: Seq<char>) -> bool {
    lookup(router.spec_entries(), name) matches Some(e) && e.handler is None
}

/// Some call in the batch names a registered tool without a handler.
pub open spec fn batch_has_unhandled<S, H>(
    router: BuiltToolRouter<S, H>,
    calls: Seq<ToolCallSpec>,
) -> bool {
    exists|j: int| 0 <= j < calls.len() && call_unhandled(router, (#[trigger] calls[j]).name)
}

/// The tool result recorded for one call: it carries the call's identifier;
/// an unknown name yields an error result naming the tool; otherwise the
/// registered handler ran on the bound state and the call's arguments, a
/// success became a plain result and a handler error became an error result
/// carrying the rendered message.
pub open spec fn result_for_call<S, H: ToolHandler<S>>(
    router: BuiltToolRouter<S, H>,
    call: ToolCallSpec,
    r: ToolResultSpec,
) -> bool {
    &&& r.tool_call_id == call.id
    &&& match lookup(router.spec_entries(), call.name) {
        None => r.is_error && r.result == error_json("Not found: "@ + not_found_message(call.name)),
        Some(e) => e.handler matches Some(h) && (exists|out: Result<JsonValue, ToolExecutionError>|
            {
                &&& #[trigger] h.post(router.spec_state(), call.arguments, out)
                &&& match out {
                    Ok(v) => !r.is_error && r.result == json_view(v),
                    Err(err) => r.is_error && r.result == error_json(err.spec_message()),
                }
            }),
    }
}

/// One step's log is consistent with the configuration: when a router is
/// present and the response issued tool calls, the step aborted exactly if
/// some call was registered without a handler, and otherwise recorded one
/// correct result per call, in call order; without router or calls, nothing
/// was recorded.
pub open spec fn step_ok<S, H: ToolHandler<S>>(
    router_opt: Option<BuiltToolRouter<S, H>>,
    log: StepLog,
) -> bool {
    let calls = spec_tool_calls(log.response.deep_view().message);
    match router_opt {
        Some(router) => {
            if calls.len() > 0 {
                &&& log.aborted == batch_has_unhandled(router, calls)
                &&& (!log.aborted ==> log.results.len() == calls.len() && (forall|j: int|
                    0 <= j < calls.len() ==> result_for_call(
                        router,
                        calls[j],
                        #[trigger] log.results[j],
                    )))
                &&& (log.aborted ==> log.results.len() == 0)
            } else {
                !log.aborted && log.results.len() == 0
            }
        },
        None => !log.aborted && log.results.len() == 0,
    }
}

/// The messages one step appends to the conversation: the assistant message,
/// then — when a router is present, the message issued tool calls and the
/// step did not abort — one tool message with the recorded results.
pub open spec fn step_appended(log: StepLog, router_present: bool) -> Seq<MessageSpec> {
    let mv = log.response.deep_view().message;
    let calls = spec_tool_calls(mv);
    if router_present && calls.len() > 0 && !log.aborted {
        seq![mv, MessageSpec::Tool { tool_results: log.results, metadata: None }]
    } else {
        seq![mv]
    }
}

/// The messages a trace appends, step by step.
pub open spec fn appended_msgs(trace: Seq<StepLog>, router_present: bool) -> Seq<MessageSpec>
    decreases trace.len(),
{
    if trace.len() == 0 {
        Seq::empty()
    } else {
        step_appended(trace[0], router_present) + appended_msgs(trace.skip(1), router_present)
    }
}

/// Appending one step's log appends that step's messages.
pub proof fn lemma_appended_push(trace: Seq<StepLog>, log: StepLog, rp: bool)
    ensures
        appended_msgs(trace.push(log), rp) == appended_msgs(trace, rp) + step_appended(log, rp),
    decreases trace.len(),
{
    let pushed = trace.push(log);
    assert(pushed.len() == trace.len() + 1);
    assert(appended_msgs(pushed, rp) == step_appended(pushed[0], rp) + appended_msgs(
        pushed.skip(1),
        rp,
    ));
    if trace.len() == 0 {
        assert(pushed[0] == log);
        assert(pushed.skip(1) =~= Seq::<StepLog>::empty());
        assert(appended_msgs(pushed.skip(1), rp) == Seq::<MessageSpec>::empty());
        assert(appended_msgs(trace, rp) == Seq::<MessageSpec>::empty());
        assert(step_appended(log, rp) + Seq::<MessageSpec>::empty() =~= step_appended(log, rp));
        assert(Seq::<MessageSpec>::empty() + step_appended(log, rp) =~= step_appended(log, rp));
        assert(appended_msgs(pushed, rp) =~= appended_msgs(trace, rp) + step_appended(log, rp));
    } else {
        lemma_appended_push(trace.skip(1), log, rp);
        assert(pushed[0] == trace[0]);
        assert(pushed.skip(1) =~= trace.skip(1).push(log));
        assert(appended_msgs(pushed.skip(1), rp) == appended_msgs(trace.skip(1).push(log), rp));
        assert(appended_msgs(trace, rp) == step_appended(trace[0], rp) + appended_msgs(
            trace.skip(1),
            rp,
        ));
        assert(step_appended(trace[0], rp) + (appended_msgs(trace.skip(1), rp) + step_appended(
            log,
            rp,
        )) =~= (step_appended(trace[0], rp) + appended_msgs(trace.skip(1), rp)) + step_appended(
            log,
            rp,
        ));
        assert(appended_msgs(pushed, rp) =~= appended_msgs(trace, rp) + step_appended(log, rp));
    }
}

/// Saturating 32-bit addition.
pub open spec fn sat_add_u32(a: u32, b: u32) -> u32 {
    if a + b > u32::MAX {
        u32::MAX
    } else {
        (a + b) as u32
    }
}

fn sat_add(a: u32, b: u32) -> (r: u32)
    ensures
        r == sat_add_u32(a, b),
{
    if a > u32::MAX - b {
        u32::MAX
    } else {
        a + b
    }
}

/// Adds a step's reported usage, if any, to a running total, saturating.
pub open spec fn add_usage(acc: Usage, u: Option<Usage>) -> Usage {
    match u {
        Some(x) => Usage {
            prompt_tokens: sat_add_u32(acc.prompt_tokens, x.prompt_tokens),
            completion_tokens: sat_add_u32(acc.completion_tokens, x.completion_tokens),
            total_tokens: sat_add_u32(acc.total_tokens, x.total_tokens),
        },
        None => acc,
    }
}

/// The usage a trace accumulates, step by step, starting from zero.
pub open spec fn usage_total(trace: Seq<StepLog>) -> Usage
    decreases trace.len(),
{
    if trace.len() == 0 {
        Usage { prompt_tokens: 0, completion_tokens: 0, total_tokens: 0 }
    } else {
        add_usage(usage_total(trace.drop_last()), trace.last().response.usage)
    }
}

/// Some step of the trace reported usage.
pub open spec fn any_usage(trace: Seq<StepLog>) -> bool {
    exists|i: int| 0 <= i < trace.len() && (#[trigger] trace[i]).response.usage is Some
}

/// Configuration for [`generate_text`]: the provider, the initial
/// conversation, generation settings, the tool definitions offered to the
/// model, the bound tool router, and the termination strategy.
pub struct GenerateConfig<P, R, S, H> where
    P: ChatTextGeneration,
    R: RunUntil,
    H: ToolHandler<S>,
 {
    pub provider: P,
    pub messages: Vec<Message>,
    pub settings: GenerationSettings,
    pub tools: Option<Vec<ToolDefinition>>,
    pub tool_router: Option<BuiltToolRouter<S, H>>,
    pub run_until: R,
}

impl<P: ChatTextGeneration> GenerateConfig<P, MaxSteps, (), NoTool> {
    /// A configuration with no messages, default settings, no tools and a
    /// single-step bound.
    pub fn new(provider: P) -> (r: GenerateConfig<P, MaxSteps, (), NoTool>)
        ensures
            r.provider == provider,
            r.messages@.len() == 0,
            r.settings.deep_view() == crate::types::default_settings(),
            r.tools is None,
            r.tool_router is None,
            r.run_until == (MaxSteps { max: 1 }),
    {
        GenerateConfig {
            provider,
            messages: Vec::new(),
            settings: GenerationSettings::default(),
            tools: None,
            tool_router: None,
            run_until: MaxSteps::new(1),
        }
    }
}

impl<P, R, S, H> GenerateConfig<P, R, S, H> where
    P: ChatTextGeneration,
    R: RunUntil,
    H: ToolHandler<S>,
 {
    /// Replaces the generation settings.
    pub fn settings(self, settings: GenerationSettings) -> (r: GenerateConfig<P, R, S, H>)
        ensures
            r == (GenerateConfig { settings, ..self }),
    {
        GenerateConfig { settings, ..self }
    }

    /// Replaces the initial conversation.
    pub fn messages(self, messages: Vec<Message>) -> (r: GenerateConfig<P, R, S, H>)
        ensures
            r == (GenerateConfig { messages, ..self }),
    {
        GenerateConfig { messages, ..self }
    }

    /// Replaces the termination strategy.
    pub fn run_until<R2: RunUntil>(self, run_until: R2) -> (r: GenerateConfig<P, R2, S, H>)
        ensures
            r.provider == self.provider,
            r.messages == self.messages,
            r.settings == self.settings,
            r.tools == self.tools,
            r.tool_router == self.tool_router,
            r.run_until == run_until,
    {
        GenerateConfig {
            provider: self.provider,
            messages: self.messages,
            settings: self.settings,
            tools: self.tools,
            tool_router: self.tool_router,
            run_until,
        }
    }

    /// Sets the sampling temperature, in thousandths.
    pub fn temperature(self, temp: u32) -> (r: GenerateConfig<P, R, S, H>)
        ensures
            r.settings.temperature == Some(temp),
            r.settings.max_tokens == self.settings.max_tokens,
            r.provider == self.provider,
            r.messages == self.messages,
            r.tools == self.tools,
            r.tool_router == self.tool_router,
            r.run_until == self.run_until,
    {
        let mut s = self;
        s.settings.temperature = Some(temp);
        s
    }

    /// Sets the token ceiling.
    pub fn max_tokens(self, tokens: u32) -> (r: GenerateConfig<P, R, S, H>)
        ensures
            r.settings.max_tokens == Some(tokens),
            r.settings.temperature == self.settings.temperature,
            r.provider == self.provider,
            r.messages == self.messages,
            r.tools == self.tools,
            r.tool_router == self.tool_router,
            r.run_until == self.run_until,
    {
        let mut s = self;
        s.settings.max_tokens = Some(tokens);
        s
    }

    /// Attaches a bound tool router; its tool definitions are extracted and
    /// offered to the model.
    pub fn tools<S2, H2: ToolHandler<S2>>(self, router: BuiltToolRouter<S2, H2>) -> (r:
        GenerateConfig<P, R, S2, H2>)
        ensures
            r.provider == self.provider,
            r.messages == self.messages,
            r.settings == self.settings,
            r.run_until == self.run_until,
            r.tool_router == Some(router),
            r.tools matches Some(defs) && defs.deep_view().len() == router.spec_entries().len()
                && (forall|i: int|
                0 <= i < defs.deep_view().len() ==> #[trigger] defs.deep_view()[i]
                    == crate::tools::definition_of(router.spec_entries()[i].metadata)),
    {
        let defs = router.get_tool_definitions();
        GenerateConfig {
            provider: self.provider,
            messages: self.messages,
            settings: self.settings,
            tools: Some(defs),
            tool_router: Some(router),
            run_until: self.run_until,
        }
    }
}

/// The result of one agent run: the accumulated conversation, the final
/// assistant message, the number of completed steps, the last finish reason,
/// and the summed usage when any step reported it. The ghost `trace` records
/// each step.
pub struct AgentResponse {
    pub messages: Vec<Message>,
    pub final_message: Message,
    pub steps: u32,
    pub finish_reason: FinishReason,
    pub total_usage: Option<Usage>,
    pub trace: Ghost<Seq<StepLog>>,
}

/// The request a given step of the loop sends: the initial request with the
/// messages of all earlier steps appended.
pub open spec fn request_at(
    init: ChatRequestSpec,
    trace: Seq<StepLog>,
    i: int,
    router_present: bool,
) -> ChatRequestSpec {
    ChatRequestSpec { messages: init.messages + appended_msgs(trace.take(i), router_present), ..init }
}

/// The initial request a configuration describes.
pub open spec fn config_request<P: ChatTextGeneration, R: RunUntil, S, H: ToolHandler<S>>(
    config: GenerateConfig<P, R, S, H>,
) -> ChatRequestSpec {
    ChatRequestSpec {
        messages: config.messages.deep_view(),
        settings: config.settings.deep_view(),
        tools: match config.tools {
            Some(t) => Some(t.deep_view()),
            None => None,
        },
    }
}

/// How a successful [`generate_text`] run relates to its configuration,
/// through the ghost trace of the returned response:
///
/// - at least one step ran, and `steps` counts them;
/// - the final message, finish reason and accumulated usage are the last
///   step's message, its reason and the saturating per-step sum;
/// - the conversation is the initial one plus each step's appended messages;
/// - each step's response answers the request current at that step;
/// - each step's tool dispatch followed the router (see [`step_ok`]);
/// - every step but the last continued: it did not abort and the strategy
///   said continue; the last step aborted, or the strategy said stop, or the
///   step counter's machine limit was reached.
pub open spec fn generate_ok<P: ChatTextGeneration, R: RunUntil, S, H: ToolHandler<S>>(
    config: GenerateConfig<P, R, S, H>,
    out: AgentResponse,
) -> bool {
    let trace = out.trace@;
    let rp = config.tool_router is Some;
    &&& 1 <= trace.len() <= u32::MAX
    &&& out.steps == trace.len()
    &&& out.finish_reason == trace.last().response.finish_reason
    &&& out.final_message.deep_view() == trace.last().response.deep_view().message
    &&& out.messages.deep_view() == config.messages.deep_view() + appended_msgs(trace, rp)
    &&& (forall|i: int|
        0 <= i < trace.len() ==> config.provider.gen_post(
            request_at(config_request(config), trace, i, rp),
            (#[trigger] trace[i]).response,
        ))
    &&& (forall|i: int| 0 <= i < trace.len() ==> step_ok(config.tool_router, #[trigger] trace[i]))
    &&& (forall|i: int| 0 <= i < trace.len() - 1 ==> !(#[trigger] trace[i]).aborted)
    &&& (forall|i: int|
        0 <= i < trace.len() - 1 ==> config.run_until.spec_continue(
            i as u32,
            (#[trigger] trace[i]).response.finish_reason,
        ))
    &&& (trace.last().aborted || !config.run_until.spec_continue(
        (trace.len() - 1) as u32,
        trace.last().response.finish_reason,
    ) || trace.len() >= u32::MAX)
    &&& out.total_usage == (if any_usage(trace) {
        Some(usage_total(trace))
    } else {
        None::<Usage>
    })
}

/// Builds an error tool result `{"error": message}` for a failed call.
fn error_result(tool_call_id: String, message: String) -> (r: ToolResult)
    ensures
        r.deep_view() == (ToolResultSpec {
            tool_call_id: tool_call_id@,
            result: error_json(message@),
            is_error: true,
        }),
{
    let ghost idv = tool_call_id@;
    let ghost mv = message@;
    let mut obj: Vec<(String, JsonValue)> = Vec::new();
    obj.push(("error".to_owned(), JsonValue::Str(message)));
    let ghost oview = obj@;
    let r = ToolResult { tool_call_id, result: JsonValue::Obj(obj), is_error: true };
    proof {
        crate::json::lemma_json_obj_view(oview);
        assert(crate::json::json_obj_view(oview) =~= seq![("error"@, JsonSpec::Str(mv))]);
        assert(r.deep_view() =~= (ToolResultSpec {
            tool_call_id: idv,
            result: error_json(mv),
            is_error: true,
        }));
    }
    r
}

/// Executes one step's batch of tool calls against the router, in call
/// order. Returns the recorded results and whether the batch hit a tool
/// registered without a handler, in which case execution stopped at that
/// call and the results are discarded (the loop aborts).
pub fn run_tool_batch<S, H: ToolHandler<S>>(
    router: &BuiltToolRouter<S, H>,
    calls: &Vec<ToolCall>,
) -> (r: (Vec<ToolResult>, bool))
    ensures
        r.1 == batch_has_unhandled(*router, calls.deep_view()),
        !r.1 ==> r.0.deep_view().len() == calls.deep_view().len() && (forall|t: int|
            0 <= t < calls.deep_view().len() ==> result_for_call(
                *router,
                calls.deep_view()[t],
                #[trigger] r.0.deep_view()[t],
            )),
        r.1 ==> r.0.deep_view().len() == 0,
{
    let ghost rt = *router;
    let ghost cview = calls.deep_view();
    let mut aborted = false;
    let mut results: Vec<ToolResult> = Vec::new();
    let n = calls.len();
    let mut j: usize = 0;
    while j < n
        invariant_except_break
            0 <= j <= n,
            n == calls@.len(),
            cview == calls.deep_view(),
            cview.len() == n,
            *router == rt,
            !aborted,
            results.deep_view().len() == j,
            forall|t: int|
                0 <= t < j ==> result_for_call(rt, cview[t], #[trigger] results.deep_view()[t]),
            forall|t: int| 0 <= t < j ==> !call_unhandled(rt, (#[trigger] cview[t]).name),
        ensures
            cview == calls.deep_view(),
            *router == rt,
            aborted == batch_has_unhandled(rt, cview),
            !aborted ==> results.deep_view().len() == cview.len() && (forall|t: int|
                0 <= t < cview.len() ==> result_for_call(
                    rt,
                    cview[t],
                    #[trigger] results.deep_view()[t],
                )),
        decreases n - j,
    {
        let ghost pre_results = results.deep_view();
        proof {
            assert(cview[j as int] == calls@[j as int].deep_view());
        }
        let c = &calls[j];
        match router.execute_tool(&c.name, &c.arguments) {
            ExecuteOutcome::Executed(out) => {
                let tr = match out {
                    Ok(v) => ToolResult { tool_call_id: c.id.clone(), result: v, is_error: false },
                    Err(err) => {
                        let msg = err.message();
                        error_result(c.id.clone(), msg)
                    },
                };
                proof {
                    assert(result_for_call(rt, cview[j as int], tr.deep_view()));
                }
                results.push(tr);
                proof {
                    assert(results.deep_view() =~= pre_results.push(
                        results@[j as int].deep_view(),
                    ));
                }
            },
            ExecuteOutcome::NoHandler => {
                proof {
                    assert(call_unhandled(rt, cview[j as int].name));
                }
                aborted = true;
                break ;
            },
            ExecuteOutcome::NotFound(m) => {
                let err = ToolExecutionError::NotFound(m);
                let msg = err.message();
                let tr = error_result(c.id.clone(), msg);
                proof {
                    assert(result_for_call(rt, cview[j as int], tr.deep_view()));
                }
                results.push(tr);
                proof {
                    assert(results.deep_view() =~= pre_results.push(
                        results@[j as int].deep_view(),
                    ));
                }
            },
        }
        j = j + 1;
    }
    if aborted {
        (Vec::new(), true)
    } else {
        (results, false)
    }
}

/// Generates text with execution control: repeatedly calls the provider on
/// the accumulated conversation, dispatches tool calls through the router,
/// and stops when the termination strategy says so, when a tool call has no
/// handler, or on the first provider error, which is returned as-is.
pub fn generate_text<P, R, S, H>(config: GenerateConfig<P, R, S, H>) -> (r: Result<
    AgentResponse,
    AiError,
>) where P: ChatTextGeneration, R: RunUntil, H: ToolHandler<S>
    ensures
        r matches Ok(out) ==> generate_ok(config, out),
{
    let ghost cfg = config;
    let GenerateConfig { provider, messages, settings, tools, tool_router, run_until } = config;
    let mut request = ChatRequest { messages, settings, tools };
    let ghost init = request.deep_view();
    let ghost rp = tool_router is Some;
    let ghost mut trace = Seq::<StepLog>::empty();
    let mut step: u32 = 0;
    let mut total = Usage { prompt_tokens: 0, completion_tokens: 0, total_tokens: 0 };
    let mut has_usage = false;

    proof {
        assert(init =~= config_request(cfg));
        assert(init.messages + appended_msgs(trace, rp) =~= init.messages);
    }

    loop
        invariant
            cfg == config,
            step == trace.len(),
            step < u32::MAX,
            provider == cfg.provider,
            tool_router == cfg.tool_router,
            run_until == cfg.run_until,
            rp == (cfg.tool_router is Some),
            init == config_request(cfg),
            request.deep_view().messages == init.messages + appended_msgs(trace, rp),
            request.deep_view().settings == init.settings,
            request.deep_view().tools == init.tools,
            forall|i: int|
                0 <= i < trace.len() ==> cfg.provider.gen_post(
                    request_at(init, trace, i, rp),
                    (#[trigger] trace[i]).response,
                ),
            forall|i: int| 0 <= i < trace.len() ==> step_ok(cfg.tool_router, #[trigger] trace[i]),
            forall|i: int| 0 <= i < trace.len() ==> !(#[trigger] trace[i]).aborted,
            forall|i: int|
                0 <= i < trace.len() ==> cfg.run_until.spec_continue(
                    i as u32,
                    (#[trigger] trace[i]).response.finish_reason,
                ),
            total == usage_total(trace),
            has_usage == any_usage(trace),
        decreases u32::MAX - step,
    {
        let ghost pre_trace = trace;
        let response = match provider.generate(&request) {
            Ok(resp) => resp,
            Err(e) => {
                return Err(e);
            },
        };
        let ghost resp_snap = response;
        proof {
            assert(pre_trace.take(step as int) =~= pre_trace);
            assert(cfg.provider.gen_post(request_at(init, pre_trace, step as int, rp), resp_snap));
        }

        match &response.usage {
            Some(u) => {
                total = Usage {
                    prompt_tokens: sat_add(total.prompt_tokens, u.prompt_tokens),
                    completion_tokens: sat_add(total.completion_tokens, u.completion_tokens),
                    total_tokens: sat_add(total.total_tokens, u.total_tokens),
                };
                has_usage = true;
            },
            None => {},
        }

        let fin_reason = response.finish_reason;
        let calls = response.message.tool_calls();
        let final_message = response.message.deep_clone();
        let ChatResponse { message, .. } = response;
        let ghost mview = resp_snap.deep_view().message;
        let ghost pre_messages = request.deep_view().messages;

        let mut aborted = false;
        let mut results: Vec<ToolResult> = Vec::new();
        let ghost mut logresults = Seq::<ToolResultSpec>::empty();
        let has_router = tool_router.is_some();

        if calls.len() > 0 && has_router {
            request.messages.push(message);
            proof {
                assert(request.deep_view().messages =~= pre_messages.push(mview));
            }
            let router = tool_router.as_ref().unwrap();
            let batch = run_tool_batch(router, &calls);
            aborted = batch.1;
            results = batch.0;

            if aborted {
                let ghost log = StepLog {
                    response: resp_snap,
                    results: Seq::empty(),
                    aborted: true,
                };
                proof {
                    trace = pre_trace.push(log);
                }
                let msgs = request.messages;
                let out = AgentResponse {
                    messages: msgs,
                    final_message,
                    steps: step + 1,
                    finish_reason: fin_reason,
                    total_usage: if has_usage {
                        Some(total)
                    } else {
                        None
                    },
                    trace: Ghost(trace),
                };
                proof {
                    lemma_appended_push(pre_trace, log, rp);
                    lemma_usage_push(pre_trace, log);
                    assert(step_appended(log, rp) =~= seq![mview]);
                    assert(out.messages.deep_view() =~= init.messages + appended_msgs(trace, rp));
                    assert(trace.last() == log);
                    assert(step_ok(cfg.tool_router, log));
                    assert forall|i: int|
                        0 <= i < trace.len() implies cfg.provider.gen_post(
                        request_at(init, trace, i, rp),
                        (#[trigger] trace[i]).response,
                    ) by {
                        if i < pre_trace.len() {
                            assert(trace[i] == pre_trace[i]);
                            assert(trace.take(i) =~= pre_trace.take(i));
                        } else {
                            assert(trace[i] == log);
                            assert(trace.take(i) =~= pre_trace);
                            assert(pre_trace.take(i) =~= pre_trace);
                        }
                    }
                    assert forall|i: int|
                        0 <= i < trace.len() implies step_ok(
                        cfg.tool_router,
                        #[trigger] trace[i],
                    ) by {
                        if i < pre_trace.len() {
                            assert(trace[i] == pre_trace[i]);
                        } else {
                            assert(trace[i] == log);
                        }
                    }
                    assert(generate_ok(cfg, out));
                }
                return Ok(out);
            }

            let ghost resultsv = results.deep_view();
            proof {
                logresults = resultsv;
            }
            let tool_msg = Message::Tool { tool_results: results, metadata: None };
            let ghost toolv = tool_msg.deep_view();
            request.messages.push(tool_msg);
            proof {
                assert(toolv =~= (MessageSpec::Tool { tool_results: resultsv, metadata: None }));
                assert(request.deep_view().messages =~= pre_messages.push(mview).push(toolv));
            }
        } else {
            request.messages.push(message);
            proof {
                assert(request.deep_view().messages =~= pre_messages.push(mview));
            }
        }

        let ghost log = StepLog { response: resp_snap, results: logresults, aborted: false };
        proof {
            trace = pre_trace.push(log);
            lemma_appended_push(pre_trace, log, rp);
            lemma_usage_push(pre_trace, log);
            assert(request.deep_view().messages =~= (init.messages + appended_msgs(pre_trace, rp))
                + step_appended(log, rp));
            assert(request.deep_view().messages =~= init.messages + appended_msgs(trace, rp));
            assert(trace.last() == log);
            assert(step_ok(cfg.tool_router, log));
            assert forall|i: int|
                0 <= i < trace.len() implies cfg.provider.gen_post(
                request_at(init, trace, i, rp),
                (#[trigger] trace[i]).response,
            ) by {
                if i < pre_trace.len() {
                    assert(trace[i] == pre_trace[i]);
                    assert(trace.take(i) =~= pre_trace.take(i));
                } else {
                    assert(trace[i] == log);
                    assert(trace.take(i) =~= pre_trace);
                    assert(pre_trace.take(i) =~= pre_trace);
                }
            }
            assert forall|i: int|
                0 <= i < trace.len() implies step_ok(cfg.tool_router, #[trigger] trace[i]) by {
                if i < pre_trace.len() {
                    assert(trace[i] == pre_trace[i]);
                } else {
                    assert(trace[i] == log);
                }
            }
        }
        let cont = run_until.should_continue(step, &fin_reason);
        if !cont || step == u32::MAX - 1 {
            let msgs = request.messages;
            let out = AgentResponse {
                messages: msgs,
                final_message,
                steps: step + 1,
                finish_reason: fin_reason,
                total_usage: if has_usage {
                    Some(total)
                } else {
                    None
                },
                trace: Ghost(trace),
            };
            proof {
                assert(generate_ok(cfg, out));
            }
            return Ok(out);
        }
        step = step + 1;
    }
}

/// Pushing one step's log extends the accumulated usage by that step's.
pub proof fn lemma_usage_push(trace: Seq<StepLog>, log: StepLog)
    ensures
        usage_total(trace.push(log)) == add_usage(usage_total(trace), log.response.usage),
        any_usage(trace.push(log)) == (any_usage(trace) || log.response.usage is Some),
{
    assert(trace.push(log).drop_last() =~= trace);
    assert(trace.push(log).last() == log);
    if any_usage(trace) {
        let i = choose|i: int| 0 <= i < trace.len() && (#[trigger] trace[i]).response.usage is Some;
        assert(trace.push(log)[i] == trace[i]);
    }
    if log.response.usage is Some {
        assert(trace.push(log)[trace.len() as int] == log);
    }
    if any_usage(trace.push(log)) && !(log.response.usage is Some) {
        let i = choose|i: int|
            0 <= i < trace.push(log).len() && (#[trigger] trace.push(log)[i]).response.usage
                is Some;
        if i < trace.len() {
            assert(trace[i] == trace.push(log)[i]);
        }
    }
}


/// With a step bound as the strategy, a run that never aborted on a missing
/// tool handler executes exactly the bound's number of steps when the bound
/// is at least one, and exactly one step when the bound is zero — whatever
/// finish reasons the provider returns.
pub proof fn lemma_max_steps_run<P: ChatTextGeneration, S, H: ToolHandler<S>>(
    config: GenerateConfig<P, MaxSteps, S, H>,
    out: AgentResponse,
)
    requires
        generate_ok(config, out),
        !out.trace@.last().aborted,
    ensures
        config.run_until.max >= 1 ==> out.steps == config.run_until.max,
        config.run_until.max == 0 ==> out.steps == 1,
{
    let trace = out.trace@;
    let n = config.run_until.max;
    if trace.len() > 1 {
        let i = trace.len() - 2;
        assert(config.run_until.spec_continue(i as u32, trace[i].response.finish_reason));
        assert(trace.len() <= n);
    }
    assert(trace.last().aborted || !config.run_until.spec_continue(
        (trace.len() - 1) as u32,
        trace.last().response.finish_reason,
    ) || trace.len() >= u32::MAX);
}

/// A reason-set strategy halts the loop on the first step whose finish
/// reason is in the set: in a run that never aborted on a missing tool
/// handler, no step before the last finished with a reason in the set, and
/// the last step did (unless the step counter's machine limit ended the
/// run).
pub proof fn lemma_stop_on_reason_run<P: ChatTextGeneration, S, H: ToolHandler<S>>(
    config: GenerateConfig<P, StopOnReason, S, H>,
    out: AgentResponse,
)
    requires
        generate_ok(config, out),
        !out.trace@.last().aborted,
    ensures
        forall|i: int|
            0 <= i < out.trace@.len() - 1 ==> !config.run_until.reasons@.contains(
                (#[trigger] out.trace@[i]).response.finish_reason,
            ),
        config.run_until.reasons@.contains(out.trace@.last().response.finish_reason)
            || out.trace@.len() >= u32::MAX,
{
}

/// The first-to-finish combination of a step bound and a reason set halts
/// at the earlier of the two: in a run that never aborted on a missing tool
/// handler, every step before the last both stayed under the bound and
/// avoided the stop reasons, and the run ended by reaching the bound or by
/// hitting a stop reason (or the step counter's machine limit).
pub proof fn lemma_first_to_finish_run<P: ChatTextGeneration, S, H: ToolHandler<S>>(
    config: GenerateConfig<P, RunUntilFirst<MaxSteps, StopOnReason>, S, H>,
    out: AgentResponse,
)
    requires
        generate_ok(config, out),
        !out.trace@.last().aborted,
    ensures
        config.run_until.first.max >= 1 ==> out.steps <= config.run_until.first.max,
        forall|i: int|
            0 <= i < out.trace@.len() - 1 ==> !config.run_until.second.reasons@.contains(
                (#[trigger] out.trace@[i]).response.finish_reason,
            ),
        (config.run_until.first.max >= 1 && out.steps == config.run_until.first.max) || (
        config.run_until.first.max == 0 && out.steps == 1)
            || config.run_until.second.reasons@.contains(out.trace@.last().response.finish_reason)
            || out.trace@.len() >= u32::MAX,
{
    let trace = out.trace@;
    let n = config.run_until.first.max;
    if trace.len() > 1 {
        let i = trace.len() - 2;
        assert(config.run_until.spec_continue(i as u32, trace[i].response.finish_reason));
        assert(trace.len() <= n);
    }
}

/// A loop whose provider immediately calls a tool that is registered without
/// a handler returns after exactly one step: the final message is the
/// assistant message containing that call, and no tool message is appended.
pub proof fn lemma_no_handler_aborts<P: ChatTextGeneration, R: RunUntil, S, H: ToolHandler<S>>(
    config: GenerateConfig<P, R, S, H>,
    out: AgentResponse,
)
    requires
        generate_ok(config, out),
        config.tool_router is Some,
        batch_has_unhandled(
            config.tool_router->0,
            spec_tool_calls(out.trace@[0].response.deep_view().message),
        ),
    ensures
        out.steps == 1,
        out.finish_reason == out.trace@[0].response.finish_reason,
        out.final_message.deep_view() == out.trace@[0].response.deep_view().message,
        out.messages.deep_view() == config.messages.deep_view().push(
            out.trace@[0].response.deep_view().message,
        ),
{
    let trace = out.trace@;
    assert(step_ok(config.tool_router, trace[0]));
    let calls = spec_tool_calls(trace[0].response.deep_view().message);
    assert(calls.len() > 0) by {
        let j = choose|j: int|
            0 <= j < calls.len() && call_unhandled(config.tool_router->0, (#[trigger] calls[j]).name);
    }
    assert(trace[0].aborted);
    if trace.len() > 1 {
        assert(!trace[0].aborted);
    }
    assert(trace.len() == 1);
    assert(trace.last() == trace[0]);
    assert(appended_msgs(trace, true) == step_appended(trace[0], true) + appended_msgs(
        trace.skip(1),
        true,
    ));
    assert(trace.skip(1) =~= Seq::<StepLog>::empty());
    assert(step_appended(trace[0], true) == seq![trace[0].response.deep_view().message]);
    assert(config.messages.deep_view() + appended_msgs(trace, true)
        =~= config.messages.deep_view().push(trace[0].response.deep_view().message));
}

} // verus!
