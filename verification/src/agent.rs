//! The `agent` tool: running a named sub-agent on a task, as a state machine
//! that the caller drives with the model's response events.

use vstd::prelude::*;
use crate::text::{clone_opt, decimal, opt_view, owned, push_decimal, push_str, str_eq, trim, trim_white_space, CharClass};
use rand::Rng;

verus! {

// ---------------------------------------------------------------------------
// Conversation items
// ---------------------------------------------------------------------------

/// One part of a message's content.
#[derive(Debug)]
pub enum ContentItem {
    InputText { text: String },
    InputImage { image_url: String },
    OutputText { text: String },
}

/// An item of the conversation: a message, or any other kind of item.
#[derive(Debug)]
pub enum ResponseItem {
    Message { id: Option<String>, role: String, content: Vec<ContentItem> },
    Other,
}

/// The concatenated output-text parts of `content`.
pub open spec fn output_text_of(content: Seq<ContentItem>) -> Seq<char>
    decreases content.len(),
{
    if content.len() == 0 {
        seq![]
    } else {
        output_text_of(content.drop_last()) + match content.last() {
            ContentItem::OutputText { text } => text@,
            _ => seq![],
        }
    }
}

/// The text an assistant message carries: its output-text parts joined, when
/// the item is an assistant message and that text is not empty.
pub open spec fn assistant_text_of(item: ResponseItem) -> Option<Seq<char>> {
    match item {
        ResponseItem::Message { role, content, .. } => {
            if role@ == "assistant"@ && output_text_of(content@).len() > 0 {
                Some(output_text_of(content@))
            } else {
                None
            }
        },
        ResponseItem::Other => None,
    }
}

/// The text of an assistant message, if it has any.
pub fn assistant_text(item: &ResponseItem) -> (r: Option<String>)
    ensures
        match r {
            Some(t) => assistant_text_of(*item) == Some(t@),
            None => assistant_text_of(*item) is None,
        },
{
    match item {
        ResponseItem::Message { role, content, .. } => {
            if !str_eq(role.as_str(), "assistant") {
                return None;
            }
            let mut buf = String::new();
            let n = content.len();
            let mut i: usize = 0;
            while i < n
                invariant
                    n == content@.len(),
                    i <= n,
                    buf@ == output_text_of(content@.subrange(0, i as int)),
                decreases n - i,
            {
                assert(content@.subrange(0, i + 1).drop_last() =~= content@.subrange(0, i as int));
                match &content[i] {
                    ContentItem::OutputText { text } => push_str(&mut buf, text.as_str()),
                    _ => {},
                }
                i = i + 1;
            }
            assert(content@.subrange(0, n as int) =~= content@);
            if buf.unicode_len() > 0 {
                Some(buf)
            } else {
                None
            }
        },
        ResponseItem::Other => None,
    }
}

// ---------------------------------------------------------------------------
// The tool call
// ---------------------------------------------------------------------------

/// The kind of a tool handler.
#[derive(Debug)]
pub enum ToolKind {
    Function,
}

/// What the model handed to a tool.
pub enum ToolPayload {
    Function { arguments: String },
    Custom { input: String },
}

/// How a tool call failed.
#[derive(Debug)]
pub enum FunctionCallError {
    /// Reported back to the model, which may try again.
    RespondToModel(String),
    /// Ends the turn.
    Fatal(String),
}

/// The arguments of an `agent` call.
pub struct AgentCall {
    pub name: String,
    pub task: String,
    pub context: Option<String>,
    pub plan_item_id: Option<String>,
}

/// The handler of the `agent` tool.
pub struct AgentHandler;

impl AgentHandler {
    /// The `agent` tool is a function tool.
    pub fn kind(&self) -> (k: ToolKind)
        ensures
            k is Function,
    {
        ToolKind::Function
    }
}

/// The arguments of a function payload; any other payload is a fatal error.
pub fn function_arguments(payload: ToolPayload) -> (r: Result<String, FunctionCallError>)
    ensures
        match payload {
            ToolPayload::Function { arguments } => r == Ok::<String, FunctionCallError>(arguments),
            _ => r matches Err(FunctionCallError::Fatal(m)) && m@
                == "agent tool invoked with incompatible payload"@,
        },
{
    match payload {
        ToolPayload::Function { arguments } => Ok(arguments),
        _ => Err(FunctionCallError::Fatal(owned("agent tool invoked with incompatible payload"))),
    }
}

/// The error for arguments that do not parse, given the parser's message.
pub fn invalid_arguments_error(parse_error: &str) -> (e: FunctionCallError)
    ensures
        e matches FunctionCallError::RespondToModel(m) && m@ == "invalid agent call arguments: "@
            + parse_error@,
{
    let mut m = owned("invalid agent call arguments: ");
    push_str(&mut m, parse_error);
    FunctionCallError::RespondToModel(m)
}

/// The persona message that opens the sub-agent's conversation.
pub open spec fn instructions_of(name: Seq<char>, agent_prompt: Seq<char>) -> Seq<char> {
    "You are the \""@ + name + "\" agent.\n"@ + agent_prompt
        + "\n\nDo not delegate to other agents. Provide the result directly."@
}

pub fn agent_instructions(name: &str, agent_prompt: &str) -> (r: String)
    ensures
        r@ == instructions_of(name@, agent_prompt@),
{
    let mut r = owned("You are the \"");
    push_str(&mut r, name);
    push_str(&mut r, "\" agent.\n");
    push_str(&mut r, agent_prompt);
    push_str(&mut r, "\n\nDo not delegate to other agents. Provide the result directly.");
    r
}

/// The task message: the task, followed by the context when the context holds
/// more than white space.
pub open spec fn task_text_of(task: Seq<char>, context: Option<Seq<char>>) -> Seq<char> {
    match context {
        Some(ctx) => if trim(ctx, CharClass::WhiteSpace).len() > 0 {
            task + "\n\nContext:\n"@ + ctx
        } else {
            task
        },
        None => task,
    }
}

pub fn agent_task_text(task: &str, context: &Option<String>) -> (r: String)
    ensures
        r@ == task_text_of(task@, opt_view(*context)),
{
    let mut r = owned(task);
    match context {
        Some(ctx) => {
            let trimmed = trim_white_space(ctx.as_str());
            if trimmed.unicode_len() > 0 {
                push_str(&mut r, "\n\nContext:\n");
                push_str(&mut r, ctx.as_str());
            }
        },
        None => {},
    }
    r
}

/// A user message holding one input-text part.
pub open spec fn is_user_text_message(item: ResponseItem, text: Seq<char>) -> bool {
    match item {
        ResponseItem::Message { id, role, content } => {
            &&& id is None
            &&& role@ == "user"@
            &&& content@.len() == 1
            &&& content@[0] matches ContentItem::InputText { text: t } && t@ == text
        },
        ResponseItem::Other => false,
    }
}

fn user_text_message(text: String) -> (item: ResponseItem)
    ensures
        is_user_text_message(item, text@),
{
    let mut content: Vec<ContentItem> = Vec::new();
    content.push(ContentItem::InputText { text });
    ResponseItem::Message { id: None, role: owned("user"), content }
}

/// Announcement that a sub-agent started.
pub struct AgentBeginEvent {
    pub call_id: String,
    pub agent_name: String,
    pub task: String,
    pub parent_context: Option<String>,
    pub plan_item_id: Option<String>,
}

/// What the caller does before streaming the sub-agent's reply: announce the
/// run, and send the model these input items, with these request settings.
pub struct AgentRunStart {
    pub begin: AgentBeginEvent,
    pub input: Vec<ResponseItem>,
    /// Whether the model may call several tools at once.
    pub parallel_tool_calls: bool,
    /// Instructions that replace the model's base instructions; the persona
    /// goes in a user message instead, as some endpoints reject custom ones.
    pub base_instructions_override: Option<String>,
}

/// Prepares a run of the agent `call.name`, whose registered prompt is
/// `agent_prompt`.
pub fn start_agent_run(call_id: &String, call: &AgentCall, agent_prompt: &str) -> (s:
    AgentRunStart)
    ensures
        s.begin.call_id == *call_id,
        s.begin.agent_name == call.name,
        s.begin.task == call.task,
        s.begin.parent_context is None,
        s.begin.plan_item_id == call.plan_item_id,
        s.input@.len() == 2,
        is_user_text_message(s.input@[0], instructions_of(call.name@, agent_prompt@)),
        is_user_text_message(
            s.input@[1],
            task_text_of(call.task@, opt_view(call.context)),
        ),
        !s.parallel_tool_calls,
        s.base_instructions_override is None,
{
    let begin = AgentBeginEvent {
        call_id: call_id.clone(),
        agent_name: call.name.clone(),
        task: call.task.clone(),
        parent_context: None,
        plan_item_id: clone_opt(&call.plan_item_id),
    };
    let instructions = agent_instructions(call.name.as_str(), agent_prompt);
    let task_text = agent_task_text(call.task.as_str(), &call.context);
    let mut input: Vec<ResponseItem> = Vec::new();
    input.push(user_text_message(instructions));
    input.push(user_text_message(task_text));
    AgentRunStart { begin, input, parallel_tool_calls: false, base_instructions_override: None }
}

// ---------------------------------------------------------------------------
// The registry of agents
// ---------------------------------------------------------------------------

/// A registered agent: its name and its system prompt.
pub struct AgentDefinition {
    pub name: String,
    pub prompt: String,
}

/// The agents a session can run.
pub struct AgentRegistry {
    pub agents: Vec<AgentDefinition>,
}

impl AgentRegistry {
    /// The first agent registered under `name`.
    pub fn get_agent(&self, name: &str) -> (r: Option<&AgentDefinition>)
        ensures
            match r {
                Some(a) => exists|i: int|
                    0 <= i < self.agents@.len() && self.agents@[i] == *a && a.name@ == name@
                        && forall|k: int| 0 <= k < i ==> (#[trigger] self.agents@[k]).name@ != name@,
                None => forall|k: int|
                    0 <= k < self.agents@.len() ==> (#[trigger] self.agents@[k]).name@ != name@,
            },
    {
        let n = self.agents.len();
        let mut i: usize = 0;
        while i < n
            invariant
                n == self.agents@.len(),
                i <= n,
                forall|k: int| 0 <= k < i ==> (#[trigger] self.agents@[k]).name@ != name@,
            decreases n - i,
        {
            if str_eq(self.agents[i].name.as_str(), name) {
                return Some(&self.agents[i]);
            }
            i = i + 1;
        }
        None
    }
}

/// The part of a session the `agent` tool reads.
pub struct Session {
    pub agent_registry: AgentRegistry,
}

/// The session's registry of agents.
pub fn agent_registry(session: &Session) -> (r: &AgentRegistry)
    ensures
        *r == session.agent_registry,
{
    &session.agent_registry
}

// ---------------------------------------------------------------------------
// Tools offered to the sub-agent
// ---------------------------------------------------------------------------

/// The flavour of the patch tool.
#[derive(PartialEq, Eq, Structural, Clone, Copy)]
pub enum ApplyPatchToolType {
    Freeform,
    Function,
}

/// Which tools a turn offers the model.
pub struct ToolsConfig {
    pub apply_patch_tool_type: Option<ApplyPatchToolType>,
    pub web_search_request: bool,
    pub include_view_image_tool: bool,
    pub include_agent_tool: bool,
    pub experimental_supported_tools: Vec<String>,
}

/// The sub-agent gets the parent's tools, except the `agent` tool itself, so
/// that agents cannot recurse.
pub fn sub_agent_tools_config(parent: &ToolsConfig) -> (c: ToolsConfig)
    ensures
        !c.include_agent_tool,
        c.apply_patch_tool_type == parent.apply_patch_tool_type,
        c.web_search_request == parent.web_search_request,
        c.include_view_image_tool == parent.include_view_image_tool,
        c.experimental_supported_tools@ == parent.experimental_supported_tools@,
{
    ToolsConfig {
        apply_patch_tool_type: parent.apply_patch_tool_type,
        web_search_request: parent.web_search_request,
        include_view_image_tool: parent.include_view_image_tool,
        include_agent_tool: false,
        experimental_supported_tools: parent.experimental_supported_tools.clone(),
    }
}

/// A string parameter of a function tool, with its description.
#[derive(Debug, PartialEq)]
pub struct StringProperty {
    pub name: String,
    pub description: String,
}

/// The declaration of the `agent` function tool offered to the model.
#[derive(Debug, PartialEq)]
pub struct AgentToolSpec {
    pub name: String,
    pub description: String,
    pub strict: bool,
    /// The parameters, by name in sorted order; all are strings.
    pub properties: Vec<StringProperty>,
    pub required: Vec<String>,
    pub additional_properties: bool,
    /// Calls of the tool may run in parallel with other tool calls.
    pub supports_parallel_tool_calls: bool,
}

pub open spec fn is_property(p: StringProperty, name: Seq<char>, description: Seq<char>) -> bool {
    p.name@ == name && p.description@ == description
}

/// The `agent` tool: a name and a task are required; a context and a plan
/// item id may be given; no other parameter is accepted.
pub open spec fn is_agent_tool_spec(t: AgentToolSpec) -> bool {
    &&& t.name@ == "agent"@
    &&& t.description@ == "Invoke a named agent with a task to execute."@
    &&& !t.strict
    &&& t.properties@.len() == 4
    &&& is_property(t.properties@[0], "context"@, "Optional additional context the agent should consider."@)
    &&& is_property(t.properties@[1], "name"@, "Registered agent name to run."@)
    &&& is_property(t.properties@[2], "plan_item_id"@, "Optional plan item id associated with this run."@)
    &&& is_property(t.properties@[3], "task"@, "Task or instruction for the agent to complete."@)
    &&& t.required@.len() == 2
    &&& t.required@[0]@ == "name"@
    &&& t.required@[1]@ == "task"@
    &&& !t.additional_properties
    &&& t.supports_parallel_tool_calls
}

fn string_property(name: &str, description: &str) -> (p: StringProperty)
    ensures
        is_property(p, name@, description@),
{
    StringProperty { name: owned(name), description: owned(description) }
}

pub fn create_agent_tool() -> (t: AgentToolSpec)
    ensures
        is_agent_tool_spec(t),
{
    let mut properties: Vec<StringProperty> = Vec::new();
    properties.push(string_property("context", "Optional additional context the agent should consider."));
    properties.push(string_property("name", "Registered agent name to run."));
    properties.push(string_property("plan_item_id", "Optional plan item id associated with this run."));
    properties.push(string_property("task", "Task or instruction for the agent to complete."));
    let mut required: Vec<String> = Vec::new();
    required.push(owned("name"));
    required.push(owned("task"));
    AgentToolSpec {
        name: owned("agent"),
        description: owned("Invoke a named agent with a task to execute."),
        strict: false,
        properties,
        required,
        additional_properties: false,
        supports_parallel_tool_calls: true,
    }
}

/// The `agent` tool, when the configuration offers it.
pub fn agent_tool_for(config: &ToolsConfig) -> (t: Option<AgentToolSpec>)
    ensures
        t is Some <==> config.include_agent_tool,
        t matches Some(spec) ==> is_agent_tool_spec(spec),
{
    if config.include_agent_tool {
        Some(create_agent_tool())
    } else {
        None
    }
}

// ---------------------------------------------------------------------------
// Streaming the reply
// ---------------------------------------------------------------------------

/// The id under which the run's deltas are reported: the call id, or, when
/// that is empty, `agent-call-` and a random number.
pub open spec fn item_id_of(call_id: Seq<char>, random_id: u64) -> Seq<char> {
    if call_id.len() > 0 {
        call_id
    } else {
        "agent-call-"@ + decimal(random_id as nat)
    }
}

pub fn agent_item_id(call_id: &str, random_id: u64) -> (r: String)
    ensures
        r@ == item_id_of(call_id@, random_id),
{
    if call_id.unicode_len() > 0 {
        owned(call_id)
    } else {
        let mut r = owned("agent-call-");
        push_decimal(&mut r, random_id);
        r
    }
}

/// `rand::thread_rng().gen::<u64>()`: a random number; nothing is promised of it.
#[verifier::external_body]
fn random_u64() -> u64 {
    rand::thread_rng().gen::<u64>()
}

/// The id for a run's deltas, drawing a random number when `call_id` is empty.
pub fn new_agent_item_id(call_id: &str) -> (r: String)
    ensures
        exists|random_id: u64| r@ == item_id_of(call_id@, random_id),
        call_id@.len() > 0 ==> r@ == call_id@,
{
    if call_id.unicode_len() > 0 {
        agent_item_id(call_id, 0)
    } else {
        let random_id = random_u64();
        agent_item_id(call_id, random_id)
    }
}

/// An event of the model's streamed reply, with what the run reads of it.
pub enum ResponseEvent {
    Created,
    OutputItemDone(ResponseItem),
    OutputItemAdded(ResponseItem),
    OutputTextDelta(String),
    ReasoningSummaryDelta { delta: String, summary_index: i64 },
    ReasoningSummaryPartAdded { summary_index: i64 },
    ReasoningContentDelta { delta: String, content_index: i64 },
    RateLimits,
    Completed,
    /// The stream failed, with this error text.
    Failed(String),
}

/// What the caller does after handing the run an event.
#[derive(Debug)]
pub enum AgentRunAction {
    /// Nothing to forward; read the next event.
    Continue,
    /// Forward a delta of the agent's message.
    MessageDelta { item_id: String, delta: String },
    /// Forward a delta of a reasoning summary.
    ReasoningSummaryDelta { item_id: String, delta: String, summary_index: i64 },
    /// Forward the start of a new reasoning summary section.
    ReasoningSectionBreak { item_id: String, summary_index: i64 },
    /// Forward a delta of the raw reasoning.
    ReasoningRawDelta { item_id: String, delta: String, content_index: i64 },
    /// Record the rate limits that came with the event.
    UpdateRateLimits,
    /// Record the token usage, and stop reading the stream.
    Complete,
    /// Stop reading the stream and end the call with this error; no end
    /// events are sent.
    Fail(FunctionCallError),
}

/// The message collected so far, after `event`.
pub open spec fn message_after(message: Seq<char>, event: ResponseEvent) -> Seq<char> {
    match event {
        ResponseEvent::OutputItemDone(item) => if message.len() == 0 && assistant_text_of(
            item,
        ) is Some {
            message + assistant_text_of(item)->0
        } else {
            message
        },
        ResponseEvent::OutputItemAdded(item) => if message.len() == 0 && assistant_text_of(
            item,
        ) is Some {
            message + assistant_text_of(item)->0
        } else {
            message
        },
        ResponseEvent::OutputTextDelta(delta) => message + delta@,
        _ => message,
    }
}

/// The action the run answers `event` with.
pub open spec fn action_for(item_id: Seq<char>, event: ResponseEvent, action: AgentRunAction) -> bool {
    match event {
        ResponseEvent::OutputTextDelta(d) => action matches AgentRunAction::MessageDelta {
            item_id: i,
            delta,
        } && i@ == item_id && delta@ == d@,
        ResponseEvent::ReasoningSummaryDelta { delta: d, summary_index: s } => action matches AgentRunAction::ReasoningSummaryDelta {
            item_id: i,
            delta,
            summary_index,
        } && i@ == item_id && delta@ == d@ && summary_index == s,
        ResponseEvent::ReasoningSummaryPartAdded { summary_index: s } => action matches AgentRunAction::ReasoningSectionBreak {
            item_id: i,
            summary_index,
        } && i@ == item_id && summary_index == s,
        ResponseEvent::ReasoningContentDelta { delta: d, content_index: c } => action matches AgentRunAction::ReasoningRawDelta {
            item_id: i,
            delta,
            content_index,
        } && i@ == item_id && delta@ == d@ && content_index == c,
        ResponseEvent::RateLimits => action is UpdateRateLimits,
        ResponseEvent::Completed => action is Complete,
        ResponseEvent::Failed(m) => action matches AgentRunAction::Fail(FunctionCallError::Fatal(e))
            && e@ == m@,
        _ => action is Continue,
    }
}

/// A sub-agent run in progress: the message collected so far, and the id its
/// deltas are reported under.
pub struct AgentRun {
    pub message: String,
    pub item_id: String,
}

impl AgentRun {
    pub fn new(item_id: String) -> (run: AgentRun)
        ensures
            run.message@ == Seq::<char>::empty(),
            run.item_id == item_id,
    {
        AgentRun { message: String::new(), item_id }
    }

    /// Takes in one event of the reply.
    pub fn on_event(&mut self, event: ResponseEvent) -> (action: AgentRunAction)
        ensures
            final(self).message@ == message_after(old(self).message@, event),
            final(self).item_id == old(self).item_id,
            action_for(old(self).item_id@, event, action),
    {
        match event {
            ResponseEvent::Created => AgentRunAction::Continue,
            ResponseEvent::OutputItemDone(item) => {
                self.absorb_item(&item);
                AgentRunAction::Continue
            },
            ResponseEvent::OutputItemAdded(item) => {
                self.absorb_item(&item);
                AgentRunAction::Continue
            },
            ResponseEvent::OutputTextDelta(delta) => {
                push_str(&mut self.message, delta.as_str());
                AgentRunAction::MessageDelta { item_id: self.item_id.clone(), delta }
            },
            ResponseEvent::ReasoningSummaryDelta { delta, summary_index } => {
                AgentRunAction::ReasoningSummaryDelta {
                    item_id: self.item_id.clone(),
                    delta,
                    summary_index,
                }
            },
            ResponseEvent::ReasoningSummaryPartAdded { summary_index } => {
                AgentRunAction::ReasoningSectionBreak { item_id: self.item_id.clone(), summary_index }
            },
            ResponseEvent::ReasoningContentDelta { delta, content_index } => {
                AgentRunAction::ReasoningRawDelta {
                    item_id: self.item_id.clone(),
                    delta,
                    content_index,
                }
            },
            ResponseEvent::RateLimits => AgentRunAction::UpdateRateLimits,
            ResponseEvent::Completed => AgentRunAction::Complete,
            ResponseEvent::Failed(message) => AgentRunAction::Fail(FunctionCallError::Fatal(message)),
        }
    }

    fn absorb_item(&mut self, item: &ResponseItem)
        ensures
            final(self).item_id == old(self).item_id,
            final(self).message@ == (if old(self).message@.len() == 0 && assistant_text_of(
                *item,
            ) is Some {
                old(self).message@ + assistant_text_of(*item)->0
            } else {
                old(self).message@
            }),
    {
        if self.message.unicode_len() == 0 {
            match assistant_text(item) {
                Some(text) => push_str(&mut self.message, text.as_str()),
                None => {},
            }
        }
    }
}

/// The message the run ends with: what was collected, or a fixed notice when
/// nothing was.
pub open spec fn final_message_of(message: Seq<char>) -> Seq<char> {
    if message.len() == 0 {
        "Agent completed without output."@
    } else {
        message
    }
}

/// How the run ended.
#[derive(PartialEq, Eq, Structural, Clone, Copy)]
pub enum AgentStatus {
    Done,
}

/// Announcement that a sub-agent finished.
pub struct AgentEndEvent {
    pub call_id: String,
    pub agent_name: String,
    pub summary: String,
    pub status: AgentStatus,
    pub duration_ms: u64,
    pub plan_item_id: Option<String>,
}

/// What a tool hands back to the model.
pub struct ToolOutput {
    pub content: String,
    pub success: Option<bool>,
}

/// The end of a run: the agent message to show, the end announcement, and
/// the tool's output.
pub struct AgentRunEnd {
    pub message: String,
    pub end: AgentEndEvent,
    pub output: ToolOutput,
}

/// Elapsed milliseconds, saturated at `u64::MAX`.
pub fn duration_ms(elapsed_ms: u128) -> (d: u64)
    ensures
        d == (if elapsed_ms > u64::MAX { u64::MAX as u128 } else { elapsed_ms }),
{
    if elapsed_ms > u64::MAX as u128 {
        u64::MAX
    } else {
        elapsed_ms as u64
    }
}

/// Ends a run that took `elapsed_ms` milliseconds.
pub fn finish_agent_run(run: AgentRun, call_id: String, call: AgentCall, elapsed_ms: u128) -> (e:
    AgentRunEnd)
    ensures
        e.message@ == final_message_of(run.message@),
        e.end.call_id == call_id,
        e.end.agent_name == call.name,
        e.end.summary@ == final_message_of(run.message@),
        e.end.status == AgentStatus::Done,
        e.end.duration_ms == (if elapsed_ms > u64::MAX { u64::MAX as u128 } else { elapsed_ms }),
        e.end.plan_item_id == call.plan_item_id,
        e.output.content@ == final_message_of(run.message@),
        e.output.success == Some(true),
{
    let message = if run.message.unicode_len() == 0 {
        owned("Agent completed without output.")
    } else {
        run.message
    };
    let end = AgentEndEvent {
        call_id,
        agent_name: call.name,
        summary: message.clone(),
        status: AgentStatus::Done,
        duration_ms: duration_ms(elapsed_ms),
        plan_item_id: call.plan_item_id,
    };
    let output = ToolOutput { content: message.clone(), success: Some(true) };
    AgentRunEnd { message, end, output }
}

// ---------------------------------------------------------------------------
// Context lines
// ---------------------------------------------------------------------------

/// `- {agent_id}: {nickname}`, or `- {agent_id}` without a non-empty nickname.
pub open spec fn context_line_of(agent_id: Seq<char>, nickname: Option<Seq<char>>) -> Seq<char> {
    match nickname {
        Some(n) => if n.len() > 0 {
            "- "@ + agent_id + ": "@ + n
        } else {
            "- "@ + agent_id
        },
        None => "- "@ + agent_id,
    }
}

pub fn format_subagent_context_line(agent_id: &str, agent_nickname: Option<&str>) -> (r: String)
    ensures
        r@ == context_line_of(
            agent_id@,
            match agent_nickname {
                Some(n) => Some(n@),
                None => None,
            },
        ),
{
    let mut r = owned("- ");
    push_str(&mut r, agent_id);
    match agent_nickname {
        Some(n) => {
            if n.unicode_len() > 0 {
                push_str(&mut r, ": ");
                push_str(&mut r, n);
            }
        },
        None => {},
    }
    r
}

} // verus!
