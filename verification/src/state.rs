//! The conversation state that flows through an agent graph: messages, the
//! context store, pending tool calls and the run's bookkeeping.

use vstd::prelude::*;
use crate::json::{
    find_member, lemma_lookup_put, lookup, member, members_view, put, put_member, text_list, Json,
    JsonView,
};
use crate::text::{join2, lowered, to_lowercase};

verus! {

/// The kind of agent that handles a conversation.
#[derive(Debug, Clone, Copy, PartialEq, Eq, Structural)]
pub enum AgentType {
    /// Guides administrators through setup and configuration.
    AdminSetup,
    /// Helps users understand how to use the product's features.
    UsageAssistant,
    /// Diagnoses and resolves common issues.
    Troubleshoot,
    /// Provides optimization tips and best practices.
    BestPractices,
    /// Navigates and explains the documentation.
    DocsHelper,
}

/// What the admin setup guide says of itself.
pub const ADMIN_SETUP_DESCRIPTION: &'static str =
    "I help administrators set up and configure IBM WatsonX Orchestrate. \
I can guide you through initial setup, user management, integrations, \
and security configuration.";

/// What the usage assistant says of itself.
pub const USAGE_ASSISTANT_DESCRIPTION: &'static str =
    "I help you understand how to use WatsonX Orchestrate effectively. \
Ask me about creating skills, building automations, or using the catalog.";

/// What the troubleshooting bot says of itself.
pub const TROUBLESHOOT_DESCRIPTION: &'static str =
    "I help diagnose and resolve issues with WatsonX Orchestrate. \
Describe your problem and I'll help you find a solution.";

/// What the best practices coach says of itself.
pub const BEST_PRACTICES_DESCRIPTION: &'static str =
    "I provide optimization tips and best practices for WatsonX Orchestrate. \
I can help you design better workflows and improve performance.";

/// What the documentation helper says of itself.
pub const DOCS_HELPER_DESCRIPTION: &'static str =
    "I help you navigate and understand WatsonX Orchestrate documentation. \
Ask me about any feature and I'll find the relevant docs.";

/// The system prompt of the admin setup guide.
pub const ADMIN_SETUP_PROMPT: &'static str =
    "You are the Admin Setup Guide for IBM WatsonX Orchestrate. \
Guide administrators through initial setup, user management, integrations \
and security configuration. Give numbered steps and name the settings page \
for each of them.";

/// The system prompt of the usage assistant.
pub const USAGE_ASSISTANT_PROMPT: &'static str =
    "You are the Usage Assistant for IBM WatsonX Orchestrate. \
Explain how to create skills, build automations and use the catalog. \
Prefer short examples to long explanations.";

/// The system prompt of the troubleshooting bot.
pub const TROUBLESHOOT_PROMPT: &'static str =
    "You are the Troubleshooting Bot for IBM WatsonX Orchestrate. \
Ask for the symptoms, name the likely causes, and give the checks to run, \
most likely cause first.";

/// The system prompt of the best practices coach.
pub const BEST_PRACTICES_PROMPT: &'static str =
    "You are the Best Practices Coach for IBM WatsonX Orchestrate. \
Recommend ways to design workflows, improve performance and keep a \
deployment secure, and say why each recommendation matters.";

/// The system prompt of the documentation helper.
pub const DOCS_HELPER_PROMPT: &'static str =
    "You are the Documentation Helper for IBM WatsonX Orchestrate. \
Point to the section of the documentation that answers the question and \
summarise what it says.";

/// All agent types, in declaration order.
pub const ALL_AGENT_TYPES: [AgentType; 5] = [
    AgentType::AdminSetup,
    AgentType::UsageAssistant,
    AgentType::Troubleshoot,
    AgentType::BestPractices,
    AgentType::DocsHelper,
];

impl AgentType {
    /// The display name of each agent type.
    pub open spec fn display_name_text(self) -> Seq<char> {
        match self {
            AgentType::AdminSetup => "Admin Setup Guide"@,
            AgentType::UsageAssistant => "Usage Assistant"@,
            AgentType::Troubleshoot => "Troubleshooting Bot"@,
            AgentType::BestPractices => "Best Practices Coach"@,
            AgentType::DocsHelper => "Documentation Helper"@,
        }
    }

    /// The description of each agent type.
    pub open spec fn description_text(self) -> Seq<char> {
        match self {
            AgentType::AdminSetup => ADMIN_SETUP_DESCRIPTION@,
            AgentType::UsageAssistant => USAGE_ASSISTANT_DESCRIPTION@,
            AgentType::Troubleshoot => TROUBLESHOOT_DESCRIPTION@,
            AgentType::BestPractices => BEST_PRACTICES_DESCRIPTION@,
            AgentType::DocsHelper => DOCS_HELPER_DESCRIPTION@,
        }
    }

    /// The system prompt of each agent type.
    pub open spec fn system_prompt_text(self) -> Seq<char> {
        match self {
            AgentType::AdminSetup => ADMIN_SETUP_PROMPT@,
            AgentType::UsageAssistant => USAGE_ASSISTANT_PROMPT@,
            AgentType::Troubleshoot => TROUBLESHOOT_PROMPT@,
            AgentType::BestPractices => BEST_PRACTICES_PROMPT@,
            AgentType::DocsHelper => DOCS_HELPER_PROMPT@,
        }
    }

    /// The agent type that a lowercase name stands for.
    pub open spec fn named(lower: Seq<char>) -> Option<AgentType> {
        if lower == "admin-setup"@ || lower == "admin_setup"@ || lower == "adminsetup"@ {
            Some(AgentType::AdminSetup)
        } else if lower == "usage"@ || lower == "usage-assistant"@ || lower == "usage_assistant"@ {
            Some(AgentType::UsageAssistant)
        } else if lower == "troubleshoot"@ || lower == "troubleshooting"@ {
            Some(AgentType::Troubleshoot)
        } else if lower == "best-practices"@ || lower == "best_practices"@ || lower
            == "bestpractices"@ {
            Some(AgentType::BestPractices)
        } else if lower == "docs"@ || lower == "docs-helper"@ || lower == "docs_helper"@ || lower
            == "documentation"@ {
            Some(AgentType::DocsHelper)
        } else {
            None
        }
    }

    /// The display name of this agent type.
    pub fn display_name(&self) -> (r: &'static str)
        ensures
            r@ == self.display_name_text(),
    {
        match self {
            AgentType::AdminSetup => "Admin Setup Guide",
            AgentType::UsageAssistant => "Usage Assistant",
            AgentType::Troubleshoot => "Troubleshooting Bot",
            AgentType::BestPractices => "Best Practices Coach",
            AgentType::DocsHelper => "Documentation Helper",
        }
    }

    /// What this agent does, in a sentence or two.
    pub fn description(&self) -> (r: &'static str)
        ensures
            r@ == self.description_text(),
    {
        match self {
            AgentType::AdminSetup => ADMIN_SETUP_DESCRIPTION,
            AgentType::UsageAssistant => USAGE_ASSISTANT_DESCRIPTION,
            AgentType::Troubleshoot => TROUBLESHOOT_DESCRIPTION,
            AgentType::BestPractices => BEST_PRACTICES_DESCRIPTION,
            AgentType::DocsHelper => DOCS_HELPER_DESCRIPTION,
        }
    }

    /// The system prompt of this agent type.
    pub fn system_prompt(&self) -> (r: &'static str)
        ensures
            r@ == self.system_prompt_text(),
    {
        match self {
            AgentType::AdminSetup => ADMIN_SETUP_PROMPT,
            AgentType::UsageAssistant => USAGE_ASSISTANT_PROMPT,
            AgentType::Troubleshoot => TROUBLESHOOT_PROMPT,
            AgentType::BestPractices => BEST_PRACTICES_PROMPT,
            AgentType::DocsHelper => DOCS_HELPER_PROMPT,
        }
    }

    /// All agent types, in declaration order.
    pub fn all() -> (r: &'static [AgentType])
        ensures
            r@ == ALL_AGENT_TYPES@,
    {
        &ALL_AGENT_TYPES
    }

    /// The display name as an owned string.
    pub fn to_string(&self) -> (r: String)
        ensures
            r@ == self.display_name_text(),
    {
        self.display_name().to_string()
    }

    /// Reads an agent type from one of its names, in any letter case. An
    /// unknown name is returned in the error text.
    pub fn parse_name(s: &str) -> (r: Result<AgentType, String>)
        ensures
            match r {
                Ok(t) => AgentType::named(lowered(s@)) == Some(t),
                Err(e) => AgentType::named(lowered(s@)) is None && e@ == "Unknown agent type: "@
                    + s@,
            },
    {
        let lower = to_lowercase(s);
        let l = lower.as_str();
        if same(l, "admin-setup") || same(l, "admin_setup") || same(l, "adminsetup") {
            Ok(AgentType::AdminSetup)
        } else if same(l, "usage") || same(l, "usage-assistant") || same(l, "usage_assistant") {
            Ok(AgentType::UsageAssistant)
        } else if same(l, "troubleshoot") || same(l, "troubleshooting") {
            Ok(AgentType::Troubleshoot)
        } else if same(l, "best-practices") || same(l, "best_practices") || same(
            l,
            "bestpractices",
        ) {
            Ok(AgentType::BestPractices)
        } else if same(l, "docs") || same(l, "docs-helper") || same(l, "docs_helper") || same(
            l,
            "documentation",
        ) {
            Ok(AgentType::DocsHelper)
        } else {
            Err(join2("Unknown agent type: ", s))
        }
    }
}

fn same(a: &str, b: &str) -> (r: bool)
    ensures
        r == (a@ == b@),
{
    crate::text::same_text(a, b)
}

impl Default for AgentType {
    fn default() -> (r: AgentType)
        ensures
            r == AgentType::AdminSetup,
    {
        AgentType::AdminSetup
    }
}

impl std::str::FromStr for AgentType {
    type Err = String;

    fn from_str(s: &str) -> (r: Result<AgentType, String>)
        ensures
            match r {
                Ok(t) => AgentType::named(lowered(s@)) == Some(t),
                Err(e) => AgentType::named(lowered(s@)) is None && e@ == "Unknown agent type: "@
                    + s@,
            },
    {
        AgentType::parse_name(s)
    }
}

/// Who sent a message.
#[derive(Debug, Clone, Copy, PartialEq, Eq, Structural)]
pub enum MessageRole {
    /// System instructions.
    System,
    /// User input.
    User,
    /// Assistant response.
    Assistant,
    /// Tool result.
    Tool,
}

/// Generates an identifier with `uuid::Uuid::new_v4` and writes it with
/// `to_string`, which gives the hyphenated form of 36 characters. Which
/// identifier comes out is left open.
#[verifier::external_body]
pub(crate) fn fresh_id() -> (r: String)
    ensures
        r@.len() == 36,
{
    uuid::Uuid::new_v4().to_string()
}

/// Reads the clock with `chrono::Utc::now` and gives the time as
/// milliseconds since the Unix epoch (`timestamp_millis`). Nothing is
/// claimed of the value. `Utc::now` does not return where the system clock
/// stands before the epoch.
#[verifier::external_body]
pub(crate) fn now_millis() -> (r: i64) {
    chrono::Utc::now().timestamp_millis()
}

/// The view of an optional string.
pub open spec fn opt_text(o: Option<String>) -> Option<Seq<char>> {
    match o {
        Some(s) => Some(s@),
        None => None,
    }
}

/// A message in the conversation.
#[derive(Debug, Clone)]
pub struct Message {
    /// Unique message identifier.
    pub id: String,
    /// Role of the sender.
    pub role: MessageRole,
    /// Content of the message.
    pub content: String,
    /// When the message was created, in milliseconds since the Unix epoch.
    pub timestamp: i64,
    /// The tool call that a tool message answers.
    pub tool_call_id: Option<String>,
    /// The tool's name, for tool calls.
    pub tool_name: Option<String>,
}

/// The mathematical value of a [`Message`].
pub struct MessageView {
    pub id: Seq<char>,
    pub role: MessageRole,
    pub content: Seq<char>,
    pub timestamp: int,
    pub tool_call_id: Option<Seq<char>>,
    pub tool_name: Option<Seq<char>>,
}

impl View for Message {
    type V = MessageView;

    open spec fn view(&self) -> MessageView {
        MessageView {
            id: self.id@,
            role: self.role,
            content: self.content@,
            timestamp: self.timestamp as int,
            tool_call_id: opt_text(self.tool_call_id),
            tool_name: opt_text(self.tool_name),
        }
    }
}

impl MessageView {
    /// A message that answers no tool call.
    pub open spec fn plain(
        id: Seq<char>,
        role: MessageRole,
        content: Seq<char>,
        timestamp: int,
    ) -> MessageView {
        MessageView { id, role, content, timestamp, tool_call_id: None, tool_name: None }
    }

    /// A tool message that answers the call `tool_call_id`.
    pub open spec fn answer(
        id: Seq<char>,
        tool_call_id: Seq<char>,
        content: Seq<char>,
        timestamp: int,
    ) -> MessageView {
        MessageView {
            id,
            role: MessageRole::Tool,
            content,
            timestamp,
            tool_call_id: Some(tool_call_id),
            tool_name: None,
        }
    }
}

impl Message {
    /// A message with every part given.
    pub fn stamped(id: String, timestamp: i64, role: MessageRole, content: &str) -> (r: Message)
        ensures
            r@ == MessageView::plain(id@, role, content@, timestamp as int),
    {
        Message { id, role, content: content.to_string(), timestamp, tool_call_id: None, tool_name: None }
    }

    /// A tool message with every part given.
    pub fn stamped_answer(id: String, timestamp: i64, tool_call_id: &str, content: &str) -> (r:
        Message)
        ensures
            r@ == MessageView::answer(id@, tool_call_id@, content@, timestamp as int),
    {
        Message {
            id,
            role: MessageRole::Tool,
            content: content.to_string(),
            timestamp,
            tool_call_id: Some(tool_call_id.to_string()),
            tool_name: None,
        }
    }

    /// A new user message, with a fresh identifier and the current time.
    pub fn user(content: &str) -> (r: Message)
        ensures
            r@ == MessageView::plain(r@.id, MessageRole::User, content@, r@.timestamp),
    {
        Message::stamped(fresh_id(), now_millis(), MessageRole::User, content)
    }

    /// A new assistant message, with a fresh identifier and the current time.
    pub fn assistant(content: &str) -> (r: Message)
        ensures
            r@ == MessageView::plain(r@.id, MessageRole::Assistant, content@, r@.timestamp),
    {
        Message::stamped(fresh_id(), now_millis(), MessageRole::Assistant, content)
    }

    /// A new system message, with a fresh identifier and the current time.
    pub fn system(content: &str) -> (r: Message)
        ensures
            r@ == MessageView::plain(r@.id, MessageRole::System, content@, r@.timestamp),
    {
        Message::stamped(fresh_id(), now_millis(), MessageRole::System, content)
    }

    /// A new tool-result message for the call `tool_call_id`, with a fresh
    /// identifier and the current time.
    pub fn tool_result(tool_call_id: &str, content: &str) -> (r: Message)
        ensures
            r@ == MessageView::answer(r@.id, tool_call_id@, content@, r@.timestamp),
    {
        Message::stamped_answer(fresh_id(), now_millis(), tool_call_id, content)
    }
}

/// A reference to a documentation section.
#[derive(Debug, Clone)]
pub struct DocReference {
    /// Document title.
    pub title: String,
    /// Document URL or path.
    pub url: String,
    /// Relevance in hundredths, from 0 to 100.
    pub relevance: u32,
    /// Brief excerpt from the document.
    pub excerpt: Option<String>,
}

/// The mathematical value of a [`DocReference`].
pub struct DocReferenceView {
    pub title: Seq<char>,
    pub url: Seq<char>,
    pub relevance: nat,
    pub excerpt: Option<Seq<char>>,
}

impl View for DocReference {
    type V = DocReferenceView;

    open spec fn view(&self) -> DocReferenceView {
        DocReferenceView {
            title: self.title@,
            url: self.url@,
            relevance: self.relevance as nat,
            excerpt: opt_text(self.excerpt),
        }
    }
}

/// A pending tool call.
#[derive(Debug, Clone)]
pub struct PendingToolCall {
    /// Unique identifier of this call.
    pub id: String,
    /// Name of the tool to call.
    pub name: String,
    /// Arguments to pass to the tool.
    pub arguments: Json,
}

/// The mathematical value of a [`PendingToolCall`].
pub struct ToolCallView {
    pub id: Seq<char>,
    pub name: Seq<char>,
    pub arguments: JsonView,
}

impl View for PendingToolCall {
    type V = ToolCallView;

    open spec fn view(&self) -> ToolCallView {
        ToolCallView { id: self.id@, name: self.name@, arguments: self.arguments@ }
    }
}

/// What is known of the user's environment, and the context store that the
/// nodes of one run share.
#[derive(Debug, Clone)]
pub struct WxoContext {
    /// The user's role (admin, developer, end-user).
    pub user_role: Option<String>,
    /// Current topic being discussed.
    pub current_topic: Option<String>,
    /// Relevant documentation sections found.
    pub relevant_docs: Vec<DocReference>,
    /// The user's product version, if known.
    pub wxo_version: Option<String>,
    /// The user's deployment type (SaaS, on-prem, ...).
    pub deployment_type: Option<String>,
    /// Key-value store for what one node tells another.
    pub metadata: Vec<(String, Json)>,
}

/// The mathematical value of a [`WxoContext`].
pub struct ContextView {
    pub user_role: Option<Seq<char>>,
    pub current_topic: Option<Seq<char>>,
    pub relevant_docs: Seq<DocReferenceView>,
    pub wxo_version: Option<Seq<char>>,
    pub deployment_type: Option<Seq<char>>,
    pub metadata: Seq<(Seq<char>, JsonView)>,
}

impl ContextView {
    /// A context in which nothing is known and nothing is stored.
    pub open spec fn empty() -> ContextView {
        ContextView {
            user_role: None,
            current_topic: None,
            relevant_docs: Seq::empty(),
            wxo_version: None,
            deployment_type: None,
            metadata: Seq::empty(),
        }
    }
}

impl View for WxoContext {
    type V = ContextView;

    open spec fn view(&self) -> ContextView {
        ContextView {
            user_role: opt_text(self.user_role),
            current_topic: opt_text(self.current_topic),
            relevant_docs: self.relevant_docs@.map_values(|d: DocReference| d@),
            wxo_version: opt_text(self.wxo_version),
            deployment_type: opt_text(self.deployment_type),
            metadata: members_view(self.metadata@),
        }
    }
}

impl Default for WxoContext {
    fn default() -> (r: WxoContext)
        ensures
            r@ == ContextView::empty(),
    {
        let r = WxoContext {
            user_role: None,
            current_topic: None,
            relevant_docs: Vec::new(),
            wxo_version: None,
            deployment_type: None,
            metadata: Vec::new(),
        };
        assert(r@.relevant_docs =~= Seq::empty());
        assert(r@.metadata =~= Seq::empty());
        r
    }
}

/// The views of a run of messages.
pub open spec fn messages_view(messages: Seq<Message>) -> Seq<MessageView> {
    messages.map_values(|m: Message| m@)
}

/// The views of a run of tool calls.
pub open spec fn calls_view(calls: Seq<PendingToolCall>) -> Seq<ToolCallView> {
    calls.map_values(|c: PendingToolCall| c@)
}

/// The state of one conversation.
#[derive(Debug, Clone)]
pub struct WxorcaState {
    /// Unique session identifier.
    pub session_id: String,
    /// The kind of agent handling this conversation.
    pub agent_type: AgentType,
    /// Conversation messages, oldest first.
    pub messages: Vec<Message>,
    /// Environment and context store.
    pub context: WxoContext,
    /// Number of node executions so far.
    pub iteration: usize,
    /// Whether the conversation is complete.
    pub is_complete: bool,
    /// Tool calls waiting to be executed, oldest first.
    pub pending_tool_calls: Vec<PendingToolCall>,
    /// When this state was created, in milliseconds since the Unix epoch.
    pub created_at: i64,
    /// When this state was last changed.
    pub updated_at: i64,
}

/// The mathematical value of a [`WxorcaState`].
pub struct StateView {
    pub session_id: Seq<char>,
    pub agent_type: AgentType,
    pub messages: Seq<MessageView>,
    pub context: ContextView,
    pub iteration: nat,
    pub is_complete: bool,
    pub pending_tool_calls: Seq<ToolCallView>,
    pub created_at: int,
    pub updated_at: int,
}

impl View for WxorcaState {
    type V = StateView;

    open spec fn view(&self) -> StateView {
        StateView {
            session_id: self.session_id@,
            agent_type: self.agent_type,
            messages: messages_view(self.messages@),
            context: self.context@,
            iteration: self.iteration as nat,
            is_complete: self.is_complete,
            pending_tool_calls: calls_view(self.pending_tool_calls@),
            created_at: self.created_at as int,
            updated_at: self.updated_at as int,
        }
    }
}

/// The position of the last message before `upto` that has the role
/// `role`, or -1 where there is none.
pub open spec fn last_with_role(messages: Seq<MessageView>, role: MessageRole, upto: int) -> int
    decreases upto,
{
    if upto <= 0 || upto > messages.len() {
        -1
    } else if messages[upto - 1].role == role {
        upto - 1
    } else {
        last_with_role(messages, role, upto - 1)
    }
}

impl StateView {
    /// A state as it is created: no messages, no calls, nothing stored.
    pub open spec fn fresh(session_id: Seq<char>, agent_type: AgentType, now: int) -> StateView {
        StateView {
            session_id,
            agent_type,
            messages: Seq::empty(),
            context: ContextView::empty(),
            iteration: 0,
            is_complete: false,
            pending_tool_calls: Seq::empty(),
            created_at: now,
            updated_at: now,
        }
    }

    /// The same state, last changed at `now`.
    pub open spec fn touched(self, now: int) -> StateView {
        StateView { updated_at: now, ..self }
    }

    /// The state after the message `m` has been appended at time `now`.
    pub open spec fn with_message(self, m: MessageView, now: int) -> StateView {
        StateView { messages: self.messages.push(m), updated_at: now, ..self }
    }

    /// The state after the call `c` has been queued at time `now`.
    pub open spec fn with_tool_call(self, c: ToolCallView, now: int) -> StateView {
        StateView { pending_tool_calls: self.pending_tool_calls.push(c), updated_at: now, ..self }
    }

    /// The state after the queue of calls has been emptied at time `now`.
    pub open spec fn without_tool_calls(self, now: int) -> StateView {
        StateView { pending_tool_calls: Seq::empty(), updated_at: now, ..self }
    }

    /// The state after it has been marked complete at time `now`.
    pub open spec fn completed(self, now: int) -> StateView {
        StateView { is_complete: true, updated_at: now, ..self }
    }

    /// The state after one more node execution has been counted.
    pub open spec fn advanced(self, now: int) -> StateView {
        StateView { iteration: self.iteration + 1, updated_at: now, ..self }
    }

    /// The state after `key` has been given the value `value` in the store.
    pub open spec fn with_metadata(self, key: Seq<char>, value: JsonView, now: int) -> StateView {
        StateView {
            context: ContextView { metadata: put(
                self.context.metadata,
                key,
                value,
            ), ..self.context },
            updated_at: now,
            ..self
        }
    }

    /// What the store holds under `key`.
    pub open spec fn metadata_at(self, key: Seq<char>) -> Option<JsonView> {
        lookup(self.context.metadata, key)
    }

    /// The text that the store holds under `key`, or `default` where the
    /// key is missing or its value is no string.
    pub open spec fn text_or(self, key: Seq<char>, default: Seq<char>) -> Seq<char> {
        match self.metadata_at(key) {
            Some(JsonView::Text(s)) => s,
            _ => default,
        }
    }

    /// The truth value that the store holds under `key`, or `default` where
    /// the key is missing or its value is no boolean.
    pub open spec fn flag_or(self, key: Seq<char>, default: bool) -> bool {
        match self.metadata_at(key) {
            Some(JsonView::Bool(b)) => b,
            _ => default,
        }
    }

    /// The position of the last message with the role `role`, or -1.
    pub open spec fn last_of(self, role: MessageRole) -> int {
        last_with_role(self.messages, role, self.messages.len() as int)
    }

    /// Tool calls are waiting.
    pub open spec fn has_pending(self) -> bool {
        self.pending_tool_calls.len() > 0
    }
}

impl WxorcaState {
    /// A new state with every part given.
    pub fn created(agent_type: AgentType, session_id: String, now: i64) -> (r: WxorcaState)
        ensures
            r@ == StateView::fresh(session_id@, agent_type, now as int),
    {
        let r = WxorcaState {
            session_id,
            agent_type,
            messages: Vec::new(),
            context: WxoContext::default(),
            iteration: 0,
            is_complete: false,
            pending_tool_calls: Vec::new(),
            created_at: now,
            updated_at: now,
        };
        assert(r@.messages =~= Seq::empty());
        assert(r@.pending_tool_calls =~= Seq::empty());
        r
    }

    /// A new state for the given agent type, with a fresh session
    /// identifier and the current time.
    pub fn new(agent_type: AgentType) -> (r: WxorcaState)
        ensures
            r@ == StateView::fresh(r@.session_id, agent_type, r@.created_at),
            r@.session_id.len() == 36,
    {
        let now = now_millis();
        WxorcaState::created(agent_type, fresh_id(), now)
    }

    /// A new state with the given session identifier and the current time.
    pub fn with_session_id(agent_type: AgentType, session_id: &str) -> (r: WxorcaState)
        ensures
            r@ == StateView::fresh(session_id@, agent_type, r@.created_at),
    {
        let now = now_millis();
        WxorcaState::created(agent_type, session_id.to_string(), now)
    }

    /// Appends a message and records the time of the change.
    pub fn push_message(&mut self, message: Message, now: i64)
        ensures
            final(self)@ == old(self)@.with_message(message@, now as int),
    {
        self.messages.push(message);
        self.updated_at = now;
        assert(self@.messages =~= old(self)@.messages.push(message@));
    }

    /// Appends a user message.
    pub fn add_user_message(&mut self, content: &str)
        ensures
            final(self)@.messages.len() == old(self)@.messages.len() + 1,
            final(self)@ == old(self)@.with_message(
                MessageView::plain(
                    final(self)@.messages.last().id,
                    MessageRole::User,
                    content@,
                    final(self)@.messages.last().timestamp,
                ),
                final(self)@.updated_at,
            ),
    {
        let m = Message::user(content);
        self.push_message(m, now_millis());
    }

    /// Appends an assistant message.
    pub fn add_assistant_message(&mut self, content: &str)
        ensures
            final(self)@.messages.len() == old(self)@.messages.len() + 1,
            final(self)@ == old(self)@.with_message(
                MessageView::plain(
                    final(self)@.messages.last().id,
                    MessageRole::Assistant,
                    content@,
                    final(self)@.messages.last().timestamp,
                ),
                final(self)@.updated_at,
            ),
    {
        let m = Message::assistant(content);
        self.push_message(m, now_millis());
    }

    /// Appends the result of the tool call `tool_call_id`.
    pub fn add_tool_result(&mut self, tool_call_id: &str, result: &str)
        ensures
            final(self)@.messages.len() == old(self)@.messages.len() + 1,
            final(self)@ == old(self)@.with_message(
                MessageView::answer(
                    final(self)@.messages.last().id,
                    tool_call_id@,
                    result@,
                    final(self)@.messages.last().timestamp,
                ),
                final(self)@.updated_at,
            ),
    {
        let m = Message::tool_result(tool_call_id, result);
        self.push_message(m, now_millis());
    }

    /// The most recent message with the given role.
    pub fn last_message_of(&self, role: MessageRole) -> (r: Option<&Message>)
        ensures
            match r {
                Some(m) => 0 <= self@.last_of(role) && m@ == self@.messages[self@.last_of(role)],
                None => self@.last_of(role) == -1,
            },
    {
        let mut i: usize = self.messages.len();
        while i > 0
            invariant
                i <= self.messages.len(),
                self@.last_of(role) == last_with_role(self@.messages, role, i as int),
            decreases i,
        {
            if self.messages[i - 1].role == role {
                return Some(&self.messages[i - 1]);
            }
            i -= 1;
        }
        None
    }

    /// The most recent user message.
    pub fn last_user_message(&self) -> (r: Option<&Message>)
        ensures
            match r {
                Some(m) => 0 <= self@.last_of(MessageRole::User) && m@ == self@.messages[self@.last_of(
                    MessageRole::User,
                )],
                None => self@.last_of(MessageRole::User) == -1,
            },
    {
        self.last_message_of(MessageRole::User)
    }

    /// The most recent assistant message.
    pub fn last_assistant_message(&self) -> (r: Option<&Message>)
        ensures
            match r {
                Some(m) => 0 <= self@.last_of(MessageRole::Assistant) && m@
                    == self@.messages[self@.last_of(MessageRole::Assistant)],
                None => self@.last_of(MessageRole::Assistant) == -1,
            },
    {
        self.last_message_of(MessageRole::Assistant)
    }

    /// Whether tool calls are waiting.
    pub fn has_pending_tool_calls(&self) -> (r: bool)
        ensures
            r == self@.has_pending(),
    {
        self.pending_tool_calls.len() > 0
    }

    /// Empties the queue of tool calls at the given time.
    pub fn clear_tool_calls_at(&mut self, now: i64)
        ensures
            final(self)@ == old(self)@.without_tool_calls(now as int),
    {
        self.pending_tool_calls.clear();
        self.updated_at = now;
        assert(self@.pending_tool_calls =~= Seq::empty());
    }

    /// Empties the queue of tool calls.
    pub fn clear_tool_calls(&mut self)
        ensures
            final(self)@ == old(self)@.without_tool_calls(final(self)@.updated_at),
    {
        self.clear_tool_calls_at(now_millis());
    }

    /// Queues a tool call at the given time.
    pub fn add_tool_call_at(&mut self, id: &str, name: &str, arguments: Json, now: i64)
        ensures
            final(self)@ == old(self)@.with_tool_call(
                ToolCallView { id: id@, name: name@, arguments: arguments@ },
                now as int,
            ),
    {
        let call = PendingToolCall { id: id.to_string(), name: name.to_string(), arguments };
        self.pending_tool_calls.push(call);
        self.updated_at = now;
        assert(self@.pending_tool_calls =~= old(self)@.pending_tool_calls.push(call@));
    }

    /// Queues a tool call.
    pub fn add_tool_call(&mut self, id: &str, name: &str, arguments: Json)
        ensures
            final(self)@ == old(self)@.with_tool_call(
                ToolCallView { id: id@, name: name@, arguments: arguments@ },
                final(self)@.updated_at,
            ),
    {
        self.add_tool_call_at(id, name, arguments, now_millis());
    }

    /// Marks the conversation complete at the given time.
    pub fn mark_complete_at(&mut self, now: i64)
        ensures
            final(self)@ == old(self)@.completed(now as int),
    {
        self.is_complete = true;
        self.updated_at = now;
    }

    /// Marks the conversation complete. A second call changes nothing but
    /// the time of the last change.
    pub fn mark_complete(&mut self)
        ensures
            final(self)@ == old(self)@.completed(final(self)@.updated_at),
    {
        self.mark_complete_at(now_millis());
    }

    /// Counts one more node execution at the given time.
    pub fn increment_iteration_at(&mut self, now: i64)
        requires
            old(self).iteration < usize::MAX,
        ensures
            final(self)@ == old(self)@.advanced(now as int),
    {
        self.iteration += 1;
        self.updated_at = now;
    }

    /// Counts one more node execution.
    pub fn increment_iteration(&mut self)
        requires
            old(self).iteration < usize::MAX,
        ensures
            final(self)@ == old(self)@.advanced(final(self)@.updated_at),
    {
        self.increment_iteration_at(now_millis());
    }

    /// Stores a value in the context store at the given time.
    pub fn set_metadata_at(&mut self, key: &str, value: Json, now: i64)
        ensures
            final(self)@ == old(self)@.with_metadata(key@, value@, now as int),
    {
        put_member(&mut self.context.metadata, key, value);
        self.updated_at = now;
    }

    /// Stores a value in the context store.
    pub fn set_metadata(&mut self, key: &str, value: Json)
        ensures
            final(self)@ == old(self)@.with_metadata(key@, value@, final(self)@.updated_at),
    {
        self.set_metadata_at(key, value, now_millis());
    }

    /// What the context store holds under `key`.
    pub fn get_metadata(&self, key: &str) -> (r: Option<&Json>)
        ensures
            match r {
                Some(j) => self@.metadata_at(key@) == Some(j@),
                None => self@.metadata_at(key@) is None,
            },
    {
        find_member(&self.context.metadata, key)
    }

    /// The text stored under `key`, or `default` where the key is missing
    /// or its value is no string.
    pub fn metadata_text_or(&self, key: &str, default: &str) -> (r: String)
        ensures
            r@ == self@.text_or(key@, default@),
    {
        match self.get_metadata(key) {
            Some(Json::Text(s)) => s.clone(),
            _ => default.to_string(),
        }
    }

    /// The truth value stored under `key`, or `default` where the key is
    /// missing or its value is no boolean.
    pub fn metadata_flag_or(&self, key: &str, default: bool) -> (r: bool)
        ensures
            r == self@.flag_or(key@, default),
    {
        match self.get_metadata(key) {
            Some(Json::Bool(b)) => *b,
            _ => default,
        }
    }
}

/// The JSON schema of a state.
pub open spec fn state_schema() -> JsonView {
    JsonView::Object(
        seq![
            ("type"@, JsonView::Text("object"@)),
            (
                "properties"@,
                JsonView::Object(
                    seq![
                        ("session_id"@, typed("string"@)),
                        ("agent_type"@, typed("string"@)),
                        (
                            "messages"@,
                            JsonView::Object(
                                seq![
                                    ("type"@, JsonView::Text("array"@)),
                                    ("items"@, typed("object"@)),
                                ],
                            ),
                        ),
                        ("context"@, typed("object"@)),
                        ("iteration"@, typed("integer"@)),
                        ("is_complete"@, typed("boolean"@)),
                    ],
                ),
            ),
            ("required"@, text_list(seq!["session_id"@, "agent_type"@])),
        ],
    )
}

/// The schema of a value of the type `name`.
pub open spec fn typed(name: Seq<char>) -> JsonView {
    JsonView::Object(seq![("type"@, JsonView::Text(name))])
}

fn schema_of(name: &str) -> (r: Json)
    ensures
        r@ == typed(name@),
{
    Json::object1("type", Json::text(name))
}

impl WxorcaState {
    /// The JSON schema of a state.
    pub fn schema() -> (r: Json)
        ensures
            r@ == state_schema(),
    {
        let messages = Json::object2("type", Json::text("array"), "items", schema_of("object"));
        let mut properties: Vec<(String, Json)> = Vec::new();
        properties.push(member("session_id", schema_of("string")));
        properties.push(member("agent_type", schema_of("string")));
        properties.push(member("messages", messages));
        properties.push(member("context", schema_of("object")));
        properties.push(member("iteration", schema_of("integer")));
        properties.push(member("is_complete", schema_of("boolean")));
        assert(members_view(properties@) =~= seq![
            ("session_id"@, typed("string"@)),
            ("agent_type"@, typed("string"@)),
            (
                "messages"@,
                JsonView::Object(
                    seq![("type"@, JsonView::Text("array"@)), ("items"@, typed("object"@))],
                ),
            ),
            ("context"@, typed("object"@)),
            ("iteration"@, typed("integer"@)),
            ("is_complete"@, typed("boolean"@)),
        ]);
        let mut required: Vec<String> = Vec::new();
        required.push("session_id".to_string());
        required.push("agent_type".to_string());
        assert(crate::text::texts(required@) =~= seq!["session_id"@, "agent_type"@]);
        Json::object3(
            "type",
            Json::text("object"),
            "properties",
            Json::object(properties),
            "required",
            Json::texts(&required),
        )
    }
}

impl Default for WxorcaState {
    fn default() -> (r: WxorcaState)
        ensures
            r@ == StateView::fresh(r@.session_id, AgentType::AdminSetup, r@.created_at),
    {
        WxorcaState::new(AgentType::AdminSetup)
    }
}

/// Marking a state complete twice leaves what marking it once at the later
/// time leaves: the flag is set, and nothing else but the time of the last
/// change differs from the state before.
pub proof fn lemma_mark_complete_idempotent(s: StateView, first: int, second: int)
    ensures
        s.completed(first).completed(second) == s.completed(second),
        s.completed(first).completed(second).is_complete,
        s.completed(first).completed(second) == s.completed(first).touched(second),
        s.completed(first).completed(second).messages == s.messages,
{
}

/// A value that was stored is found again under its key, and storing it
/// leaves every other key as it was.
pub proof fn lemma_metadata_set_get(
    s: StateView,
    key: Seq<char>,
    value: JsonView,
    now: int,
    other: Seq<char>,
)
    ensures
        s.with_metadata(key, value, now).metadata_at(key) == Some(value),
        other != key ==> s.with_metadata(key, value, now).metadata_at(other) == s.metadata_at(other),
{
    lemma_lookup_put(s.context.metadata, key, value, key);
    lemma_lookup_put(s.context.metadata, key, value, other);
}

/// A key that was never written reads as the caller's default.
pub proof fn lemma_missing_key_reads_default(
    s: StateView,
    key: Seq<char>,
    default: Seq<char>,
    flag: bool,
)
    requires
        s.metadata_at(key) is None,
    ensures
        s.text_or(key, default) == default,
        s.flag_or(key, flag) == flag,
{
}

} // verus!
