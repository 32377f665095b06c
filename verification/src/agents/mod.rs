//! The agents: for each kind of agent a graph of nodes that analyse the
//! query, queue tool calls, execute them and write the response.

pub mod admin_setup;
pub mod best_practices;
pub mod docs_helper;
pub mod laws;
pub mod troubleshoot;
pub mod usage_assistant;

pub use admin_setup::AdminSetupAgent;
pub use best_practices::BestPracticesAgent;
pub use docs_helper::DocsHelperAgent;
pub use troubleshoot::TroubleshootAgent;
pub use usage_assistant::UsageAssistantAgent;

use vstd::prelude::*;
use crate::agents::admin_setup::{AdminResponseNode, AdminSearchNode};
use crate::agents::best_practices::{
    AssessmentNode, BestPracticesResponseNode, BestPracticesSearchNode,
};
use crate::agents::docs_helper::{DocsCategoryNode, DocsResponseNode, DocsSearchNode};
use crate::agents::troubleshoot::{DiagnoseNode, TroubleshootResponseNode, TroubleshootSearchNode};
use crate::agents::usage_assistant::{ExampleFetchNode, UsageResponseNode, UsageSearchNode};
use crate::graph::{
    routed, successor, BuildError, CompiledGraph, END, EdgeShape, GraphPlan, Node, Router, Signal,
    SignalView,
};
use crate::json::{Json, JsonView};
use crate::runner::{executed_once, PhaseView};
use crate::state::{
    calls_view, fresh_id, now_millis, AgentType, MessageRole, MessageView, PendingToolCall,
    StateView, ToolCallView, WxorcaState,
};
use crate::text::{contains, is_infix, lowered, same_text, texts, to_lowercase};
use crate::tools::{
    create_tool_registry, wxo_tool_names, Tool, ToolRegistry, ToolResultView, WxoTool,
};

verus! {

/// The lowercase query holds the phrase.
pub open spec fn says(query: Seq<char>, phrase: Seq<char>) -> bool {
    is_infix(phrase, query)
}

/// The query asks for an example.
pub open spec fn asks_for_example(q: Seq<char>) -> bool {
    says(q, "example"@) || says(q, "sample"@) || says(q, "show me code"@)
}

/// The query asks whether something is right.
pub open spec fn asks_for_validation(q: Seq<char>) -> bool {
    says(q, "validate"@) || says(q, "check"@) || (says(q, "is this"@) && says(q, "correct"@))
}

/// The intent that a lowercase query shows. The first rule that applies
/// decides. "Show me" asks how to do something, unless it is an example
/// that is to be shown.
pub open spec fn intent_of(q: Seq<char>) -> Seq<char> {
    if says(q, "how do i"@) || says(q, "how to"@) || (says(q, "show me"@) && !asks_for_example(q)) {
        "howto"@
    } else if says(q, "error"@) || says(q, "failed"@) || says(q, "not working"@) || says(
        q,
        "problem"@,
    ) {
        "troubleshoot"@
    } else if says(q, "documentation"@) || says(q, "docs"@) || says(q, "where can i find"@) {
        "search"@
    } else if asks_for_example(q) {
        "example"@
    } else if asks_for_validation(q) {
        "validate"@
    } else if says(q, "best practice"@) || says(q, "recommend"@) || says(q, "should i"@) {
        "advice"@
    } else {
        "general"@
    }
}

/// The intent of a query, by its keywords and letter case aside.
pub fn detect_intent(query: &str) -> (r: &'static str)
    ensures
        r@ == intent_of(lowered(query@)),
{
    let lower = to_lowercase(query);
    let q = lower.as_str();
    let example = contains(q, "example") || contains(q, "sample") || contains(q, "show me code");
    let validation = contains(q, "validate") || contains(q, "check") || (contains(q, "is this")
        && contains(q, "correct"));
    if contains(q, "how do i") || contains(q, "how to") || (contains(q, "show me") && !example) {
        "howto"
    } else if contains(q, "error") || contains(q, "failed") || contains(q, "not working")
        || contains(q, "problem") {
        "troubleshoot"
    } else if contains(q, "documentation") || contains(q, "docs") || contains(
        q,
        "where can i find",
    ) {
        "search"
    } else if example {
        "example"
    } else if validation {
        "validate"
    } else if contains(q, "best practice") || contains(q, "recommend") || contains(q, "should i") {
        "advice"
    } else {
        "general"
    }
}

/// An intent that is answered with the help of tools.
pub open spec fn intent_needs_tools(intent: Seq<char>) -> bool {
    intent == "search"@ || intent == "validate"@ || intent == "example"@
}

/// The state after the analysis of the query `query`: the store holds the
/// intent, the query itself, and whether tools are needed.
pub open spec fn analyzed(s: StateView, query: Seq<char>, now: int) -> StateView {
    let intent = intent_of(lowered(query));
    s.with_metadata("user_intent"@, JsonView::Text(intent), now).with_metadata(
        "original_query"@,
        JsonView::Text(query),
        now,
    ).with_metadata("needs_tools"@, JsonView::Bool(intent_needs_tools(intent)), now)
}

/// The state that the analysis leaves: as it was where the conversation
/// has no user message, else analysed for the last of them.
pub open spec fn analysis(s: StateView, now: int) -> StateView {
    if s.last_of(MessageRole::User) < 0 {
        s
    } else {
        analyzed(s, s.messages[s.last_of(MessageRole::User)].content, now)
    }
}

/// Analyses the last user message and stores what it found.
pub fn analyze_query(state: &mut WxorcaState)
    ensures
        final(state)@ == analysis(old(state)@, final(state)@.updated_at),
{
    let found = match state.last_user_message() {
        Some(m) => Some(m.content.clone()),
        None => None,
    };
    match found {
        Some(content) => {
            let intent = detect_intent(content.as_str());
            let needs_tools = same_text(intent, "search") || same_text(intent, "validate")
                || same_text(intent, "example");
            let now = now_millis();
            state.set_metadata_at("user_intent", Json::text(intent), now);
            state.set_metadata_at("original_query", Json::text(content.as_str()), now);
            state.set_metadata_at("needs_tools", Json::Bool(needs_tools), now);
        },
        None => {},
    }
}

/// The node that analyses the user's query.
pub struct AnalyzeQueryNode {
    pub id: String,
}

impl AnalyzeQueryNode {
    /// A node with the name `id`.
    pub fn new(id: &str) -> (r: AnalyzeQueryNode)
        ensures
            r.id@ == id@,
    {
        AnalyzeQueryNode { id: id.to_string() }
    }
}

impl Node for AnalyzeQueryNode {
    open spec fn name(&self) -> Seq<char> {
        self.id@
    }

    fn id(&self) -> (r: &str) {
        self.id.as_str()
    }

    fn description(&self) -> (r: Option<&str>)
        ensures
            r matches Some(d) && d@ == "Analyzes the user's query to extract intent and key information"@,
    {
        Some("Analyzes the user's query to extract intent and key information")
    }

    fn execute(&self, state: &mut WxorcaState) -> (r: Signal)
        ensures
            r is Continue,
            final(state)@ == analysis(old(state)@, final(state)@.updated_at),
    {
        analyze_query(state);
        Signal::Continue
    }
}

/// The destination after a response node: the tool node while calls are
/// pending, else the end of the run.
pub open spec fn tools_target(s: StateView) -> Seq<char> {
    if s.has_pending() {
        "execute_tools"@
    } else {
        END@
    }
}

/// Routes to tool execution while tool calls are pending, else to the end.
pub fn route_by_tools(state: &WxorcaState) -> (r: String)
    ensures
        r@ == tools_target(state@),
{
    if state.has_pending_tool_calls() {
        "execute_tools".to_string()
    } else {
        END.to_string()
    }
}

/// The destination by what the analysis stored: the documentation search
/// where tools are needed, else the response.
pub open spec fn intent_target(s: StateView) -> Seq<char> {
    if s.flag_or("needs_tools"@, false) {
        "search_docs"@
    } else {
        "respond"@
    }
}

/// Routes by whether the analysis found that tools are needed.
pub fn route_by_intent(state: &WxorcaState) -> (r: String)
    ensures
        r@ == intent_target(state@),
{
    if state.metadata_flag_or("needs_tools", false) {
        "search_docs".to_string()
    } else {
        "respond".to_string()
    }
}

/// The destination for a usage question: the example finder where the
/// user asks for an example, else the documentation search.
pub open spec fn example_target(s: StateView) -> Seq<char> {
    if s.text_or("user_intent"@, Seq::empty()) == "example"@ {
        "fetch_examples"@
    } else {
        "search_docs"@
    }
}

/// Routes a usage question by the intent that the analysis stored.
pub fn route_by_example(state: &WxorcaState) -> (r: String)
    ensures
        r@ == example_target(state@),
{
    let intent = state.metadata_text_or("user_intent", "");
    proof {
        reveal_strlit("");
        assert(""@ =~= Seq::<char>::empty());
    }
    if same_text(intent.as_str(), "example") {
        "fetch_examples".to_string()
    } else {
        "search_docs".to_string()
    }
}

/// The routing functions of the agents' graphs.
#[derive(Debug, Clone, Copy, PartialEq, Eq, Structural)]
pub enum AgentRouter {
    /// [`route_by_tools`].
    ByTools,
    /// [`route_by_intent`].
    ByIntent,
    /// [`route_by_example`].
    ByExample,
}

impl Router for AgentRouter {
    open spec fn target(&self, state: StateView) -> Seq<char> {
        match self {
            AgentRouter::ByTools => tools_target(state),
            AgentRouter::ByIntent => intent_target(state),
            AgentRouter::ByExample => example_target(state),
        }
    }

    fn route(&self, state: &WxorcaState) -> (r: String) {
        match self {
            AgentRouter::ByTools => route_by_tools(state),
            AgentRouter::ByIntent => route_by_intent(state),
            AgentRouter::ByExample => route_by_example(state),
        }
    }
}

/// The message answers the call: it is a tool message tagged with the
/// call's identifier, and its content is the text of a result that the
/// registry may give for the call.
pub open spec fn answers<T: Tool>(
    registry: ToolRegistry<T>,
    m: MessageView,
    call: ToolCallView,
) -> bool {
    &&& m.role == MessageRole::Tool
    &&& m.tool_call_id == Some(call.id)
    &&& m.tool_name is None
    &&& exists|result: ToolResultView| #[trigger]
        registry.answers(call, result) && m.content == result.text()
}

/// What the execution of the pending tool calls leaves: the queue is
/// empty, the messages have grown by one answer for each call that was
/// pending, in the order of the calls, and the rest of the state but the
/// time of the last change is as it was.
pub open spec fn drained<T: Tool>(
    registry: ToolRegistry<T>,
    before: StateView,
    after: StateView,
) -> bool {
    &&& after.pending_tool_calls.len() == 0
    &&& after.messages.len() == before.messages.len() + before.pending_tool_calls.len()
    &&& before.messages.is_prefix_of(after.messages)
    &&& forall|i: int|
        0 <= i < before.pending_tool_calls.len() ==> answers(
            registry,
            #[trigger] after.messages[before.messages.len() + i],
            before.pending_tool_calls[i],
        )
    &&& after == (StateView {
        messages: after.messages,
        pending_tool_calls: after.pending_tool_calls,
        updated_at: after.updated_at,
        ..before
    })
}

/// Executes the pending tool calls in the order in which they were queued
/// and appends each result to the conversation. A tool's error becomes the
/// content of its answer.
pub fn execute_pending<T: Tool>(registry: &ToolRegistry<T>, state: &mut WxorcaState)
    ensures
        drained(*registry, old(state)@, final(state)@),
{
    let mut calls: Vec<PendingToolCall> = Vec::new();
    std::mem::swap(&mut calls, &mut state.pending_tool_calls);
    let ghost start = old(state)@;
    assert(calls_view(calls@) == start.pending_tool_calls);
    assert(calls_view(state.pending_tool_calls@) =~= Seq::empty());
    let mut i: usize = 0;
    while i < calls.len()
        invariant
            i <= calls.len(),
            calls_view(calls@) == start.pending_tool_calls,
            state@.pending_tool_calls.len() == 0,
            state@.messages.len() == start.messages.len() + i,
            start.messages.is_prefix_of(state@.messages),
            forall|k: int|
                0 <= k < i ==> answers(
                    *registry,
                    #[trigger] state@.messages[start.messages.len() + k],
                    start.pending_tool_calls[k],
                ),
            state@ == (StateView {
                messages: state@.messages,
                pending_tool_calls: state@.pending_tool_calls,
                updated_at: state@.updated_at,
                ..start
            }),
        decreases calls.len() - i,
    {
        let call = &calls[i];
        assert(calls_view(calls@)[i as int] == call@);
        let result = registry.execute(call);
        let ghost before = state@;
        state.add_tool_result(call.id.as_str(), result.as_str());
        assert(registry.answers(call@, result@) && state@.messages.last().content
            == result@.text());
        assert forall|k: int| 0 <= k < i + 1 implies answers(
            *registry,
            #[trigger] state@.messages[start.messages.len() + k],
            start.pending_tool_calls[k],
        ) by {
            if k < i {
                assert(state@.messages[start.messages.len() + k] == before.messages[
                    start.messages.len() + k
                ]);
            }
        }
        i += 1;
    }
    state.clear_tool_calls();
}

/// The node that executes the pending tool calls.
pub struct ExecuteToolsNode<T: Tool> {
    pub id: String,
    pub tool_registry: ToolRegistry<T>,
}

impl<T: Tool> ExecuteToolsNode<T> {
    /// A node with the name `id`.
    pub fn new(id: &str, tool_registry: ToolRegistry<T>) -> (r: ExecuteToolsNode<T>)
        ensures
            r.id@ == id@,
            r.tool_registry == tool_registry,
    {
        ExecuteToolsNode { id: id.to_string(), tool_registry }
    }
}

impl<T: Tool> Node for ExecuteToolsNode<T> {
    open spec fn name(&self) -> Seq<char> {
        self.id@
    }

    fn id(&self) -> (r: &str) {
        self.id.as_str()
    }

    fn description(&self) -> (r: Option<&str>)
        ensures
            r matches Some(d) && d@ == "Executes pending tool calls"@,
    {
        Some("Executes pending tool calls")
    }

    fn execute(&self, state: &mut WxorcaState) -> (r: Signal)
        ensures
            r is Continue,
            drained(self.tool_registry, old(state)@, final(state)@),
    {
        execute_pending(&self.tool_registry, state);
        Signal::Continue
    }
}

/// The contents of the tool messages among the first `n` messages, in
/// order.
pub open spec fn tool_texts(messages: Seq<MessageView>, n: nat) -> Seq<Seq<char>>
    decreases n,
{
    if n == 0 || n > messages.len() {
        Seq::empty()
    } else if messages[n - 1].role == MessageRole::Tool {
        tool_texts(messages, (n - 1) as nat).push(messages[n - 1].content)
    } else {
        tool_texts(messages, (n - 1) as nat)
    }
}

/// The results of the tools so far, in order.
pub open spec fn tool_outputs(s: StateView) -> Seq<Seq<char>> {
    tool_texts(s.messages, s.messages.len())
}

/// Collects the contents of the tool messages.
pub fn tool_results(state: &WxorcaState) -> (r: Vec<String>)
    ensures
        texts(r@) == tool_outputs(state@),
{
    let mut out: Vec<String> = Vec::new();
    let mut i: usize = 0;
    while i < state.messages.len()
        invariant
            i <= state.messages.len(),
            texts(out@) == tool_texts(state@.messages, i as nat),
        decreases state.messages.len() - i,
    {
        if state.messages[i].role == MessageRole::Tool {
            let ghost before = texts(out@);
            out.push(state.messages[i].content.clone());
            assert(texts(out@) =~= before.push(state@.messages[i as int].content));
        }
        i += 1;
    }
    out
}

/// The query that the analysis stored, or the empty text.
pub open spec fn stored_query(s: StateView) -> Seq<char> {
    s.text_or("original_query"@, Seq::empty())
}

/// Reads the query that the analysis stored; a state that was never
/// analysed gives the empty text.
pub fn original_query(state: &WxorcaState) -> (r: String)
    ensures
        r@ == stored_query(state@),
{
    proof {
        reveal_strlit("");
        assert(""@ =~= Seq::<char>::empty());
    }
    state.metadata_text_or("original_query", "")
}

/// The state after a call of the tool `name` with `arguments` has been
/// queued: `after` is `before` with that call at the end of the queue.
pub open spec fn queued(
    before: StateView,
    name: Seq<char>,
    arguments: JsonView,
    after: StateView,
) -> bool {
    &&& after.pending_tool_calls.len() == before.pending_tool_calls.len() + 1
    &&& after == before.with_tool_call(
        ToolCallView { id: after.pending_tool_calls.last().id, name, arguments },
        after.updated_at,
    )
}

/// Queues a call of the tool `name` under a fresh identifier.
pub fn queue_call(state: &mut WxorcaState, name: &str, arguments: Json)
    ensures
        queued(old(state)@, name@, arguments@, final(state)@),
{
    let id = fresh_id();
    state.add_tool_call(id.as_str(), name, arguments);
}

/// The arguments of a documentation search.
pub open spec fn search_arguments(query: Seq<char>, category: Seq<char>) -> JsonView {
    JsonView::Object(
        seq![
            ("query"@, JsonView::Text(query)),
            ("category"@, JsonView::Text(category)),
            ("limit"@, JsonView::Int(5)),
        ],
    )
}

/// The arguments of a search for examples.
pub open spec fn example_arguments(topic: Seq<char>) -> JsonView {
    JsonView::Object(seq![("topic"@, JsonView::Text(topic)), ("limit"@, JsonView::Int(3))])
}

/// What a search node leaves: the state as it was where no query is
/// stored, else with a call of the tool `name` with `arguments` queued.
pub open spec fn search_step(
    before: StateView,
    name: Seq<char>,
    arguments: JsonView,
    after: StateView,
) -> bool {
    if stored_query(before).len() == 0 {
        after == before
    } else {
        queued(before, name, arguments, after)
    }
}

/// Queues a documentation search for a query in a category.
pub fn queue_docs_search(state: &mut WxorcaState, query: &str, category: &str)
    ensures
        queued(old(state)@, "search_wxo_docs"@, search_arguments(query@, category@), final(state)@),
{
    let arguments = Json::object3(
        "query",
        Json::text(query),
        "category",
        Json::text(category),
        "limit",
        Json::Int(5),
    );
    queue_call(state, "search_wxo_docs", arguments);
}

/// The state after the response `text` has been given: `after` is `before`
/// with an assistant message of that content appended, and complete.
pub open spec fn answered(before: StateView, text: Seq<char>, after: StateView) -> bool {
    &&& after.messages.len() == before.messages.len() + 1
    &&& after == before.with_message(
        MessageView::plain(
            after.messages.last().id,
            MessageRole::Assistant,
            text,
            after.messages.last().timestamp,
        ),
        after.updated_at,
    ).completed(after.updated_at)
}

/// What a response node leaves. While tool calls are pending it leaves
/// the state as it was, so that the calls are executed first; else it
/// gives the response `text` and completes the conversation.
pub open spec fn response_step(before: StateView, text: Seq<char>, after: StateView) -> bool {
    if before.has_pending() {
        after == before
    } else {
        answered(before, text, after)
    }
}

/// Appends the response and marks the conversation complete.
pub fn give_response(state: &mut WxorcaState, text: &str)
    ensures
        answered(old(state)@, text@, final(state)@),
{
    state.add_assistant_message(text);
    state.mark_complete();
}

/// The nodes of the agents' graphs.
pub enum AgentNode<T: Tool> {
    Analyze(AnalyzeQueryNode),
    ExecuteTools(ExecuteToolsNode<T>),
    AdminSearch(AdminSearchNode),
    AdminResponse(AdminResponseNode),
    UsageSearch(UsageSearchNode),
    ExampleFetch(ExampleFetchNode),
    UsageResponse(UsageResponseNode),
    Diagnose(DiagnoseNode),
    TroubleshootSearch(TroubleshootSearchNode),
    TroubleshootResponse(TroubleshootResponseNode),
    Assessment(AssessmentNode),
    BestPracticesSearch(BestPracticesSearchNode),
    BestPracticesResponse(BestPracticesResponseNode),
    DocsCategory(DocsCategoryNode),
    DocsSearch(DocsSearchNode),
    DocsResponse(DocsResponseNode),
}

impl<T: Tool> AgentNode<T> {
    /// The node writes a response.
    pub open spec fn is_response(self) -> bool {
        self is AdminResponse || self is UsageResponse || self is TroubleshootResponse
            || self is BestPracticesResponse || self is DocsResponse
    }

    /// The response that the node writes for a state.
    pub open spec fn reply(self, s: StateView) -> Seq<char> {
        match self {
            AgentNode::AdminResponse(_) => admin_setup::admin_reply(s),
            AgentNode::UsageResponse(_) => usage_assistant::usage_reply(s),
            AgentNode::TroubleshootResponse(_) => troubleshoot::troubleshoot_reply(s),
            AgentNode::BestPracticesResponse(_) => best_practices::best_practices_reply(s),
            AgentNode::DocsResponse(_) => docs_helper::docs_reply(s),
            _ => Seq::empty(),
        }
    }

    /// What the node does, in a sentence.
    pub open spec fn description_text(self) -> Seq<char> {
        match self {
            AgentNode::Analyze(_) => "Analyzes the user's query to extract intent and key information"@,
            AgentNode::ExecuteTools(_) => "Executes pending tool calls"@,
            AgentNode::AdminSearch(_) => "Searches documentation with admin-focused context"@,
            AgentNode::AdminResponse(_) => "Generates admin-focused responses"@,
            AgentNode::UsageSearch(_) => "Searches documentation for user-focused content"@,
            AgentNode::ExampleFetch(_) => "Fetches code examples for the user's query"@,
            AgentNode::UsageResponse(_) => "Generates user-friendly responses about WXO features"@,
            AgentNode::Diagnose(_) => "Diagnoses the issue based on user description"@,
            AgentNode::TroubleshootSearch(_) => "Searches troubleshooting documentation"@,
            AgentNode::TroubleshootResponse(_) => "Generates troubleshooting guidance"@,
            AgentNode::Assessment(_) => "Assesses the user's needs for best practices guidance"@,
            AgentNode::BestPracticesSearch(_) => "Searches for relevant best practices documentation"@,
            AgentNode::BestPracticesResponse(_) => "Generates best practices recommendations"@,
            AgentNode::DocsCategory(_) => "Categorizes the documentation request"@,
            AgentNode::DocsSearch(_) => "Searches documentation based on categorized request"@,
            AgentNode::DocsResponse(_) => "Generates documentation navigation response"@,
        }
    }

    /// The signal that the node returns: `Finish` from a response node,
    /// `Continue` from every other.
    pub open spec fn signal(self) -> SignalView {
        if self.is_response() {
            SignalView::Finish
        } else {
            SignalView::Continue
        }
    }

    /// What one execution of the node makes of the state `before`.
    pub open spec fn step(self, before: StateView, after: StateView) -> bool {
        match self {
            AgentNode::Analyze(_) => after == analysis(before, after.updated_at),
            AgentNode::ExecuteTools(n) => drained(n.tool_registry, before, after),
            AgentNode::AdminSearch(_) => search_step(
                before,
                "search_wxo_docs"@,
                search_arguments(stored_query(before), "admin"@),
                after,
            ),
            AgentNode::UsageSearch(_) => search_step(
                before,
                "search_wxo_docs"@,
                search_arguments(stored_query(before), "user"@),
                after,
            ),
            AgentNode::ExampleFetch(_) => search_step(
                before,
                "fetch_wxo_examples"@,
                example_arguments(stored_query(before)),
                after,
            ),
            AgentNode::Diagnose(_) => after == before.with_metadata(
                "diagnosis"@,
                troubleshoot::diagnosis_json(
                    troubleshoot::diagnosis_of(lowered(stored_query(before))),
                ),
                after.updated_at,
            ),
            AgentNode::TroubleshootSearch(_) => search_step(
                before,
                "search_wxo_docs"@,
                search_arguments(
                    troubleshoot::stored_category(before) + " "@ + stored_query(before),
                    "troubleshooting"@,
                ),
                after,
            ),
            AgentNode::Assessment(_) => after == before.with_metadata(
                "bp_topic"@,
                JsonView::Text(best_practices::topic_of(lowered(stored_query(before)))),
                after.updated_at,
            ),
            AgentNode::BestPracticesSearch(_) => search_step(
                before,
                "fetch_wxo_examples"@,
                example_arguments(
                    best_practices::practices_topic(best_practices::stored_topic(before)),
                ),
                after,
            ),
            AgentNode::DocsCategory(_) => after == before.with_metadata(
                "docs_category"@,
                docs_helper::category_json(
                    docs_helper::category_of(lowered(stored_query(before))),
                ),
                after.updated_at,
            ),
            AgentNode::DocsSearch(_) => search_step(
                before,
                "search_wxo_docs"@,
                search_arguments(
                    stored_query(before),
                    docs_helper::working_category(before).primary,
                ),
                after,
            ),
            _ => response_step(before, self.reply(before), after),
        }
    }
}

impl<T: Tool> Node for AgentNode<T> {
    open spec fn name(&self) -> Seq<char> {
        match self {
            AgentNode::Analyze(n) => n.id@,
            AgentNode::ExecuteTools(n) => n.id@,
            AgentNode::AdminSearch(n) => n.id@,
            AgentNode::AdminResponse(n) => n.id@,
            AgentNode::UsageSearch(n) => n.id@,
            AgentNode::ExampleFetch(n) => n.id@,
            AgentNode::UsageResponse(n) => n.id@,
            AgentNode::Diagnose(n) => n.id@,
            AgentNode::TroubleshootSearch(n) => n.id@,
            AgentNode::TroubleshootResponse(n) => n.id@,
            AgentNode::Assessment(n) => n.id@,
            AgentNode::BestPracticesSearch(n) => n.id@,
            AgentNode::BestPracticesResponse(n) => n.id@,
            AgentNode::DocsCategory(n) => n.id@,
            AgentNode::DocsSearch(n) => n.id@,
            AgentNode::DocsResponse(n) => n.id@,
        }
    }

    fn id(&self) -> (r: &str) {
        match self {
            AgentNode::Analyze(n) => n.id(),
            AgentNode::ExecuteTools(n) => n.id(),
            AgentNode::AdminSearch(n) => n.id(),
            AgentNode::AdminResponse(n) => n.id(),
            AgentNode::UsageSearch(n) => n.id(),
            AgentNode::ExampleFetch(n) => n.id(),
            AgentNode::UsageResponse(n) => n.id(),
            AgentNode::Diagnose(n) => n.id(),
            AgentNode::TroubleshootSearch(n) => n.id(),
            AgentNode::TroubleshootResponse(n) => n.id(),
            AgentNode::Assessment(n) => n.id(),
            AgentNode::BestPracticesSearch(n) => n.id(),
            AgentNode::BestPracticesResponse(n) => n.id(),
            AgentNode::DocsCategory(n) => n.id(),
            AgentNode::DocsSearch(n) => n.id(),
            AgentNode::DocsResponse(n) => n.id(),
        }
    }

    fn description(&self) -> (r: Option<&str>)
        ensures
            r matches Some(d) && d@ == self.description_text(),
    {
        match self {
            AgentNode::Analyze(n) => n.description(),
            AgentNode::ExecuteTools(n) => n.description(),
            AgentNode::AdminSearch(n) => n.description(),
            AgentNode::AdminResponse(n) => n.description(),
            AgentNode::UsageSearch(n) => n.description(),
            AgentNode::ExampleFetch(n) => n.description(),
            AgentNode::UsageResponse(n) => n.description(),
            AgentNode::Diagnose(n) => n.description(),
            AgentNode::TroubleshootSearch(n) => n.description(),
            AgentNode::TroubleshootResponse(n) => n.description(),
            AgentNode::Assessment(n) => n.description(),
            AgentNode::BestPracticesSearch(n) => n.description(),
            AgentNode::BestPracticesResponse(n) => n.description(),
            AgentNode::DocsCategory(n) => n.description(),
            AgentNode::DocsSearch(n) => n.description(),
            AgentNode::DocsResponse(n) => n.description(),
        }
    }

    open spec fn effect(&self, before: StateView, after: StateView, signal: SignalView) -> bool {
        signal == self.signal() && self.step(before, after)
    }

    fn execute(&self, state: &mut WxorcaState) -> (r: Signal) {
        match self {
            AgentNode::Analyze(n) => n.execute(state),
            AgentNode::ExecuteTools(n) => n.execute(state),
            AgentNode::AdminSearch(n) => n.execute(state),
            AgentNode::AdminResponse(n) => n.execute(state),
            AgentNode::UsageSearch(n) => n.execute(state),
            AgentNode::ExampleFetch(n) => n.execute(state),
            AgentNode::UsageResponse(n) => n.execute(state),
            AgentNode::Diagnose(n) => n.execute(state),
            AgentNode::TroubleshootSearch(n) => n.execute(state),
            AgentNode::TroubleshootResponse(n) => n.execute(state),
            AgentNode::Assessment(n) => n.execute(state),
            AgentNode::BestPracticesSearch(n) => n.execute(state),
            AgentNode::BestPracticesResponse(n) => n.execute(state),
            AgentNode::DocsCategory(n) => n.execute(state),
            AgentNode::DocsSearch(n) => n.execute(state),
            AgentNode::DocsResponse(n) => n.execute(state),
        }
    }
}

/// What is said where a run has left no response.
pub const NO_RESPONSE: &'static str = "I apologize, but I couldn't generate a response.";

/// The reply that a state holds for the user: the content of its last
/// assistant message, or an apology where it has none.
pub open spec fn reply_of(s: StateView) -> Seq<char> {
    if s.last_of(MessageRole::Assistant) < 0 {
        NO_RESPONSE@
    } else {
        s.messages[s.last_of(MessageRole::Assistant)].content
    }
}

/// Reads the reply for the user from the state that a run has left.
pub fn assistant_reply(state: &WxorcaState) -> (r: String)
    ensures
        r@ == reply_of(state@),
{
    match state.last_assistant_message() {
        Some(m) => m.content.clone(),
        None => NO_RESPONSE.to_string(),
    }
}

/// The graph of an agent.
pub type AgentGraph<T> = CompiledGraph<AgentNode<T>, AgentRouter>;

/// A direct edge.
pub open spec fn direct(from: Seq<char>, to: Seq<char>) -> EdgeShape {
    EdgeShape { from, to: Some(to) }
}

/// A conditional edge.
pub open spec fn conditional(from: Seq<char>) -> EdgeShape {
    EdgeShape { from, to: None }
}

/// The names of the nodes in the agents' graphs differ from one another
/// and from the end of the run.
pub proof fn lemma_node_names_differ()
    ensures
        "analyze"@ != "search_docs"@,
        "analyze"@ != "respond"@,
        "analyze"@ != "execute_tools"@,
        "analyze"@ != "fetch_examples"@,
        "analyze"@ != "diagnose"@,
        "analyze"@ != "assess"@,
        "analyze"@ != "categorize"@,
        "search_docs"@ != "respond"@,
        "search_docs"@ != "execute_tools"@,
        "search_docs"@ != "fetch_examples"@,
        "search_docs"@ != "diagnose"@,
        "search_docs"@ != "assess"@,
        "search_docs"@ != "categorize"@,
        "respond"@ != "execute_tools"@,
        "respond"@ != "fetch_examples"@,
        "respond"@ != "diagnose"@,
        "respond"@ != "assess"@,
        "respond"@ != "categorize"@,
        "respond"@ != END@,
        "analyze"@ != END@,
        "search_docs"@ != END@,
        "execute_tools"@ != "fetch_examples"@,
        "execute_tools"@ != "diagnose"@,
        "execute_tools"@ != "assess"@,
        "execute_tools"@ != "categorize"@,
        "execute_tools"@ != END@,
        "fetch_examples"@ != END@,
        "diagnose"@ != END@,
        "assess"@ != END@,
        "categorize"@ != END@,
{
    reveal_strlit("analyze");
    reveal_strlit("search_docs");
    reveal_strlit("respond");
    reveal_strlit("execute_tools");
    reveal_strlit("fetch_examples");
    reveal_strlit("diagnose");
    reveal_strlit("assess");
    reveal_strlit("categorize");
    reveal_strlit("__end__");
    assert("analyze"@.len() == 7 && "analyze"@[0] == 'a');
    assert("search_docs"@.len() == 11);
    assert("respond"@.len() == 7 && "respond"@[0] == 'r');
    assert("execute_tools"@.len() == 13);
    assert("fetch_examples"@.len() == 14 && "fetch_examples"@[0] == 'f');
    assert("diagnose"@.len() == 8);
    assert("assess"@.len() == 6);
    assert("categorize"@.len() == 10);
    assert(END@.len() == 7 && END@[0] == '_');
}

/// After the node `respond` the graph routes by pending tool calls.
pub open spec fn routes_by_tools<T: Tool>(g: AgentGraph<T>) -> bool {
    forall|s: StateView| #[trigger] routed(g.edges(), "respond"@, s) == Some(tools_target(s))
}

/// After the node `execute_tools` the graph goes back to the response.
pub open spec fn returns_to_response<T: Tool>(g: AgentGraph<T>) -> bool {
    forall|s: StateView| #[trigger] successor(g.edges(), "execute_tools"@, s) == Some("respond"@)
}

/// The graph that [`AdminSetupAgent::build_graph`] builds around the tools
/// given: the plan, the routers, the direct edges, and the node under each name.
pub open spec fn admin_graph<T: Tool>(g: AgentGraph<T>, tool_registry: ToolRegistry<T>) -> bool {
    &&& g.plan() == admin_setup::admin_plan()
    &&& forall|s: StateView| #[trigger]
        routed(g.edges(), "respond"@, s) == Some(tools_target(s))
    &&& forall|s: StateView| #[trigger]
        successor(g.edges(), "analyze"@, s) == Some("search_docs"@)
    &&& forall|s: StateView| #[trigger]
        successor(g.edges(), "search_docs"@, s) == Some("respond"@)
    &&& forall|s: StateView| #[trigger]
        successor(g.edges(), "execute_tools"@, s) == Some("respond"@)
    &&& g.node_named("analyze"@) is Analyze
    &&& g.node_named("search_docs"@) is AdminSearch
    &&& g.node_named("respond"@) is AdminResponse
    &&& g.node_named("execute_tools"@) matches AgentNode::ExecuteTools(n)
        && n.tool_registry == tool_registry
}

/// The graph that [`UsageAssistantAgent::build_graph`] builds around the tools
/// given: the plan, the routers, the direct edges, and the node under each name.
pub open spec fn usage_graph<T: Tool>(g: AgentGraph<T>, tool_registry: ToolRegistry<T>) -> bool {
    &&& g.plan() == usage_assistant::usage_plan()
    &&& forall|s: StateView| #[trigger]
        routed(g.edges(), "analyze"@, s) == Some(example_target(s))
    &&& forall|s: StateView| #[trigger]
        routed(g.edges(), "respond"@, s) == Some(tools_target(s))
    &&& forall|s: StateView| #[trigger]
        successor(g.edges(), "search_docs"@, s) == Some("respond"@)
    &&& forall|s: StateView| #[trigger]
        successor(g.edges(), "fetch_examples"@, s) == Some("respond"@)
    &&& forall|s: StateView| #[trigger]
        successor(g.edges(), "execute_tools"@, s) == Some("respond"@)
    &&& g.node_named("analyze"@) is Analyze
    &&& g.node_named("search_docs"@) is UsageSearch
    &&& g.node_named("fetch_examples"@) is ExampleFetch
    &&& g.node_named("respond"@) is UsageResponse
    &&& g.node_named("execute_tools"@) matches AgentNode::ExecuteTools(n)
        && n.tool_registry == tool_registry
}

/// The graph that [`TroubleshootAgent::build_graph`] builds around the tools
/// given: the plan, the routers, the direct edges, and the node under each name.
pub open spec fn troubleshoot_graph<T: Tool>(
    g: AgentGraph<T>,
    tool_registry: ToolRegistry<T>,
) -> bool {
    &&& g.plan() == troubleshoot::troubleshoot_plan()
    &&& forall|s: StateView| #[trigger]
        routed(g.edges(), "respond"@, s) == Some(tools_target(s))
    &&& forall|s: StateView| #[trigger]
        successor(g.edges(), "analyze"@, s) == Some("diagnose"@)
    &&& forall|s: StateView| #[trigger]
        successor(g.edges(), "diagnose"@, s) == Some("search_docs"@)
    &&& forall|s: StateView| #[trigger]
        successor(g.edges(), "search_docs"@, s) == Some("respond"@)
    &&& forall|s: StateView| #[trigger]
        successor(g.edges(), "execute_tools"@, s) == Some("respond"@)
    &&& g.node_named("analyze"@) is Analyze
    &&& g.node_named("diagnose"@) is Diagnose
    &&& g.node_named("search_docs"@) is TroubleshootSearch
    &&& g.node_named("respond"@) is TroubleshootResponse
    &&& g.node_named("execute_tools"@) matches AgentNode::ExecuteTools(n)
        && n.tool_registry == tool_registry
}

/// The graph that [`BestPracticesAgent::build_graph`] builds around the tools
/// given: the plan, the routers, the direct edges, and the node under each name.
pub open spec fn best_practices_graph<T: Tool>(
    g: AgentGraph<T>,
    tool_registry: ToolRegistry<T>,
) -> bool {
    &&& g.plan() == best_practices::best_practices_plan()
    &&& forall|s: StateView| #[trigger]
        routed(g.edges(), "respond"@, s) == Some(tools_target(s))
    &&& forall|s: StateView| #[trigger]
        successor(g.edges(), "analyze"@, s) == Some("assess"@)
    &&& forall|s: StateView| #[trigger]
        successor(g.edges(), "assess"@, s) == Some("search_docs"@)
    &&& forall|s: StateView| #[trigger]
        successor(g.edges(), "search_docs"@, s) == Some("respond"@)
    &&& forall|s: StateView| #[trigger]
        successor(g.edges(), "execute_tools"@, s) == Some("respond"@)
    &&& g.node_named("analyze"@) is Analyze
    &&& g.node_named("assess"@) is Assessment
    &&& g.node_named("search_docs"@) is BestPracticesSearch
    &&& g.node_named("respond"@) is BestPracticesResponse
    &&& g.node_named("execute_tools"@) matches AgentNode::ExecuteTools(n)
        && n.tool_registry == tool_registry
}

/// The graph that [`DocsHelperAgent::build_graph`] builds around the tools
/// given: the plan, the routers, the direct edges, and the node under each name.
pub open spec fn docs_graph<T: Tool>(g: AgentGraph<T>, tool_registry: ToolRegistry<T>) -> bool {
    &&& g.plan() == docs_helper::docs_plan()
    &&& forall|s: StateView| #[trigger]
        routed(g.edges(), "respond"@, s) == Some(tools_target(s))
    &&& forall|s: StateView| #[trigger]
        successor(g.edges(), "analyze"@, s) == Some("categorize"@)
    &&& forall|s: StateView| #[trigger]
        successor(g.edges(), "categorize"@, s) == Some("search_docs"@)
    &&& forall|s: StateView| #[trigger]
        successor(g.edges(), "search_docs"@, s) == Some("respond"@)
    &&& forall|s: StateView| #[trigger]
        successor(g.edges(), "execute_tools"@, s) == Some("respond"@)
    &&& g.node_named("analyze"@) is Analyze
    &&& g.node_named("categorize"@) is DocsCategory
    &&& g.node_named("search_docs"@) is DocsSearch
    &&& g.node_named("respond"@) is DocsResponse
    &&& g.node_named("execute_tools"@) matches AgentNode::ExecuteTools(n)
        && n.tool_registry == tool_registry
}

/// What a run on a question leaves: the conversation as it was with two
/// messages more, the answer of a tool to the call `call` and then the
/// response `reply`; the conversation is complete, and no call is pending.
pub open spec fn answered_with<T: Tool>(
    registry: ToolRegistry<T>,
    start: StateView,
    end: StateView,
    name: Seq<char>,
    arguments: JsonView,
    reply: Seq<char>,
) -> bool {
    let n = start.messages.len() as int;
    &&& end.messages.len() == n + 2
    &&& start.messages.is_prefix_of(end.messages)
    &&& exists|id: Seq<char>| #[trigger]
        answers(registry, end.messages[n], ToolCallView { id, name, arguments })
    &&& end.messages[n + 1].role == MessageRole::Assistant
    &&& end.messages[n + 1].content == reply
    &&& end.is_complete
    &&& !end.has_pending()
}

/// The registry holds the documentation search of this library under its
/// name.
pub open spec fn searches_docs(registry: ToolRegistry<WxoTool>) -> bool {
    &&& registry.has_spec("search_wxo_docs"@)
    &&& registry.tool_at("search_wxo_docs"@) is SearchDocs
}

/// The graph of each kind of agent, built around the tools given.
pub open spec fn agent_graph<T: Tool>(
    agent_type: AgentType,
    g: AgentGraph<T>,
    tool_registry: ToolRegistry<T>,
) -> bool {
    match agent_type {
        AgentType::AdminSetup => admin_graph(g, tool_registry),
        AgentType::UsageAssistant => usage_graph(g, tool_registry),
        AgentType::Troubleshoot => troubleshoot_graph(g, tool_registry),
        AgentType::BestPractices => best_practices_graph(g, tool_registry),
        AgentType::DocsHelper => docs_graph(g, tool_registry),
    }
}

/// The plan of the graph of each kind of agent.
pub open spec fn plan_of(agent_type: AgentType) -> GraphPlan {
    match agent_type {
        AgentType::AdminSetup => admin_setup::admin_plan(),
        AgentType::UsageAssistant => usage_assistant::usage_plan(),
        AgentType::Troubleshoot => troubleshoot::troubleshoot_plan(),
        AgentType::BestPractices => best_practices::best_practices_plan(),
        AgentType::DocsHelper => docs_helper::docs_plan(),
    }
}

/// Builds the graph of an agent around the tools given. Every kind of
/// agent has a graph: the build does not fail.
pub fn build_agent_graph_with<T: Tool>(agent_type: AgentType, tool_registry: ToolRegistry<T>) -> (r:
    Result<AgentGraph<T>, BuildError>)
    ensures
        r matches Ok(g) && {
            &&& g.plan() == plan_of(agent_type)
            &&& routes_by_tools(g)
            &&& returns_to_response(g)
            &&& g.node_named("respond"@).is_response()
            &&& agent_graph(agent_type, g, tool_registry)
        },
{
    match agent_type {
        AgentType::AdminSetup => AdminSetupAgent::build_graph(tool_registry),
        AgentType::UsageAssistant => UsageAssistantAgent::build_graph(tool_registry),
        AgentType::Troubleshoot => TroubleshootAgent::build_graph(tool_registry),
        AgentType::BestPractices => BestPracticesAgent::build_graph(tool_registry),
        AgentType::DocsHelper => DocsHelperAgent::build_graph(tool_registry),
    }
}

/// Builds the graph of an agent around the tools that this library
/// provides. Every kind of agent has a graph: the build does not fail.
pub fn build_agent_graph(agent_type: AgentType) -> (r: Result<AgentGraph<WxoTool>, BuildError>)
    ensures
        r matches Ok(g) && {
            &&& g.plan() == plan_of(agent_type)
            &&& routes_by_tools(g)
            &&& returns_to_response(g)
            &&& g.node_named("respond"@).is_response()
            &&& g.node_named("execute_tools"@) matches AgentNode::ExecuteTools(n)
                && n.tool_registry.names_spec() == wxo_tool_names() && searches_docs(
                n.tool_registry,
            ) && agent_graph(agent_type, g, n.tool_registry)
        },
{
    let tool_registry = create_tool_registry();
    proof {
        reveal_strlit("search_wxo_docs");
        reveal_with_fuel(crate::text::position_from, 2);
        assert(tool_registry.names_spec()[0] == "search_wxo_docs"@);
    }
    build_agent_graph_with(agent_type, tool_registry)
}

/// Where a graph routes by pending tool calls after its response node,
/// the move that executes the response node ends with `Finish`, and the
/// pending calls decide what comes next. While calls are pending, the
/// node leaves the state as it was and the tool node is the next to
/// execute; else the run has finished, and the conversation is complete.
pub proof fn lemma_finish_routes_by_pending<T: Tool>(
    g: AgentGraph<T>,
    before: StateView,
    reached: StateView,
    signal: SignalView,
    after: StateView,
    next: PhaseView,
)
    requires
        routes_by_tools(g),
        g.node_named("respond"@).is_response(),
        executed_once(g, "respond"@, before, reached, signal, after, next),
    ensures
        signal == SignalView::Finish,
        before.has_pending() ==> reached == before && after.has_pending() && next
            == PhaseView::Running("execute_tools"@),
        !before.has_pending() ==> !after.has_pending() && after.is_complete && next
            == PhaseView::Finished,
{
    lemma_node_names_differ();
    assert(routed(g.edges(), "respond"@, after) == Some(tools_target(after)));
}

/// Where a graph goes back to the response after its tool node, the move
/// that executes the tool node drains the queue of pending calls, and the
/// response node is the next to execute.
pub proof fn lemma_tools_then_response<T: Tool>(
    g: AgentGraph<T>,
    before: StateView,
    reached: StateView,
    signal: SignalView,
    after: StateView,
    next: PhaseView,
)
    requires
        returns_to_response(g),
        g.node_named("execute_tools"@) is ExecuteTools,
        executed_once(g, "execute_tools"@, before, reached, signal, after, next),
    ensures
        signal == SignalView::Continue,
        drained(g.node_named("execute_tools"@)->ExecuteTools_0.tool_registry, before, reached),
        !after.has_pending(),
        next == PhaseView::Running("respond"@),
{
    lemma_node_names_differ();
    assert(successor(g.edges(), "execute_tools"@, after) == Some("respond"@));
}

/// After the pending tool calls have been executed, no call is pending,
/// and the call that stood at position `i` of the queue is answered by the
/// tool message at position `i` after the messages that were there before:
/// one message for each call, tagged with the call's identifier.
pub proof fn lemma_drained_answers_each_call<T: Tool>(
    registry: ToolRegistry<T>,
    before: StateView,
    after: StateView,
    i: int,
)
    requires
        drained(registry, before, after),
        0 <= i < before.pending_tool_calls.len(),
    ensures
        !after.has_pending(),
        after.messages.len() == before.messages.len() + before.pending_tool_calls.len(),
        after.messages[before.messages.len() + i].role == MessageRole::Tool,
        after.messages[before.messages.len() + i].tool_call_id == Some(
            before.pending_tool_calls[i].id,
        ),
{
}

/// A call of a tool that is not registered is answered with a message that
/// says so; the execution goes on with the next call.
pub proof fn lemma_unknown_tool_is_answered<T: Tool>(
    registry: ToolRegistry<T>,
    before: StateView,
    after: StateView,
    i: int,
)
    requires
        drained(registry, before, after),
        0 <= i < before.pending_tool_calls.len(),
        !registry.has_spec(before.pending_tool_calls[i].name),
    ensures
        after.messages[before.messages.len() + i].content == "Tool '"@
            + before.pending_tool_calls[i].name + "' not found"@,
{
}

} // verus!
