//! What holds of every run of an agent's graph on a message.
//!
//! A run on a conversation in which the user has asked something, and in
//! which no tool call is pending, takes the same course for every
//! question: the analysis, the agent's own preparation where it has one,
//! the search that queues one tool call, the response node that waits for
//! the call, the tools, and the response. On an empty message the search
//! queues nothing, and the response follows at once. The laws below say
//! what such runs leave.

use vstd::prelude::*;
use crate::agents::admin_setup::admin_response;
use crate::agents::best_practices::{
    best_practices_response, practices_topic, stored_topic, topic_of,
};
use crate::agents::docs_helper::{
    category_json, category_of, docs_response, lemma_category_round_trip, working_category,
};
use crate::agents::troubleshoot::{
    diagnosis_json, diagnosis_of, lemma_diagnosis_round_trip, reply_diagnosis, stored_category,
    troubleshoot_response,
};
use crate::agents::usage_assistant::usage_response;
use crate::agents::{
    admin_graph, answered_with, answers, best_practices_graph, docs_graph, example_arguments,
    example_target, intent_needs_tools, intent_of, lemma_node_names_differ, returns_to_response,
    routes_by_tools, search_arguments, searches_docs, stored_query, tool_outputs, tool_texts,
    tools_target, troubleshoot_graph, usage_graph, AgentGraph, AgentNode,
};
use crate::graph::{node_ids, routed, successor, SignalView};
use crate::json::{lemma_lookup_put, pretty_text, put, JsonView};
use crate::runner::{
    ending, executed_once, is_run, lemma_after_move, lemma_next_move, lemma_run_ends, runs_to,
    state_after, Move, PhaseView, RunErrorView,
};
use crate::state::{MessageRole, StateView, ToolCallView};
use crate::text::{knows, lowered, position_from};
use crate::tools::search_docs::{docs_json, found_docs, search_input, SearchDocsInputView};
use crate::tools::{Tool, ToolRegistry, ToolResultView, WxoTool};

verus! {

/// The conversation holds a message of the user, and no tool call is
/// pending.
pub open spec fn begun(s: StateView) -> bool {
    &&& s.last_of(MessageRole::User) >= 0
    &&& !s.has_pending()
}

/// A user has asked something, and no tool call is pending.
pub open spec fn asked(s: StateView) -> bool {
    begun(s) && question(s).len() > 0
}

/// The last message of the user is empty, and no tool call is pending.
pub open spec fn silent(s: StateView) -> bool {
    begun(s) && question(s).len() == 0
}

/// What a run without tools leaves: the conversation as it was with one
/// message more, the response `reply`; the conversation is complete, and
/// no call is pending.
pub open spec fn replied_with(start: StateView, end: StateView, reply: Seq<char>) -> bool {
    &&& end.messages == start.messages.push(end.messages.last())
    &&& end.messages.last().role == MessageRole::Assistant
    &&& end.messages.last().content == reply
    &&& end.is_complete
    &&& !end.has_pending()
}

/// The content of the last user message.
pub open spec fn question(s: StateView) -> Seq<char> {
    s.messages[s.last_of(MessageRole::User)].content
}

/// What a move keeps of the state: the messages, the pending calls, the
/// context and the flag.
pub open spec fn carried(before: StateView, after: StateView) -> bool {
    &&& after.messages == before.messages
    &&& after.pending_tool_calls == before.pending_tool_calls
    &&& after.context == before.context
    &&& after.is_complete == before.is_complete
}

/// The keys of the context store differ from one another.
proof fn lemma_keys_differ()
    ensures
        "user_intent"@ != "original_query"@,
        "user_intent"@ != "needs_tools"@,
        "original_query"@ != "needs_tools"@,
        "diagnosis"@ != "user_intent"@,
        "diagnosis"@ != "original_query"@,
        "diagnosis"@ != "needs_tools"@,
        "bp_topic"@ != "user_intent"@,
        "bp_topic"@ != "original_query"@,
        "bp_topic"@ != "needs_tools"@,
        "docs_category"@ != "user_intent"@,
        "docs_category"@ != "original_query"@,
        "docs_category"@ != "needs_tools"@,
{
    reveal_strlit("user_intent");
    reveal_strlit("original_query");
    reveal_strlit("needs_tools");
    reveal_strlit("diagnosis");
    reveal_strlit("bp_topic");
    reveal_strlit("docs_category");
    assert("user_intent"@[0] == 'u');
    assert("original_query"@[0] == 'o');
    assert("needs_tools"@[0] == 'n');
    assert("diagnosis"@[0] == 'd');
    assert("bp_topic"@[0] == 'b');
    assert("docs_category"@[0] == 'd');
}

/// The move that analyses the question: it stores the question and its
/// intent, leaves every other key of the store as it was, and keeps the
/// messages and the queue.
proof fn lemma_analyze_move<T: Tool>(g: AgentGraph<T>, m: Move, key: Seq<char>)
    requires
        g.node_named("analyze"@) is Analyze,
        executed_once(g, "analyze"@, m.before, m.reached, m.signal, m.after, m.next),
        begun(m.before),
        key != "user_intent"@,
        key != "original_query"@,
        key != "needs_tools"@,
    ensures
        m.signal == SignalView::Continue,
        m.next == crate::runner::transition(g, "analyze"@, SignalView::Continue, m.after),
        stored_query(m.after) == question(m.before),
        m.after.text_or("user_intent"@, Seq::empty()) == intent_of(lowered(question(m.before))),
        m.after.metadata_at(key) == m.before.metadata_at(key),
        m.after.messages == m.before.messages,
        m.after.pending_tool_calls == m.before.pending_tool_calls,
        m.after.is_complete == m.before.is_complete,
{
    lemma_keys_differ();
    let q = question(m.before);
    let intent = intent_of(lowered(q));
    let m0 = m.before.context.metadata;
    let v1 = JsonView::Text(intent);
    let v2 = JsonView::Text(q);
    let v3 = JsonView::Bool(intent_needs_tools(intent));
    let m1 = put(m0, "user_intent"@, v1);
    let m2 = put(m1, "original_query"@, v2);
    let m3 = put(m2, "needs_tools"@, v3);
    assert(m.reached.context.metadata == m3);
    lemma_lookup_put(m0, "user_intent"@, v1, "user_intent"@);
    lemma_lookup_put(m1, "original_query"@, v2, "user_intent"@);
    lemma_lookup_put(m2, "needs_tools"@, v3, "user_intent"@);
    lemma_lookup_put(m1, "original_query"@, v2, "original_query"@);
    lemma_lookup_put(m2, "needs_tools"@, v3, "original_query"@);
    lemma_lookup_put(m0, "user_intent"@, v1, key);
    lemma_lookup_put(m1, "original_query"@, v2, key);
    lemma_lookup_put(m2, "needs_tools"@, v3, key);
}

/// The move of a node that stores one value under `key`: the value is
/// found under the key, the question stays, and so do the messages and
/// the queue.
proof fn lemma_store_move<T: Tool>(
    g: AgentGraph<T>,
    node: Seq<char>,
    m: Move,
    key: Seq<char>,
    value: JsonView,
)
    requires
        executed_once(g, node, m.before, m.reached, m.signal, m.after, m.next),
        m.reached == m.before.with_metadata(key, value, m.reached.updated_at),
        key != "original_query"@,
    ensures
        m.after.metadata_at(key) == Some(value),
        stored_query(m.after) == stored_query(m.before),
        m.after.messages == m.before.messages,
        m.after.pending_tool_calls == m.before.pending_tool_calls,
        m.after.is_complete == m.before.is_complete,
{
    lemma_lookup_put(m.before.context.metadata, key, value, key);
    lemma_lookup_put(m.before.context.metadata, key, value, "original_query"@);
}

/// The move of a search node on a stored question: one call of the tool
/// is queued, and the context and the messages stay.
proof fn lemma_search_move<T: Tool>(
    g: AgentGraph<T>,
    m: Move,
    name: Seq<char>,
    arguments: JsonView,
)
    requires
        executed_once(g, "search_docs"@, m.before, m.reached, m.signal, m.after, m.next),
        crate::agents::search_step(m.before, name, arguments, m.reached),
        stored_query(m.before).len() > 0,
        !m.before.has_pending(),
    ensures
        m.after.context == m.before.context,
        m.after.messages == m.before.messages,
        m.after.is_complete == m.before.is_complete,
        m.after.pending_tool_calls.len() == 1,
        m.after.pending_tool_calls[0].name == name,
        m.after.pending_tool_calls[0].arguments == arguments,
{
}

/// The move of the response node while a call is pending: the node waits,
/// and the tools are the next to execute.
proof fn lemma_wait_move<T: Tool>(g: AgentGraph<T>, m: Move)
    requires
        routes_by_tools(g),
        g.node_named("respond"@).is_response(),
        executed_once(g, "respond"@, m.before, m.reached, m.signal, m.after, m.next),
        m.before.has_pending(),
    ensures
        m.next == PhaseView::Running("execute_tools"@),
        carried(m.before, m.after),
{
    lemma_node_names_differ();
    assert(routed(g.edges(), "respond"@, m.after) == Some(tools_target(m.after)));
}

/// The move of the tool node on one pending call: the call is answered by
/// one tool message, the queue is empty, and the response is the next to
/// execute.
proof fn lemma_tools_move<T: Tool>(g: AgentGraph<T>, registry: ToolRegistry<T>, m: Move)
    requires
        returns_to_response(g),
        g.node_named("execute_tools"@) matches AgentNode::ExecuteTools(n) && n.tool_registry
            == registry,
        executed_once(g, "execute_tools"@, m.before, m.reached, m.signal, m.after, m.next),
        m.before.pending_tool_calls.len() == 1,
    ensures
        m.next == PhaseView::Running("respond"@),
        m.after.context == m.before.context,
        m.after.is_complete == m.before.is_complete,
        m.after.messages == m.before.messages.push(m.after.messages.last()),
        m.after.messages.last().role == MessageRole::Tool,
        answers(registry, m.after.messages.last(), m.before.pending_tool_calls[0]),
        tool_outputs(m.after) == tool_outputs(m.before).push(m.after.messages.last().content),
        !m.after.has_pending(),
{
    lemma_node_names_differ();
    assert(successor(g.edges(), "execute_tools"@, m.after) == Some("respond"@));
    let n = m.before.messages.len() as int;
    assert(m.reached.messages[n + 0].role == MessageRole::Tool);
    assert(m.after.messages =~= m.before.messages.push(m.after.messages.last()));
    lemma_tool_texts_prefix(m.before.messages, m.after.messages, m.before.messages.len());
}

/// The tool messages among the first `n` messages are the same in a run
/// of messages and in one that it is a prefix of.
proof fn lemma_tool_texts_prefix(
    shorter: Seq<crate::state::MessageView>,
    longer: Seq<crate::state::MessageView>,
    n: nat,
)
    requires
        shorter.is_prefix_of(longer),
        n <= shorter.len(),
    ensures
        tool_texts(longer, n) == tool_texts(shorter, n),
    decreases n,
{
    if n > 0 {
        lemma_tool_texts_prefix(shorter, longer, (n - 1) as nat);
        assert(longer[n - 1] == shorter[n - 1]);
    }
}

/// The move of the response node with no call pending: the response of
/// the node for the state is appended, the conversation is complete, and
/// the run has finished.
proof fn lemma_respond_move<T: Tool>(g: AgentGraph<T>, m: Move)
    requires
        routes_by_tools(g),
        g.node_named("respond"@).is_response(),
        executed_once(g, "respond"@, m.before, m.reached, m.signal, m.after, m.next),
        !m.before.has_pending(),
    ensures
        m.next == PhaseView::Finished,
        m.after.messages == m.before.messages.push(m.after.messages.last()),
        m.after.messages.last().role == MessageRole::Assistant,
        m.after.messages.last().content == g.node_named("respond"@).reply(m.before),
        m.after.is_complete,
        !m.after.has_pending(),
{
    lemma_node_names_differ();
    assert(routed(g.edges(), "respond"@, m.after) == Some(tools_target(m.after)));
    assert(m.after.messages =~= m.before.messages.push(m.after.messages.last()));
}

/// The last four moves of a run on a question, which are the same for
/// every agent: from the search node, where the question is stored and
/// no call is pending, over the waiting response node and the tools to
/// the response.
proof fn lemma_from_search<T: Tool>(
    g: AgentGraph<T>,
    registry: ToolRegistry<T>,
    max: nat,
    start: StateView,
    moves: Seq<Move>,
    outcome: Result<(), RunErrorView>,
    k: int,
    name: Seq<char>,
    arguments: JsonView,
)
    requires
        routes_by_tools(g),
        returns_to_response(g),
        g.node_named("respond"@).is_response(),
        g.node_named("execute_tools"@) matches AgentNode::ExecuteTools(n) && n.tool_registry
            == registry,
        forall|s: StateView| #[trigger] successor(g.edges(), "search_docs"@, s) == Some("respond"@),
        knows(node_ids(g.nodes()), "respond"@),
        knows(node_ids(g.nodes()), "execute_tools"@),
        is_run(g, moves, start),
        ending(g, max, moves) == Some(outcome),
        0 <= k < moves.len(),
        k + 4 <= max,
        moves[k].node == "search_docs"@,
        g.node_named("search_docs"@).signal() == SignalView::Continue,
        g.node_named("search_docs"@).step(moves[k].before, moves[k].reached)
            ==> crate::agents::search_step(moves[k].before, name, arguments, moves[k].reached),
        stored_query(moves[k].before).len() > 0,
        !moves[k].before.has_pending(),
        moves[k].before.messages == start.messages,
        executed_once(
            g,
            "search_docs"@,
            moves[k].before,
            moves[k].reached,
            moves[k].signal,
            moves[k].after,
            moves[k].next,
        ),
    ensures
        outcome == Ok::<(), RunErrorView>(()),
        moves.len() == k + 4,
        moves[k + 3].before.context == moves[k].before.context,
        moves[k + 3].before.messages == start.messages.push(moves[k + 3].before.messages.last()),
        answered_with(
            registry,
            start,
            state_after(moves, start),
            name,
            arguments,
            g.node_named("respond"@).reply(moves[k + 3].before),
        ),
        tool_outputs(moves[k + 3].before) == tool_outputs(start).push(
            state_after(moves, start).messages[start.messages.len() as int].content,
        ),
{
    lemma_node_names_differ();
    let m0 = moves[k];
    lemma_search_move(g, m0, name, arguments);
    assert(m0.next == PhaseView::Running("respond"@)) by {
        assert(successor(g.edges(), "search_docs"@, m0.after) == Some("respond"@));
    }
    lemma_after_move(g, moves, start, k);
    lemma_next_move(g, max, moves, start, outcome, k + 1, "respond"@);
    let m1 = moves[k + 1];
    lemma_wait_move(g, m1);
    lemma_after_move(g, moves, start, k + 1);
    lemma_next_move(g, max, moves, start, outcome, k + 2, "execute_tools"@);
    let m2 = moves[k + 2];
    lemma_tools_move(g, registry, m2);
    lemma_after_move(g, moves, start, k + 2);
    lemma_next_move(g, max, moves, start, outcome, k + 3, "respond"@);
    let m3 = moves[k + 3];
    lemma_respond_move(g, m3);
    lemma_after_move(g, moves, start, k + 3);
    lemma_run_ends(g, max, moves, start, outcome, k + 4);
    let end = state_after(moves, start);
    assert(end == m3.after);
    let n = start.messages.len() as int;
    assert(end.messages[n] == m2.after.messages.last());
    assert(answers(
        registry,
        end.messages[n],
        ToolCallView { id: m2.before.pending_tool_calls[0].id, name, arguments },
    ));
}

/// Every run of the admin setup guide on a conversation in which the user
/// has asked something, and in which no tool call is pending, finishes
/// after five node executions where the ceiling allows five. It leaves
/// the conversation with two messages more: the answer to a search of the
/// administration documentation for the question, and the guide for the
/// question with the note that documentation was found.
pub proof fn lemma_admin_run<T: Tool>(
    g: AgentGraph<T>,
    registry: ToolRegistry<T>,
    max: nat,
    start: StateView,
    executed: nat,
    end: StateView,
    outcome: Result<(), RunErrorView>,
)
    requires
        admin_graph(g, registry),
        max >= 5,
        asked(start),
        runs_to(g, max, start, executed, end, outcome),
    ensures
        outcome == Ok::<(), RunErrorView>(()),
        executed == 5,
        answered_with(
            registry,
            start,
            end,
            "search_wxo_docs"@,
            search_arguments(question(start), "admin"@),
            admin_response(question(start), true),
        ),
{
    let moves = choose|moves: Seq<Move>|
        {
            &&& #[trigger] is_run(g, moves, start)
            &&& moves.len() == executed
            &&& end == state_after(moves, start)
            &&& ending(g, max, moves) == Some(outcome)
        };
    lemma_node_names_differ();
    reveal_with_fuel(position_from, 6);
    assert(g.plan().nodes == crate::agents::admin_setup::admin_plan().nodes);
    assert(g.plan().entry == crate::agents::admin_setup::admin_plan().entry);
    assert(moves.take(0) =~= Seq::<Move>::empty());
    lemma_next_move(g, max, moves, start, outcome, 0, "analyze"@);
    lemma_keys_differ();
    lemma_analyze_move(g, moves[0], "diagnosis"@);
    assert(successor(g.edges(), "analyze"@, moves[0].after) == Some("search_docs"@));
    lemma_after_move(g, moves, start, 0);
    lemma_next_move(g, max, moves, start, outcome, 1, "search_docs"@);
    let arguments = search_arguments(question(start), "admin"@);
    lemma_from_search(g, registry, max, start, moves, outcome, 1, "search_wxo_docs"@, arguments);
}

/// Every run of the usage assistant on such a conversation finishes after
/// five node executions. It leaves the answer of a tool, which is the
/// example finder where the question asks for an example and else the
/// search of the user documentation, and the guide for the question with
/// the note that something was found.
pub proof fn lemma_usage_run<T: Tool>(
    g: AgentGraph<T>,
    registry: ToolRegistry<T>,
    max: nat,
    start: StateView,
    executed: nat,
    end: StateView,
    outcome: Result<(), RunErrorView>,
)
    requires
        usage_graph(g, registry),
        max >= 5,
        asked(start),
        runs_to(g, max, start, executed, end, outcome),
    ensures
        outcome == Ok::<(), RunErrorView>(()),
        executed == 5,
        answered_with(
            registry,
            start,
            end,
            usage_tool(question(start)),
            usage_arguments(question(start)),
            usage_response(question(start), true),
        ),
{
    let moves = choose|moves: Seq<Move>|
        {
            &&& #[trigger] is_run(g, moves, start)
            &&& moves.len() == executed
            &&& end == state_after(moves, start)
            &&& ending(g, max, moves) == Some(outcome)
        };
    lemma_node_names_differ();
    reveal_with_fuel(position_from, 6);
    assert(g.plan().nodes == crate::agents::usage_assistant::usage_plan().nodes);
    assert(g.plan().entry == crate::agents::usage_assistant::usage_plan().entry);
    assert(moves.take(0) =~= Seq::<Move>::empty());
    lemma_next_move(g, max, moves, start, outcome, 0, "analyze"@);
    lemma_keys_differ();
    lemma_analyze_move(g, moves[0], "diagnosis"@);
    let after = moves[0].after;
    assert(routed(g.edges(), "analyze"@, after) == Some(example_target(after)));
    assert(successor(g.edges(), "analyze"@, after) == Some(example_target(after)));
    lemma_after_move(g, moves, start, 0);
    let q = question(start);
    if intent_of(lowered(q)) == "example"@ {
        assert(example_target(after) == "fetch_examples"@);
        lemma_next_move(g, max, moves, start, outcome, 1, "fetch_examples"@);
        lemma_from_fetch(g, registry, max, start, moves, outcome, q);
    } else {
        lemma_next_move(g, max, moves, start, outcome, 1, "search_docs"@);
        lemma_from_search(
            g,
            registry,
            max,
            start,
            moves,
            outcome,
            1,
            "search_wxo_docs"@,
            search_arguments(q, "user"@),
        );
    }
}

/// The tool that the usage assistant calls for a question.
pub open spec fn usage_tool(q: Seq<char>) -> Seq<char> {
    if intent_of(lowered(q)) == "example"@ {
        "fetch_wxo_examples"@
    } else {
        "search_wxo_docs"@
    }
}

/// The arguments with which the usage assistant calls its tool.
pub open spec fn usage_arguments(q: Seq<char>) -> JsonView {
    if intent_of(lowered(q)) == "example"@ {
        example_arguments(q)
    } else {
        search_arguments(q, "user"@)
    }
}

/// The last four moves of a run of the usage assistant on a question
/// that asks for an example: from the example finder's node over the
/// waiting response node and the tools to the response.
proof fn lemma_from_fetch<T: Tool>(
    g: AgentGraph<T>,
    registry: ToolRegistry<T>,
    max: nat,
    start: StateView,
    moves: Seq<Move>,
    outcome: Result<(), RunErrorView>,
    q: Seq<char>,
)
    requires
        usage_graph(g, registry),
        knows(node_ids(g.nodes()), "respond"@),
        knows(node_ids(g.nodes()), "execute_tools"@),
        is_run(g, moves, start),
        ending(g, max, moves) == Some(outcome),
        1 < moves.len(),
        5 <= max,
        moves[1].node == "fetch_examples"@,
        stored_query(moves[1].before) == q,
        q.len() > 0,
        !moves[1].before.has_pending(),
        moves[1].before.messages == start.messages,
        executed_once(
            g,
            "fetch_examples"@,
            moves[1].before,
            moves[1].reached,
            moves[1].signal,
            moves[1].after,
            moves[1].next,
        ),
    ensures
        outcome == Ok::<(), RunErrorView>(()),
        moves.len() == 5,
        answered_with(
            registry,
            start,
            state_after(moves, start),
            "fetch_wxo_examples"@,
            example_arguments(q),
            usage_response(q, true),
        ),
{
    lemma_node_names_differ();
    let m0 = moves[1];
    assert(m0.next == PhaseView::Running("respond"@)) by {
        assert(successor(g.edges(), "fetch_examples"@, m0.after) == Some("respond"@));
    }
    lemma_after_move(g, moves, start, 1);
    lemma_next_move(g, max, moves, start, outcome, 2, "respond"@);
    let m1 = moves[2];
    lemma_wait_move(g, m1);
    lemma_after_move(g, moves, start, 2);
    lemma_next_move(g, max, moves, start, outcome, 3, "execute_tools"@);
    let m2 = moves[3];
    lemma_tools_move(g, registry, m2);
    lemma_after_move(g, moves, start, 3);
    lemma_next_move(g, max, moves, start, outcome, 4, "respond"@);
    let m3 = moves[4];
    lemma_respond_move(g, m3);
    lemma_after_move(g, moves, start, 4);
    lemma_run_ends(g, max, moves, start, outcome, 5);
    let end = state_after(moves, start);
    let n = start.messages.len() as int;
    assert(end.messages[n] == m2.after.messages.last());
    assert(answers(
        registry,
        end.messages[n],
        ToolCallView {
            id: m2.before.pending_tool_calls[0].id,
            name: "fetch_wxo_examples"@,
            arguments: example_arguments(q),
        },
    ));
    assert(tool_outputs(m3.before).len() > 0);
}


/// Every run of the troubleshooting bot on such a conversation finishes
/// after six node executions. It leaves the answer to a search of the
/// troubleshooting documentation for the category of the diagnosis and
/// the question, and the guidance for the diagnosis of the question.
pub proof fn lemma_troubleshoot_run<T: Tool>(
    g: AgentGraph<T>,
    registry: ToolRegistry<T>,
    max: nat,
    start: StateView,
    executed: nat,
    end: StateView,
    outcome: Result<(), RunErrorView>,
)
    requires
        troubleshoot_graph(g, registry),
        max >= 6,
        asked(start),
        runs_to(g, max, start, executed, end, outcome),
    ensures
        outcome == Ok::<(), RunErrorView>(()),
        executed == 6,
        answered_with(
            registry,
            start,
            end,
            "search_wxo_docs"@,
            search_arguments(
                diagnosis_of(lowered(question(start))).category + " "@ + question(start),
                "troubleshooting"@,
            ),
            troubleshoot_response(diagnosis_of(lowered(question(start)))),
        ),
{
    let moves = choose|moves: Seq<Move>|
        {
            &&& #[trigger] is_run(g, moves, start)
            &&& moves.len() == executed
            &&& end == state_after(moves, start)
            &&& ending(g, max, moves) == Some(outcome)
        };
    lemma_node_names_differ();
    lemma_keys_differ();
    reveal_with_fuel(position_from, 6);
    assert(g.plan().nodes == crate::agents::troubleshoot::troubleshoot_plan().nodes);
    assert(g.plan().entry == crate::agents::troubleshoot::troubleshoot_plan().entry);
    assert(moves.take(0) =~= Seq::<Move>::empty());
    lemma_next_move(g, max, moves, start, outcome, 0, "analyze"@);
    lemma_analyze_move(g, moves[0], "diagnosis"@);
    assert(successor(g.edges(), "analyze"@, moves[0].after) == Some("diagnose"@));
    lemma_after_move(g, moves, start, 0);
    lemma_next_move(g, max, moves, start, outcome, 1, "diagnose"@);
    let q = question(start);
    let d = diagnosis_of(lowered(q));
    lemma_store_move(g, "diagnose"@, moves[1], "diagnosis"@, diagnosis_json(d));
    assert(successor(g.edges(), "diagnose"@, moves[1].after) == Some("search_docs"@));
    lemma_after_move(g, moves, start, 1);
    lemma_next_move(g, max, moves, start, outcome, 2, "search_docs"@);
    lemma_diagnosis_round_trip(d);
    let before = moves[2].before;
    assert(stored_category(before) == d.category);
    let arguments = search_arguments(d.category + " "@ + q, "troubleshooting"@);
    lemma_from_search(g, registry, max, start, moves, outcome, 2, "search_wxo_docs"@, arguments);
    assert(reply_diagnosis(moves[5].before) == d);
}

/// Every run of the best practices coach on such a conversation finishes
/// after six node executions. It leaves the answer to a search for
/// examples of the best practices of the question's topic, and the
/// recommendations for the topic.
pub proof fn lemma_best_practices_run<T: Tool>(
    g: AgentGraph<T>,
    registry: ToolRegistry<T>,
    max: nat,
    start: StateView,
    executed: nat,
    end: StateView,
    outcome: Result<(), RunErrorView>,
)
    requires
        best_practices_graph(g, registry),
        max >= 6,
        asked(start),
        runs_to(g, max, start, executed, end, outcome),
    ensures
        outcome == Ok::<(), RunErrorView>(()),
        executed == 6,
        answered_with(
            registry,
            start,
            end,
            "fetch_wxo_examples"@,
            example_arguments(practices_topic(topic_of(lowered(question(start))))),
            best_practices_response(topic_of(lowered(question(start)))),
        ),
{
    let moves = choose|moves: Seq<Move>|
        {
            &&& #[trigger] is_run(g, moves, start)
            &&& moves.len() == executed
            &&& end == state_after(moves, start)
            &&& ending(g, max, moves) == Some(outcome)
        };
    lemma_node_names_differ();
    lemma_keys_differ();
    reveal_with_fuel(position_from, 6);
    assert(g.plan().nodes == crate::agents::best_practices::best_practices_plan().nodes);
    assert(g.plan().entry == crate::agents::best_practices::best_practices_plan().entry);
    assert(moves.take(0) =~= Seq::<Move>::empty());
    lemma_next_move(g, max, moves, start, outcome, 0, "analyze"@);
    lemma_analyze_move(g, moves[0], "bp_topic"@);
    assert(successor(g.edges(), "analyze"@, moves[0].after) == Some("assess"@));
    lemma_after_move(g, moves, start, 0);
    lemma_next_move(g, max, moves, start, outcome, 1, "assess"@);
    let q = question(start);
    let topic = topic_of(lowered(q));
    lemma_store_move(g, "assess"@, moves[1], "bp_topic"@, JsonView::Text(topic));
    assert(successor(g.edges(), "assess"@, moves[1].after) == Some("search_docs"@));
    lemma_after_move(g, moves, start, 1);
    lemma_next_move(g, max, moves, start, outcome, 2, "search_docs"@);
    assert(stored_topic(moves[2].before) == topic);
    let arguments = example_arguments(practices_topic(topic));
    lemma_from_search(g, registry, max, start, moves, outcome, 2, "fetch_wxo_examples"@, arguments);
    assert(stored_topic(moves[5].before) == topic);
}

/// Every run of the documentation helper on such a conversation finishes
/// after six node executions. It leaves the answer to a search of the
/// documentation for the question in the question's category, and the
/// guide for the category, which lists what the searches found.
pub proof fn lemma_docs_run<T: Tool>(
    g: AgentGraph<T>,
    registry: ToolRegistry<T>,
    max: nat,
    start: StateView,
    executed: nat,
    end: StateView,
    outcome: Result<(), RunErrorView>,
)
    requires
        docs_graph(g, registry),
        max >= 6,
        asked(start),
        runs_to(g, max, start, executed, end, outcome),
    ensures
        outcome == Ok::<(), RunErrorView>(()),
        executed == 6,
        answered_with(
            registry,
            start,
            end,
            "search_wxo_docs"@,
            search_arguments(question(start), category_of(lowered(question(start))).primary),
            docs_response(
                category_of(lowered(question(start))).primary,
                tool_outputs(start).push(end.messages[start.messages.len() as int].content),
            ),
        ),
{
    let moves = choose|moves: Seq<Move>|
        {
            &&& #[trigger] is_run(g, moves, start)
            &&& moves.len() == executed
            &&& end == state_after(moves, start)
            &&& ending(g, max, moves) == Some(outcome)
        };
    lemma_node_names_differ();
    lemma_keys_differ();
    reveal_with_fuel(position_from, 6);
    assert(g.plan().nodes == crate::agents::docs_helper::docs_plan().nodes);
    assert(g.plan().entry == crate::agents::docs_helper::docs_plan().entry);
    assert(moves.take(0) =~= Seq::<Move>::empty());
    lemma_next_move(g, max, moves, start, outcome, 0, "analyze"@);
    lemma_analyze_move(g, moves[0], "docs_category"@);
    assert(successor(g.edges(), "analyze"@, moves[0].after) == Some("categorize"@));
    lemma_after_move(g, moves, start, 0);
    lemma_next_move(g, max, moves, start, outcome, 1, "categorize"@);
    let q = question(start);
    let c = category_of(lowered(q));
    lemma_store_move(g, "categorize"@, moves[1], "docs_category"@, category_json(c));
    assert(successor(g.edges(), "categorize"@, moves[1].after) == Some("search_docs"@));
    lemma_after_move(g, moves, start, 1);
    lemma_next_move(g, max, moves, start, outcome, 2, "search_docs"@);
    lemma_category_round_trip(c);
    assert(working_category(moves[2].before) == c);
    let arguments = search_arguments(q, c.primary);
    lemma_from_search(g, registry, max, start, moves, outcome, 2, "search_wxo_docs"@, arguments);
    assert(working_category(moves[5].before) == c);
}

/// The documentation search reads the arguments that a search node
/// writes: the query, the category, and a limit of five.
pub proof fn lemma_search_arguments_read(query: Seq<char>, category: Seq<char>)
    ensures
        search_input(search_arguments(query, category)) == Ok::<SearchDocsInputView, Seq<char>>(
            SearchDocsInputView { query, limit: 5, category: Some(category) },
        ),
{
    reveal_strlit("query");
    reveal_strlit("category");
    reveal_strlit("limit");
    assert("query"@[0] == 'q' && "category"@[0] == 'c' && "limit"@[0] == 'l');
    reveal_with_fuel(crate::json::lookup_from, 4);
}

/// The text that the documentation search of this library returns for a
/// query in a category: the first five documents of the built-in
/// catalogue in the category that match the query, as indented JSON text.
pub open spec fn search_text(query: Seq<char>, category: Seq<char>) -> Seq<char> {
    pretty_text(docs_json(found_docs(query, Some(category), 5)))
}

/// A tool message that answers a documentation search holds the result of
/// the search, where the registry holds the documentation search of this
/// library.
pub proof fn lemma_search_answer(
    registry: ToolRegistry<WxoTool>,
    m: crate::state::MessageView,
    id: Seq<char>,
    query: Seq<char>,
    category: Seq<char>,
)
    requires
        searches_docs(registry),
        answers(
            registry,
            m,
            ToolCallView {
                id,
                name: "search_wxo_docs"@,
                arguments: search_arguments(query, category),
            },
        ),
    ensures
        m.content == search_text(query, category),
{
    lemma_search_arguments_read(query, category);
    let call = ToolCallView {
        id,
        name: "search_wxo_docs"@,
        arguments: search_arguments(query, category),
    };
    let result = choose|result: ToolResultView| #[trigger]
        registry.answers(call, result) && m.content == result.text();
}

/// The last two moves of a run on an empty message, which are the same
/// for every agent: the node `node`, which would queue a call for a stored
/// question, queues none, and the response node responds.
proof fn lemma_from_quiet_search<T: Tool>(
    g: AgentGraph<T>,
    max: nat,
    start: StateView,
    moves: Seq<Move>,
    outcome: Result<(), RunErrorView>,
    k: int,
    node: Seq<char>,
)
    requires
        routes_by_tools(g),
        g.node_named("respond"@).is_response(),
        forall|s: StateView| #[trigger] successor(g.edges(), node, s) == Some("respond"@),
        knows(node_ids(g.nodes()), "respond"@),
        is_run(g, moves, start),
        ending(g, max, moves) == Some(outcome),
        0 <= k < moves.len(),
        k + 2 <= max,
        moves[k].node == node,
        g.node_named(node).signal() == SignalView::Continue,
        g.node_named(node).step(moves[k].before, moves[k].reached) ==> moves[k].reached
            == moves[k].before,
        !moves[k].before.has_pending(),
        moves[k].before.messages == start.messages,
        executed_once(
            g,
            node,
            moves[k].before,
            moves[k].reached,
            moves[k].signal,
            moves[k].after,
            moves[k].next,
        ),
    ensures
        outcome == Ok::<(), RunErrorView>(()),
        moves.len() == k + 2,
        moves[k + 1].before.context == moves[k].before.context,
        moves[k + 1].before.messages == start.messages,
        replied_with(
            start,
            state_after(moves, start),
            g.node_named("respond"@).reply(moves[k + 1].before),
        ),
{
    lemma_node_names_differ();
    let m0 = moves[k];
    assert(m0.next == PhaseView::Running("respond"@)) by {
        assert(successor(g.edges(), node, m0.after) == Some("respond"@));
    }
    lemma_after_move(g, moves, start, k);
    lemma_next_move(g, max, moves, start, outcome, k + 1, "respond"@);
    lemma_respond_move(g, moves[k + 1]);
    lemma_after_move(g, moves, start, k + 1);
    lemma_run_ends(g, max, moves, start, outcome, k + 2);
}

/// Every run of the admin setup guide on an empty message finishes after
/// three node executions without a tool call, and leaves the guide for
/// the empty message, with the note on documentation where a tool had
/// answered before.
pub proof fn lemma_admin_quiet_run<T: Tool>(
    g: AgentGraph<T>,
    registry: ToolRegistry<T>,
    max: nat,
    start: StateView,
    executed: nat,
    end: StateView,
    outcome: Result<(), RunErrorView>,
)
    requires
        admin_graph(g, registry),
        max >= 3,
        silent(start),
        runs_to(g, max, start, executed, end, outcome),
    ensures
        outcome == Ok::<(), RunErrorView>(()),
        executed == 3,
        replied_with(start, end, admin_response(question(start), tool_outputs(start).len() > 0)),
{
    let moves = choose|moves: Seq<Move>|
        {
            &&& #[trigger] is_run(g, moves, start)
            &&& moves.len() == executed
            &&& end == state_after(moves, start)
            &&& ending(g, max, moves) == Some(outcome)
        };
    lemma_node_names_differ();
    lemma_keys_differ();
    reveal_with_fuel(position_from, 6);
    assert(g.plan().nodes == crate::agents::admin_setup::admin_plan().nodes);
    assert(g.plan().entry == crate::agents::admin_setup::admin_plan().entry);
    assert(moves.take(0) =~= Seq::<Move>::empty());
    lemma_next_move(g, max, moves, start, outcome, 0, "analyze"@);
    lemma_analyze_move(g, moves[0], "diagnosis"@);
    assert(successor(g.edges(), "analyze"@, moves[0].after) == Some("search_docs"@));
    lemma_after_move(g, moves, start, 0);
    lemma_next_move(g, max, moves, start, outcome, 1, "search_docs"@);
    lemma_from_quiet_search(g, max, start, moves, outcome, 1, "search_docs"@);
}

/// Every run of the usage assistant on an empty message finishes after
/// three node executions without a tool call, and leaves the guide for
/// the empty message.
pub proof fn lemma_usage_quiet_run<T: Tool>(
    g: AgentGraph<T>,
    registry: ToolRegistry<T>,
    max: nat,
    start: StateView,
    executed: nat,
    end: StateView,
    outcome: Result<(), RunErrorView>,
)
    requires
        usage_graph(g, registry),
        max >= 3,
        silent(start),
        runs_to(g, max, start, executed, end, outcome),
    ensures
        outcome == Ok::<(), RunErrorView>(()),
        executed == 3,
        replied_with(start, end, usage_response(question(start), tool_outputs(start).len() > 0)),
{
    let moves = choose|moves: Seq<Move>|
        {
            &&& #[trigger] is_run(g, moves, start)
            &&& moves.len() == executed
            &&& end == state_after(moves, start)
            &&& ending(g, max, moves) == Some(outcome)
        };
    lemma_node_names_differ();
    lemma_keys_differ();
    reveal_with_fuel(position_from, 6);
    assert(g.plan().nodes == crate::agents::usage_assistant::usage_plan().nodes);
    assert(g.plan().entry == crate::agents::usage_assistant::usage_plan().entry);
    assert(moves.take(0) =~= Seq::<Move>::empty());
    lemma_next_move(g, max, moves, start, outcome, 0, "analyze"@);
    lemma_analyze_move(g, moves[0], "diagnosis"@);
    let after = moves[0].after;
    assert(routed(g.edges(), "analyze"@, after) == Some(example_target(after)));
    assert(successor(g.edges(), "analyze"@, after) == Some(example_target(after)));
    lemma_after_move(g, moves, start, 0);
    if example_target(after) == "fetch_examples"@ {
        lemma_next_move(g, max, moves, start, outcome, 1, "fetch_examples"@);
        lemma_from_quiet_search(g, max, start, moves, outcome, 1, "fetch_examples"@);
    } else {
        lemma_next_move(g, max, moves, start, outcome, 1, "search_docs"@);
        lemma_from_quiet_search(g, max, start, moves, outcome, 1, "search_docs"@);
    }
}

/// Every run of the troubleshooting bot on an empty message finishes
/// after four node executions without a tool call, and leaves the
/// guidance for its diagnosis of the empty message.
pub proof fn lemma_troubleshoot_quiet_run<T: Tool>(
    g: AgentGraph<T>,
    registry: ToolRegistry<T>,
    max: nat,
    start: StateView,
    executed: nat,
    end: StateView,
    outcome: Result<(), RunErrorView>,
)
    requires
        troubleshoot_graph(g, registry),
        max >= 4,
        silent(start),
        runs_to(g, max, start, executed, end, outcome),
    ensures
        outcome == Ok::<(), RunErrorView>(()),
        executed == 4,
        replied_with(start, end, troubleshoot_response(diagnosis_of(lowered(question(start))))),
{
    let moves = choose|moves: Seq<Move>|
        {
            &&& #[trigger] is_run(g, moves, start)
            &&& moves.len() == executed
            &&& end == state_after(moves, start)
            &&& ending(g, max, moves) == Some(outcome)
        };
    lemma_node_names_differ();
    lemma_keys_differ();
    reveal_with_fuel(position_from, 6);
    assert(g.plan().nodes == crate::agents::troubleshoot::troubleshoot_plan().nodes);
    assert(g.plan().entry == crate::agents::troubleshoot::troubleshoot_plan().entry);
    assert(moves.take(0) =~= Seq::<Move>::empty());
    lemma_next_move(g, max, moves, start, outcome, 0, "analyze"@);
    lemma_analyze_move(g, moves[0], "diagnosis"@);
    assert(successor(g.edges(), "analyze"@, moves[0].after) == Some("diagnose"@));
    lemma_after_move(g, moves, start, 0);
    lemma_next_move(g, max, moves, start, outcome, 1, "diagnose"@);
    let d = diagnosis_of(lowered(question(start)));
    lemma_store_move(g, "diagnose"@, moves[1], "diagnosis"@, diagnosis_json(d));
    assert(successor(g.edges(), "diagnose"@, moves[1].after) == Some("search_docs"@));
    lemma_after_move(g, moves, start, 1);
    lemma_next_move(g, max, moves, start, outcome, 2, "search_docs"@);
    lemma_diagnosis_round_trip(d);
    lemma_from_quiet_search(g, max, start, moves, outcome, 2, "search_docs"@);
    assert(reply_diagnosis(moves[3].before) == d);
}

/// Every run of the best practices coach on an empty message finishes
/// after four node executions without a tool call, and leaves the
/// recommendations for the topic of the empty message.
pub proof fn lemma_best_practices_quiet_run<T: Tool>(
    g: AgentGraph<T>,
    registry: ToolRegistry<T>,
    max: nat,
    start: StateView,
    executed: nat,
    end: StateView,
    outcome: Result<(), RunErrorView>,
)
    requires
        best_practices_graph(g, registry),
        max >= 4,
        silent(start),
        runs_to(g, max, start, executed, end, outcome),
    ensures
        outcome == Ok::<(), RunErrorView>(()),
        executed == 4,
        replied_with(start, end, best_practices_response(topic_of(lowered(question(start))))),
{
    let moves = choose|moves: Seq<Move>|
        {
            &&& #[trigger] is_run(g, moves, start)
            &&& moves.len() == executed
            &&& end == state_after(moves, start)
            &&& ending(g, max, moves) == Some(outcome)
        };
    lemma_node_names_differ();
    lemma_keys_differ();
    reveal_with_fuel(position_from, 6);
    assert(g.plan().nodes == crate::agents::best_practices::best_practices_plan().nodes);
    assert(g.plan().entry == crate::agents::best_practices::best_practices_plan().entry);
    assert(moves.take(0) =~= Seq::<Move>::empty());
    lemma_next_move(g, max, moves, start, outcome, 0, "analyze"@);
    lemma_analyze_move(g, moves[0], "bp_topic"@);
    assert(successor(g.edges(), "analyze"@, moves[0].after) == Some("assess"@));
    lemma_after_move(g, moves, start, 0);
    lemma_next_move(g, max, moves, start, outcome, 1, "assess"@);
    let topic = topic_of(lowered(question(start)));
    lemma_store_move(g, "assess"@, moves[1], "bp_topic"@, JsonView::Text(topic));
    assert(successor(g.edges(), "assess"@, moves[1].after) == Some("search_docs"@));
    lemma_after_move(g, moves, start, 1);
    lemma_next_move(g, max, moves, start, outcome, 2, "search_docs"@);
    lemma_from_quiet_search(g, max, start, moves, outcome, 2, "search_docs"@);
    assert(stored_topic(moves[3].before) == topic);
}

/// Every run of the documentation helper on an empty message finishes
/// after four node executions without a tool call, and leaves the guide
/// for the category of the empty message, which lists what tools had
/// found before.
pub proof fn lemma_docs_quiet_run<T: Tool>(
    g: AgentGraph<T>,
    registry: ToolRegistry<T>,
    max: nat,
    start: StateView,
    executed: nat,
    end: StateView,
    outcome: Result<(), RunErrorView>,
)
    requires
        docs_graph(g, registry),
        max >= 4,
        silent(start),
        runs_to(g, max, start, executed, end, outcome),
    ensures
        outcome == Ok::<(), RunErrorView>(()),
        executed == 4,
        replied_with(
            start,
            end,
            docs_response(category_of(lowered(question(start))).primary, tool_outputs(start)),
        ),
{
    let moves = choose|moves: Seq<Move>|
        {
            &&& #[trigger] is_run(g, moves, start)
            &&& moves.len() == executed
            &&& end == state_after(moves, start)
            &&& ending(g, max, moves) == Some(outcome)
        };
    lemma_node_names_differ();
    lemma_keys_differ();
    reveal_with_fuel(position_from, 6);
    assert(g.plan().nodes == crate::agents::docs_helper::docs_plan().nodes);
    assert(g.plan().entry == crate::agents::docs_helper::docs_plan().entry);
    assert(moves.take(0) =~= Seq::<Move>::empty());
    lemma_next_move(g, max, moves, start, outcome, 0, "analyze"@);
    lemma_analyze_move(g, moves[0], "docs_category"@);
    assert(successor(g.edges(), "analyze"@, moves[0].after) == Some("categorize"@));
    lemma_after_move(g, moves, start, 0);
    lemma_next_move(g, max, moves, start, outcome, 1, "categorize"@);
    let c = category_of(lowered(question(start)));
    lemma_store_move(g, "categorize"@, moves[1], "docs_category"@, category_json(c));
    assert(successor(g.edges(), "categorize"@, moves[1].after) == Some("search_docs"@));
    lemma_after_move(g, moves, start, 1);
    lemma_next_move(g, max, moves, start, outcome, 2, "search_docs"@);
    lemma_category_round_trip(c);
    lemma_from_quiet_search(g, max, start, moves, outcome, 2, "search_docs"@);
    assert(working_category(moves[3].before) == c);
}

} // verus!
