//! One turn of a conversation: a message goes in, the agent's graph runs,
//! and the reply comes out.

use vstd::prelude::*;
use crate::agents::admin_setup::admin_response;
use crate::agents::best_practices::{best_practices_response, topic_of};
use crate::agents::docs_helper::{category_of, docs_response};
use crate::agents::laws::{
    asked, lemma_admin_quiet_run, lemma_admin_run, lemma_best_practices_quiet_run,
    lemma_best_practices_run, lemma_docs_quiet_run, lemma_docs_run, lemma_search_answer,
    lemma_troubleshoot_quiet_run, lemma_troubleshoot_run, lemma_usage_quiet_run, lemma_usage_run,
    question, search_text, silent,
};
use crate::agents::troubleshoot::{diagnosis_of, troubleshoot_response};
use crate::agents::usage_assistant::usage_response;
use crate::agents::{
    answers, assistant_reply, build_agent_graph_with, search_arguments, tool_outputs, tool_texts,
};
use crate::runner::{outcome_view, GraphRunner, RunnerConfig};
use crate::state::{fresh_id, AgentType, MessageRole, MessageView, ToolCallView, WxorcaState};
use crate::tools::{create_tool_registry, Tool, ToolRegistry};
use crate::text::{join2, lowered};

verus! {

/// What an agent answers to one message.
#[derive(Debug, Clone)]
pub struct AgentResponse {
    /// The session that the message belongs to.
    pub session_id: String,
    /// The display name of the agent.
    pub agent_type: String,
    /// The agent's reply; empty where the run failed.
    pub response: String,
    /// Why the run failed, where it did.
    pub error: Option<String>,
}

/// The most node executions that one turn may take.
pub const TURN_CEILING: u32 = 10;

/// The reply of each kind of agent to the first message of a
/// conversation. Tools are called for a message that is not empty. The
/// admin setup guide and the usage assistant give their guide for the
/// message, and note where the tools were called that something was
/// found; the troubleshooting bot gives the guidance for its diagnosis of
/// the message; the best practices coach gives the recommendations for
/// the topic of the message; and the documentation helper gives the guide
/// for the category of the message, which lists what the search of that
/// category found for the message.
pub open spec fn turn_reply(agent_type: AgentType, message: Seq<char>) -> Seq<char> {
    let found = message.len() > 0;
    match agent_type {
        AgentType::AdminSetup => admin_response(message, found),
        AgentType::UsageAssistant => usage_response(message, found),
        AgentType::Troubleshoot => troubleshoot_response(diagnosis_of(lowered(message))),
        AgentType::BestPractices => best_practices_response(topic_of(lowered(message))),
        AgentType::DocsHelper => docs_response(
            category_of(lowered(message)).primary,
            if found {
                seq![search_text(message, category_of(lowered(message)).primary)]
            } else {
                Seq::empty()
            },
        ),
    }
}

/// What the documentation search of the registry may have found for a
/// message: the content of a tool message that answers the search of the
/// message's category for the message.
pub open spec fn may_find<T: Tool>(
    tool_registry: ToolRegistry<T>,
    message: Seq<char>,
    text: Seq<char>,
) -> bool {
    exists|found: MessageView, id: Seq<char>|
        found.content == text && #[trigger] answers(
            tool_registry,
            found,
            ToolCallView {
                id,
                name: "search_wxo_docs"@,
                arguments: search_arguments(message, category_of(lowered(message)).primary),
            },
        )
}

/// Runs the agent of the given kind, built around the tools given, on one
/// message of a user and gives its reply. The conversation is a new one;
/// it belongs to the session given, or to a fresh one. No agent fails.
/// Each gives its [`turn_reply`]; that of the documentation helper to a
/// message that is not empty lists what the documentation search among
/// the tools given found.
pub fn process_message_with<T: Tool>(
    agent_type: AgentType,
    tool_registry: ToolRegistry<T>,
    session_id: Option<&str>,
    message: &str,
) -> (r: AgentResponse)
    ensures
        r.agent_type@ == agent_type.display_name_text(),
        match session_id {
            Some(s) => r.session_id@ == s@,
            None => r.session_id@.len() == 36,
        },
        r.error is None,
        if agent_type == AgentType::DocsHelper && message@.len() > 0 {
            exists|text: Seq<char>| #[trigger]
                may_find(tool_registry, message@, text) && r.response@ == docs_response(
                    category_of(lowered(message@)).primary,
                    seq![text],
                )
        } else {
            r.response@ == turn_reply(agent_type, message@)
        },
{
    let graph = match build_agent_graph_with(agent_type, tool_registry) {
        Ok(g) => g,
        Err(e) => {
            return AgentResponse {
                session_id: match session_id {
                    Some(s) => s.to_string(),
                    None => fresh_id(),
                },
                agent_type: agent_type.to_string(),
                response: String::new(),
                error: Some(join2("Failed to build agent graph: ", e.message().as_str())),
            };
        },
    };
    let mut state = match session_id {
        Some(s) => WxorcaState::with_session_id(agent_type, s),
        None => WxorcaState::new(agent_type),
    };
    state.add_user_message(message);
    let session = state.session_id.clone();
    let ghost start = state@;
    assert(start.last_of(MessageRole::User) == start.messages.len() - 1);
    let runner = GraphRunner::new(graph, RunnerConfig::default().max_iterations(TURN_CEILING));
    let report = runner.run(&mut state);
    proof {
        let registry = tool_registry;
        let max = TURN_CEILING as nat;
        let executed = report.executed as nat;
        let outcome = outcome_view(report.outcome);
        assert(question(start) == message@);
        reveal_with_fuel(tool_texts, 2);
        assert(tool_outputs(start) =~= Seq::<Seq<char>>::empty());
        if message@.len() > 0 {
            assert(asked(start));
            match agent_type {
                AgentType::AdminSetup => {
                    lemma_admin_run(graph, registry, max, start, executed, state@, outcome);
                },
                AgentType::UsageAssistant => {
                    lemma_usage_run(graph, registry, max, start, executed, state@, outcome);
                },
                AgentType::Troubleshoot => {
                    lemma_troubleshoot_run(graph, registry, max, start, executed, state@, outcome);
                },
                AgentType::BestPractices => {
                    lemma_best_practices_run(
                        graph,
                        registry,
                        max,
                        start,
                        executed,
                        state@,
                        outcome,
                    );
                },
                AgentType::DocsHelper => {
                    lemma_docs_run(graph, registry, max, start, executed, state@, outcome);
                    let category = category_of(lowered(message@)).primary;
                    let found = state@.messages[start.messages.len() as int];
                    let id = choose|id: Seq<char>| #[trigger]
                        answers(
                            registry,
                            found,
                            ToolCallView {
                                id,
                                name: "search_wxo_docs"@,
                                arguments: search_arguments(message@, category),
                            },
                        );
                    assert(may_find(registry, message@, found.content));
                    assert(tool_outputs(start).push(found.content) =~= seq![found.content]);
                },
            }
        } else {
            assert(silent(start));
            match agent_type {
                AgentType::AdminSetup => {
                    lemma_admin_quiet_run(graph, registry, max, start, executed, state@, outcome);
                },
                AgentType::UsageAssistant => {
                    lemma_usage_quiet_run(graph, registry, max, start, executed, state@, outcome);
                },
                AgentType::Troubleshoot => {
                    lemma_troubleshoot_quiet_run(
                        graph,
                        registry,
                        max,
                        start,
                        executed,
                        state@,
                        outcome,
                    );
                },
                AgentType::BestPractices => {
                    lemma_best_practices_quiet_run(
                        graph,
                        registry,
                        max,
                        start,
                        executed,
                        state@,
                        outcome,
                    );
                },
                AgentType::DocsHelper => {
                    lemma_docs_quiet_run(graph, registry, max, start, executed, state@, outcome);
                },
            }
        }
        assert(state@.last_of(MessageRole::Assistant) == state@.messages.len() - 1);
    }
    match report.outcome {
        Ok(()) => AgentResponse {
            session_id: session,
            agent_type: agent_type.to_string(),
            response: assistant_reply(&state),
            error: None,
        },
        Err(e) => AgentResponse {
            session_id: session,
            agent_type: agent_type.to_string(),
            response: String::new(),
            error: Some(join2("Agent execution failed: ", e.message().as_str())),
        },
    }
}

/// Runs the agent of the given kind, built around the tools of this
/// library, on one message of a user and gives its reply. The
/// conversation is a new one; it belongs to the session given, or to a
/// fresh one. No agent fails: each gives its [`turn_reply`].
pub fn process_message(agent_type: AgentType, session_id: Option<&str>, message: &str) -> (r:
    AgentResponse)
    ensures
        r.agent_type@ == agent_type.display_name_text(),
        match session_id {
            Some(s) => r.session_id@ == s@,
            None => r.session_id@.len() == 36,
        },
        r.error is None,
        r.response@ == turn_reply(agent_type, message@),
{
    let tool_registry = create_tool_registry();
    proof {
        reveal_strlit("search_wxo_docs");
        reveal_with_fuel(crate::text::position_from, 2);
        assert(tool_registry.names_spec()[0] == "search_wxo_docs"@);
    }
    let r = process_message_with(agent_type, tool_registry, session_id, message);
    proof {
        if agent_type == AgentType::DocsHelper && message@.len() > 0 {
            let category = category_of(lowered(message@)).primary;
            let text = choose|text: Seq<char>| #[trigger]
                may_find(tool_registry, message@, text) && r.response@ == docs_response(
                    category,
                    seq![text],
                );
            let (found, id) = choose|found: MessageView, id: Seq<char>|
                found.content == text && #[trigger] answers(
                    tool_registry,
                    found,
                    ToolCallView {
                        id,
                        name: "search_wxo_docs"@,
                        arguments: search_arguments(message@, category),
                    },
                );
            lemma_search_answer(tool_registry, found, id, message@, category);
        }
    }
    r
}

} // verus!
