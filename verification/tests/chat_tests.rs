use wxorca_agents::agents::admin_setup::{ADMIN_DOCS_NOTE, ADMIN_OVERVIEW};
use wxorca_agents::chat::{process_message, process_message_with, TURN_CEILING};
use wxorca_agents::json::Json;
use wxorca_agents::tools::{Tool, ToolError, ToolRegistry};
use wxorca_agents::state::AgentType;

#[test]
fn a_turn_gives_the_reply_of_the_agent() {
    let r = process_message(AgentType::AdminSetup, Some("session-1"), "How do I reset my password?");
    assert_eq!(r.session_id, "session-1");
    assert_eq!(r.agent_type, "Admin Setup Guide");
    assert_eq!(r.error, None);
    assert_eq!(r.response, format!("{}{}", ADMIN_OVERVIEW, ADMIN_DOCS_NOTE));
    assert_eq!(TURN_CEILING, 10);
}

#[test]
fn a_turn_without_a_session_starts_one() {
    let a = process_message(AgentType::UsageAssistant, None, "Tell me about skills");
    let b = process_message(AgentType::UsageAssistant, None, "Tell me about skills");
    assert_eq!(a.session_id.len(), 36);
    assert_ne!(a.session_id, b.session_id);
    assert_eq!(a.response, b.response);
    assert!(a.response.starts_with("## Working with Skills\n\n"));
    assert!(a.response.ends_with("I found some relevant information. Check the details above."));
}

#[test]
fn every_agent_replies_to_a_message() {
    let r = process_message(AgentType::Troubleshoot, None, "I get a timeout");
    assert_eq!(r.agent_type, "Troubleshooting Bot");
    assert!(r.error.is_none());
    assert!(r.response.contains("Issue Analysis: PERFORMANCE"));
    let r = process_message(AgentType::BestPractices, None, "How do I keep secrets secure? security");
    assert!(r.response.contains("Best Practices: SECURITY"));
    let r = process_message(AgentType::DocsHelper, None, "Where is the admin guide?");
    assert!(r.error.is_none());
    assert!(r.response.contains("### Administration Documentation"));
    assert!(r.response.contains("Relevant Documentation Found"));
    assert!(r.response.contains(
        "- **[Admin Setup Guide](https://www.ibm.com/docs/watsonx-orchestrate/admin-guide)**\n  _This guide walks administrators through the initial setup of WatsonX Orchestrate, including user man..._\n\n"
    ));
    let r = process_message(AgentType::UsageAssistant, None, "Give me a sample workflow");
    assert!(r.response.starts_with("## Building Workflows\n\n"));
}

#[test]
fn an_empty_message_is_answered_without_tools() {
    let r = process_message(AgentType::AdminSetup, None, "");
    assert!(r.error.is_none());
    assert_eq!(r.response, ADMIN_OVERVIEW);
    let r = process_message(AgentType::DocsHelper, None, "");
    assert!(r.error.is_none());
    assert!(!r.response.contains("Relevant Documentation Found"));
}

struct Canned;

impl Tool for Canned {
    fn name(&self) -> &str {
        "search_wxo_docs"
    }

    fn description(&self) -> &str {
        "Finds one document"
    }

    fn parameters_schema(&self) -> Json {
        Json::Null
    }

    fn execute(&self, arguments: &Json) -> Result<String, ToolError> {
        match arguments.text_at("category") {
            Some(c) => Ok(format!("[{{\"title\": \"On {}\", \"url\": \"u\"}}]", c)),
            None => Err(ToolError::invalid_arguments("no category")),
        }
    }
}

#[test]
fn a_turn_uses_the_tools_that_are_given() {
    let registry = ToolRegistry::new().register(Canned);
    let r = process_message_with(AgentType::DocsHelper, registry, Some("s"), "the api please");
    assert!(r.error.is_none());
    assert_eq!(r.session_id, "s");
    assert!(r.response.contains("### API Documentation"));
    assert!(r.response.contains("- **[On api](u)**\n\n"));
    // Without the tool that a node asks for, the turn still ends well.
    let empty: ToolRegistry<Canned> = ToolRegistry::new();
    let r = process_message_with(AgentType::BestPractices, empty, None, "speed");
    assert!(r.error.is_none());
    assert!(r.response.contains("Best Practices: PERFORMANCE"));
}
