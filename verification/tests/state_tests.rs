use wxorca_agents::json::Json;
use wxorca_agents::state::{AgentType, Message, MessageRole, WxorcaState};

#[test]
fn test_agent_type_from_str() {
    assert_eq!(
        "admin-setup".parse::<AgentType>().unwrap(),
        AgentType::AdminSetup
    );
    assert_eq!(
        "troubleshoot".parse::<AgentType>().unwrap(),
        AgentType::Troubleshoot
    );
    assert_eq!("docs".parse::<AgentType>().unwrap(), AgentType::DocsHelper);
}

#[test]
fn test_state_messages() {
    let mut state = WxorcaState::new(AgentType::UsageAssistant);
    state.add_user_message("Hello");
    state.add_assistant_message("Hi there!");

    assert_eq!(state.messages.len(), 2);
    assert_eq!(state.last_user_message().unwrap().content, "Hello");
    assert_eq!(state.last_assistant_message().unwrap().content, "Hi there!");
}

#[test]
fn test_state_tool_calls() {
    let mut state = WxorcaState::default();
    assert!(!state.has_pending_tool_calls());

    state.add_tool_call(
        "call_1",
        "search_docs",
        Json::object1("query", Json::text("setup")),
    );
    assert!(state.has_pending_tool_calls());

    state.clear_tool_calls();
    assert!(!state.has_pending_tool_calls());
}

#[test]
fn agent_type_names_in_any_case() {
    assert_eq!("ADMIN_SETUP".parse::<AgentType>().unwrap(), AgentType::AdminSetup);
    assert_eq!("adminsetup".parse::<AgentType>().unwrap(), AgentType::AdminSetup);
    assert_eq!("Usage".parse::<AgentType>().unwrap(), AgentType::UsageAssistant);
    assert_eq!("usage-assistant".parse::<AgentType>().unwrap(), AgentType::UsageAssistant);
    assert_eq!("Troubleshooting".parse::<AgentType>().unwrap(), AgentType::Troubleshoot);
    assert_eq!("best_practices".parse::<AgentType>().unwrap(), AgentType::BestPractices);
    assert_eq!("BestPractices".parse::<AgentType>().unwrap(), AgentType::BestPractices);
    assert_eq!("Documentation".parse::<AgentType>().unwrap(), AgentType::DocsHelper);
    assert_eq!("docs-helper".parse::<AgentType>().unwrap(), AgentType::DocsHelper);
}

#[test]
fn agent_type_unknown_name_is_an_error() {
    assert_eq!(
        "Wizard".parse::<AgentType>(),
        Err("Unknown agent type: Wizard".to_string())
    );
    assert!("".parse::<AgentType>().is_err());
}

#[test]
fn agent_type_texts() {
    assert_eq!(AgentType::AdminSetup.display_name(), "Admin Setup Guide");
    assert_eq!(AgentType::UsageAssistant.display_name(), "Usage Assistant");
    assert_eq!(AgentType::Troubleshoot.display_name(), "Troubleshooting Bot");
    assert_eq!(AgentType::BestPractices.display_name(), "Best Practices Coach");
    assert_eq!(AgentType::DocsHelper.display_name(), "Documentation Helper");
    assert_eq!(AgentType::DocsHelper.to_string(), "Documentation Helper");
    assert_eq!(AgentType::default(), AgentType::AdminSetup);
    assert_eq!(AgentType::all().len(), 5);
    assert_eq!(AgentType::all()[0], AgentType::AdminSetup);
    assert_eq!(AgentType::all()[4], AgentType::DocsHelper);
    assert!(AgentType::Troubleshoot
        .description()
        .starts_with("I help diagnose and resolve issues with WatsonX Orchestrate. Describe"));
    for agent_type in AgentType::all() {
        assert!(!agent_type.system_prompt().is_empty());
    }
}

#[test]
fn new_state_is_empty_and_has_a_fresh_session() {
    let a = WxorcaState::new(AgentType::Troubleshoot);
    let b = WxorcaState::new(AgentType::Troubleshoot);
    assert_eq!(a.agent_type, AgentType::Troubleshoot);
    assert_eq!(a.session_id.len(), 36);
    assert_ne!(a.session_id, b.session_id);
    assert!(a.messages.is_empty());
    assert!(a.pending_tool_calls.is_empty());
    assert!(a.context.metadata.is_empty());
    assert_eq!(a.iteration, 0);
    assert!(!a.is_complete);
    assert_eq!(a.created_at, a.updated_at);
    // The clock is read, not made up: the time lies after the year 2020.
    assert!(a.created_at > 1_577_836_800_000);
}

#[test]
fn with_session_id_keeps_the_identifier() {
    let state = WxorcaState::with_session_id(AgentType::DocsHelper, "session-7");
    assert_eq!(state.session_id, "session-7");
    assert_eq!(state.agent_type, AgentType::DocsHelper);
}

#[test]
fn messages_are_stamped() {
    let user = Message::user("one");
    let assistant = Message::assistant("two");
    let system = Message::system("three");
    let tool = Message::tool_result("call_9", "four");
    assert_eq!(user.role, MessageRole::User);
    assert_eq!(assistant.role, MessageRole::Assistant);
    assert_eq!(system.role, MessageRole::System);
    assert_eq!(tool.role, MessageRole::Tool);
    assert_eq!(tool.tool_call_id, Some("call_9".to_string()));
    assert_eq!(user.tool_call_id, None);
    assert_eq!(tool.content, "four");
    assert_eq!(user.id.len(), 36);
    assert_ne!(user.id, assistant.id);
}

#[test]
fn last_message_lookups_scan_from_the_end() {
    let mut state = WxorcaState::with_session_id(AgentType::AdminSetup, "s");
    assert!(state.last_user_message().is_none());
    assert!(state.last_assistant_message().is_none());
    state.add_user_message("first");
    state.add_assistant_message("answer");
    state.add_user_message("second");
    state.add_tool_result("call_1", "result");
    assert_eq!(state.last_user_message().unwrap().content, "second");
    assert_eq!(state.last_assistant_message().unwrap().content, "answer");
    assert_eq!(
        state.last_message_of(MessageRole::Tool).unwrap().tool_call_id,
        Some("call_1".to_string())
    );
    assert!(state.last_message_of(MessageRole::System).is_none());
}

#[test]
fn mark_complete_twice_changes_nothing_more() {
    let mut state = WxorcaState::with_session_id(AgentType::AdminSetup, "s");
    state.add_user_message("hello");
    state.mark_complete_at(100);
    assert!(state.is_complete);
    assert_eq!(state.updated_at, 100);
    state.mark_complete_at(250);
    assert!(state.is_complete);
    assert_eq!(state.updated_at, 250);
    assert_eq!(state.messages.len(), 1);
    assert_eq!(state.messages[0].content, "hello");
    assert!(state.pending_tool_calls.is_empty());
    assert_eq!(state.iteration, 0);
    state.mark_complete();
    state.mark_complete();
    assert!(state.is_complete);
    assert_eq!(state.messages.len(), 1);
}

#[test]
fn context_reads_fall_back_to_the_default() {
    let mut state = WxorcaState::with_session_id(AgentType::AdminSetup, "s");
    // Read before anything was written.
    assert!(state.get_metadata("needs_tools").is_none());
    assert_eq!(state.metadata_text_or("user_intent", "none"), "none");
    assert!(state.metadata_flag_or("needs_tools", true));
    assert!(!state.metadata_flag_or("needs_tools", false));
    // A value of another kind reads as the default too.
    state.set_metadata("needs_tools", Json::text("yes"));
    state.set_metadata("user_intent", Json::Bool(true));
    assert!(!state.metadata_flag_or("needs_tools", false));
    assert_eq!(state.metadata_text_or("user_intent", "none"), "none");
    // A value of the right kind is read.
    state.set_metadata("needs_tools", Json::Bool(true));
    state.set_metadata("user_intent", Json::text("howto"));
    assert!(state.metadata_flag_or("needs_tools", false));
    assert_eq!(state.metadata_text_or("user_intent", "none"), "howto");
    // Writing a key again replaces its value and adds no entry.
    assert_eq!(state.context.metadata.len(), 2);
}

#[test]
fn increment_iteration_counts() {
    let mut state = WxorcaState::with_session_id(AgentType::AdminSetup, "s");
    state.increment_iteration();
    state.increment_iteration_at(77);
    assert_eq!(state.iteration, 2);
    assert_eq!(state.updated_at, 77);
}

#[test]
fn tool_calls_are_queued_in_order() {
    let mut state = WxorcaState::with_session_id(AgentType::AdminSetup, "s");
    state.add_tool_call_at("a", "first", Json::Null, 5);
    state.add_tool_call("b", "second", Json::Int(3));
    assert_eq!(state.pending_tool_calls.len(), 2);
    assert_eq!(state.pending_tool_calls[0].id, "a");
    assert_eq!(state.pending_tool_calls[0].name, "first");
    assert_eq!(state.pending_tool_calls[1].id, "b");
    state.clear_tool_calls_at(9);
    assert!(state.pending_tool_calls.is_empty());
    assert_eq!(state.updated_at, 9);
}

#[test]
fn state_schema_names_what_is_required() {
    let schema = WxorcaState::schema();
    assert_eq!(schema.text_at("type"), Some("object"));
    assert_eq!(
        schema.get("required").unwrap().as_texts(),
        Some(vec!["session_id".to_string(), "agent_type".to_string()])
    );
    let properties = schema.get("properties").unwrap();
    assert_eq!(properties.get("iteration").unwrap().text_at("type"), Some("integer"));
    assert_eq!(properties.get("is_complete").unwrap().text_at("type"), Some("boolean"));
    assert_eq!(
        properties.get("messages").unwrap().get("items").unwrap().text_at("type"),
        Some("object")
    );
}
