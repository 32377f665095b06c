use wxorca_agents::agents::admin_setup::{generate_admin_response, ADMIN_DOCS_NOTE, ADMIN_OVERVIEW};
use wxorca_agents::agents::best_practices::{
    generate_best_practices_response, identify_best_practices_topic,
};
use wxorca_agents::agents::docs_helper::{
    categorize_docs_request, entry_text, generate_docs_response, listing_text, DocsCategory,
};
use wxorca_agents::agents::troubleshoot::{
    diagnose_issue, generate_troubleshoot_response, Diagnosis,
};
use wxorca_agents::agents::usage_assistant::generate_usage_response;
use wxorca_agents::agents::{
    analyze_query, assistant_reply, build_agent_graph, detect_intent, execute_pending, route_by_example,
    route_by_intent, route_by_tools, tool_results, AdminSetupAgent, AgentNode, AgentRouter,
    AnalyzeQueryNode, BestPracticesAgent, DocsHelperAgent, ExecuteToolsNode, TroubleshootAgent,
    UsageAssistantAgent,
};
use wxorca_agents::graph::{Node, Router, Signal, END};
use wxorca_agents::json::Json;
use wxorca_agents::runner::{GraphRunner, Phase, RunnerConfig};
use wxorca_agents::state::{AgentType, MessageRole, WxorcaState};
use wxorca_agents::tools::{create_tool_registry, ToolRegistry, WxoTool};

fn state_with(agent_type: AgentType, message: &str) -> WxorcaState {
    let mut state = WxorcaState::with_session_id(agent_type, "test");
    state.add_user_message(message);
    state
}

fn roles(state: &WxorcaState) -> Vec<MessageRole> {
    state.messages.iter().map(|m| m.role).collect()
}

#[test]
fn test_build_admin_graph() {
    let registry = create_tool_registry();
    let graph = AdminSetupAgent::build_graph(registry);
    assert!(graph.is_ok());
}

#[test]
fn test_build_best_practices_graph() {
    let registry = create_tool_registry();
    let graph = BestPracticesAgent::build_graph(registry);
    assert!(graph.is_ok());
}

#[test]
fn test_build_docs_graph() {
    let registry = create_tool_registry();
    let graph = DocsHelperAgent::build_graph(registry);
    assert!(graph.is_ok());
}

#[test]
fn test_build_troubleshoot_graph() {
    let registry = create_tool_registry();
    let graph = TroubleshootAgent::build_graph(registry);
    assert!(graph.is_ok());
}

#[test]
fn test_build_usage_graph() {
    let registry = create_tool_registry();
    let graph = UsageAssistantAgent::build_graph(registry);
    assert!(graph.is_ok());
}

#[test]
fn test_build_agent_graphs() {
    // Test that all agent graphs can be built
    for agent_type in AgentType::all() {
        let result = build_agent_graph(*agent_type);
        assert!(
            result.is_ok(),
            "Failed to build graph for {:?}: {:?}",
            agent_type,
            result.err()
        );
    }
}

#[test]
fn test_detect_intent() {
    assert_eq!(detect_intent("How do I create a skill?"), "howto");
    assert_eq!(detect_intent("I'm getting an error"), "troubleshoot");
    assert_eq!(detect_intent("Show me an example"), "example");
    assert_eq!(detect_intent("Is this config correct?"), "validate");
    assert_eq!(detect_intent("What's the best practice for this?"), "advice");
}

#[test]
fn test_identify_topic() {
    assert_eq!(
        identify_best_practices_topic("How should I design my workflow?"),
        "workflow_design"
    );
    assert_eq!(
        identify_best_practices_topic("How can I improve performance?"),
        "performance"
    );
    assert_eq!(
        identify_best_practices_topic("What are security best practices?"),
        "security"
    );
}

#[test]
fn test_categorize_api() {
    let category = categorize_docs_request("How do I use the API to create a skill?");
    assert_eq!(category.primary, "api");
}

#[test]
fn test_categorize_admin() {
    let category = categorize_docs_request("How do I configure SSO?");
    assert_eq!(category.primary, "admin");
}

#[test]
fn test_diagnose_authentication() {
    let diagnosis = diagnose_issue("I can't login, getting access denied");
    assert_eq!(diagnosis.category, "authentication");
    assert_eq!(diagnosis.severity, "high");
}

#[test]
fn test_diagnose_performance() {
    let diagnosis = diagnose_issue("The workflow is running very slow");
    assert_eq!(diagnosis.category, "performance");
}

#[test]
fn intents_by_rule() {
    assert_eq!(detect_intent("HOW TO fix a failed run"), "howto");
    assert_eq!(detect_intent("it is not working"), "troubleshoot");
    assert_eq!(detect_intent("Where can I find the docs"), "search");
    assert_eq!(detect_intent("a sample please"), "example");
    assert_eq!(detect_intent("please check this"), "validate");
    assert_eq!(detect_intent("what do you recommend"), "advice");
    assert_eq!(detect_intent("hello"), "general");
    assert_eq!(detect_intent(""), "general");
    // "Show me" asks how to do something, unless an example is to be shown.
    assert_eq!(detect_intent("Show me the settings"), "howto");
    assert_eq!(detect_intent("Show me code"), "example");
    assert_eq!(detect_intent("how to write a sample"), "howto");
    assert_eq!(detect_intent("Is this correct?"), "validate");
    assert_eq!(detect_intent("is this it"), "general");
}

#[test]
fn topics_by_rule() {
    assert_eq!(identify_best_practices_topic("automation"), "workflow_design");
    assert_eq!(identify_best_practices_topic("more SPEED"), "performance");
    assert_eq!(identify_best_practices_topic("permissions"), "security");
    assert_eq!(identify_best_practices_topic("the catalog"), "skill_design");
    assert_eq!(identify_best_practices_topic("my team"), "collaboration");
    assert_eq!(identify_best_practices_topic("handle it"), "error_handling");
    assert_eq!(identify_best_practices_topic("deploy it"), "deployment");
    assert_eq!(identify_best_practices_topic("anything"), "general");
}

#[test]
fn diagnoses_by_rule() {
    let d = diagnose_issue("HTTP 401");
    assert_eq!(d.category, "authentication");
    assert_eq!(
        d.likely_causes,
        vec![
            "Expired credentials or tokens",
            "Incorrect SSO configuration",
            "User permissions not set correctly",
            "API key revoked or expired",
        ]
    );
    assert_eq!(d.suggested_checks.len(), 4);
    assert_eq!(d.suggested_checks[3], "Test SSO configuration");
    let d = diagnose_issue("connection refused");
    assert_eq!(d.category, "integration");
    assert_eq!(d.severity, "medium");
    assert_eq!(d.likely_causes[2], "API rate limit exceeded");
    let d = diagnose_issue("my skill broke");
    assert_eq!(d.category, "execution");
    assert_eq!(d.suggested_checks[0], "Review input data format");
    let d = diagnose_issue("something is odd");
    assert_eq!(d.category, "general");
    assert_eq!(d.severity, "low");
    assert_eq!(
        d.likely_causes,
        vec!["Configuration issue", "User error", "Temporary system issue"]
    );
    assert_eq!(d.suggested_checks.len(), 3);
}

#[test]
fn diagnosis_goes_through_json() {
    let d = diagnose_issue("timeout");
    let back = Diagnosis::from_json(&d.to_json()).unwrap();
    assert_eq!(back.category, "performance");
    assert_eq!(back.severity, "medium");
    assert_eq!(back.likely_causes, d.likely_causes);
    assert_eq!(back.suggested_checks, d.suggested_checks);
    assert!(Diagnosis::from_json(&Json::Null).is_none());
    assert!(Diagnosis::from_json(&Json::object1("category", Json::text("x"))).is_none());
    let wrong = Json::object4(
        "category",
        Json::text("x"),
        "severity",
        Json::text("low"),
        "likely_causes",
        Json::List(vec![Json::Int(1)]),
        "suggested_checks",
        Json::List(vec![]),
    );
    assert!(Diagnosis::from_json(&wrong).is_none());
}

#[test]
fn categories_by_rule() {
    let c = categorize_docs_request("Which ENDPOINT lists the skills of my tenant today");
    assert_eq!(c.primary, "api");
    assert_eq!(c.secondary, Some("reference".to_string()));
    // Words of more than three bytes, the first five of them.
    assert_eq!(c.keywords, vec!["which", "endpoint", "lists", "skills", "tenant"]);
    let c = categorize_docs_request("begin");
    assert_eq!(c.primary, "getting_started");
    assert_eq!(c.secondary, None);
    assert_eq!(c.keywords, vec!["begin"]);
    assert_eq!(categorize_docs_request("a skill").secondary, Some("skills".to_string()));
    assert_eq!(categorize_docs_request("a workflow").secondary, Some("workflows".to_string()));
    let c = categorize_docs_request("an integration");
    assert_eq!(c.primary, "admin");
    assert_eq!(c.secondary, Some("integrations".to_string()));
    assert_eq!(categorize_docs_request("troubleshoot").primary, "troubleshooting");
    assert_eq!(categorize_docs_request("what is new").primary, "release_notes");
    let c = categorize_docs_request("hi");
    assert_eq!(c.primary, "user");
    assert!(c.keywords.is_empty());
    // Three bytes are not more than three; two characters of two bytes are.
    assert!(categorize_docs_request("abc").keywords.is_empty());
    assert_eq!(categorize_docs_request("\u{e9}\u{e9}").keywords, vec!["\u{e9}\u{e9}"]);
}

#[test]
fn category_goes_through_json() {
    let c = categorize_docs_request("configure the gateway");
    let back = DocsCategory::from_json(&c.to_json()).unwrap();
    assert_eq!(back.primary, "admin");
    assert_eq!(back.secondary, Some("setup".to_string()));
    assert_eq!(back.keywords, vec!["configure", "gateway"]);
    let c = categorize_docs_request("begin");
    let back = DocsCategory::from_json(&c.to_json()).unwrap();
    assert_eq!(back.secondary, None);
    assert!(DocsCategory::from_json(&Json::text("user")).is_none());
}

#[test]
fn admin_responses() {
    let none: Vec<String> = Vec::new();
    let some = vec!["[]".to_string()];
    let r = generate_admin_response("How do I INSTALL it?", &none, "");
    assert!(r.starts_with("## WatsonX Orchestrate Setup Guide\n\nHere's how to set up"));
    assert!(r.ends_with("Connect external services in Settings > Integrations.\n\n"));
    let r = generate_admin_response("permissions", &none, "");
    assert!(r.starts_with("## User Management\n\n"));
    let r = generate_admin_response("authentication", &none, "");
    assert!(r.starts_with("## Security Configuration\n\n"));
    let r = generate_admin_response("an integration", &none, "");
    assert!(r.starts_with("## Integration Setup\n\n"));
    assert_eq!(generate_admin_response("hello", &none, ""), ADMIN_OVERVIEW);
    assert_eq!(
        generate_admin_response("hello", &some, ""),
        format!("{}{}", ADMIN_OVERVIEW, ADMIN_DOCS_NOTE)
    );
    assert_eq!(
        ADMIN_DOCS_NOTE,
        "\n\n---\n\n**\u{1f4da} Related Documentation:**\nI found some relevant documentation that might help. Check the search results above for more details."
    );
    assert!(ADMIN_OVERVIEW.ends_with("- API key management\n\nWhat would you like help with?"));
}

#[test]
fn usage_responses() {
    let none: Vec<String> = Vec::new();
    let some = vec!["x".to_string()];
    assert!(generate_usage_response("a Skill", &none, "").starts_with("## Working with Skills\n\n"));
    assert!(generate_usage_response("automation", &none, "")
        .starts_with("## Building Workflows\n\n"));
    assert!(generate_usage_response("catalog", &none, "").starts_with("## Skill Catalog\n\n"));
    // "ai" occurs in "explain".
    assert!(generate_usage_response("explain", &none, "")
        .starts_with("## AI Assistant Features\n\n"));
    let r = generate_usage_response("hello", &some, "");
    assert!(r.starts_with("## Getting Started with WatsonX Orchestrate\n\nWelcome!"));
    assert!(r.ends_with("I found some relevant information. Check the details above."));
    assert!(generate_usage_response("hello", &none, "")
        .ends_with("What would you like to learn about?"));
}

#[test]
fn best_practices_responses() {
    let r = generate_best_practices_response("", "workflow_design", "");
    let first_line = r.lines().next().unwrap();
    assert!(first_line.starts_with("## "));
    assert!(first_line.ends_with(" Best Practices: WORKFLOW DESIGN"));
    assert!(r.contains("\n\n### Workflow Design Principles\n\n**1. Keep it Modular**\n"));
    assert!(r.ends_with(
        "Tell me about your use case and I can provide tailored recommendations."
    ));
    assert!(generate_best_practices_response("", "security", "")
        .contains("Best Practices: SECURITY\n\n### Security Best Practices\n\n"));
    let r = generate_best_practices_response("", "something_else", "");
    assert!(r.contains("Best Practices: SOMETHING ELSE\n\n### General Best Practices\n\n"));
    assert!(r.contains("- Skill development\n\n\n---\n\n"));
}

#[test]
fn troubleshoot_responses() {
    let d = diagnose_issue("login fails");
    let r = generate_troubleshoot_response("", &d, "");
    assert!(r.contains(" Issue Analysis: AUTHENTICATION\n\n**Severity**: "));
    assert!(r.contains(" High\n\n### Likely Causes\n- Expired credentials or tokens\n- Incorrect SSO configuration\n"));
    assert!(r.contains(
        "- API key revoked or expired\n\n### Troubleshooting Steps\n\n1. Verify credentials are correct\n2. Check token expiration\n3. Review user permissions\n4. Test SSO configuration\n\n### Quick Fix Attempts\n1. Clear browser cache and cookies\n"
    ));
    assert!(r.ends_with(
        "\n\n---\n\n**Still having issues?** I can help you escalate to IBM Support if needed."
    ));
    let empty = Diagnosis {
        category: "general".to_string(),
        severity: "low".to_string(),
        likely_causes: vec![],
        suggested_checks: vec![],
    };
    let r = generate_troubleshoot_response("", &empty, "");
    assert!(r.contains(" Low\n\n### Likely Causes\n\n### Troubleshooting Steps\n\n\n### Need More Information\n"));
    let medium = diagnose_issue("slow");
    assert!(generate_troubleshoot_response("", &medium, "").contains(" Medium\n\n"));
}

fn found(title: &str, url: &str, content: Option<&str>) -> String {
    let mut doc = serde_json::Map::new();
    doc.insert("title".to_string(), serde_json::Value::String(title.to_string()));
    doc.insert("url".to_string(), serde_json::Value::String(url.to_string()));
    if let Some(c) = content {
        doc.insert("content".to_string(), serde_json::Value::String(c.to_string()));
    }
    serde_json::Value::Object(doc).to_string()
}

#[test]
fn docs_responses() {
    let category = categorize_docs_request("api");
    let none: Vec<String> = Vec::new();
    let r = generate_docs_response("", &category, &none, "");
    assert!(r.contains(" Documentation Guide\n\n### API Documentation\n\n"));
    assert!(r.ends_with(
        "- [Authentication Guide](https://www.ibm.com/docs/watsonx-orchestrate/api/auth)\n\n---\n\n**Can't find what you need?** Try asking a more specific question or let me know which documentation category you're interested in."
    ));
    assert!(!r.contains("Relevant Documentation Found"));

    let long = "c".repeat(101);
    let results = vec![
        format!(
            "[{},{},{},{}]",
            found("One", "http://one", Some("short")),
            found("Two", "http://two", None),
            found("Three", "http://three", Some(&long)),
            found("Four", "http://four", None)
        ),
        "not json".to_string(),
        "{\"title\": \"no list\"}".to_string(),
        "[{\"title\": \"no url\"}, 7]".to_string(),
    ];
    let r = generate_docs_response("", &category, &results, "");
    let expected = format!(
        " Relevant Documentation Found\n\nBased on your query, here are the most relevant docs:\n\n- **[One](http://one)**\n  _short_\n\n- **[Two](http://two)**\n\n- **[Three](http://three)**\n  _{}..._\n\n\n---\n\n**Can't find",
        "c".repeat(100)
    );
    assert!(r.contains(&expected));
    assert!(!r.contains("Four"));
    for (primary, heading) in [
        ("admin", "### Administration Documentation\n\n"),
        ("getting_started", "### Getting Started\n\n"),
        ("troubleshooting", "### Troubleshooting Documentation\n\n"),
        ("release_notes", "### Release Notes\n\n"),
        ("user", "### User Documentation\n\n"),
        ("other", "### User Documentation\n\n"),
    ] {
        let category = DocsCategory {
            primary: primary.to_string(),
            secondary: None,
            keywords: vec![],
        };
        assert!(generate_docs_response("", &category, &none, "").contains(heading));
    }
}

#[test]
fn docs_entries() {
    let doc = Json::object3(
        "title",
        Json::text("T"),
        "url",
        Json::text("U"),
        "content",
        Json::text("C"),
    );
    assert_eq!(entry_text(&doc), "- **[T](U)**\n  _C_\n\n");
    let doc = Json::object2("title", Json::text("T"), "url", Json::text("U"));
    assert_eq!(entry_text(&doc), "- **[T](U)**\n\n");
    assert_eq!(entry_text(&Json::object1("title", Json::text("T"))), "");
    assert_eq!(entry_text(&Json::Null), "");
    assert_eq!(listing_text("[]"), "");
    assert_eq!(listing_text("oops"), "");
    assert_eq!(
        listing_text("[{\"url\":\"U\",\"title\":\"T\",\"relevance\":0.5}]"),
        "- **[T](U)**\n\n"
    );
}

#[test]
fn routers() {
    let mut state = state_with(AgentType::AdminSetup, "hello");
    assert_eq!(route_by_tools(&state), END);
    assert_eq!(route_by_tools(&state), "__end__");
    assert_eq!(route_by_intent(&state), "respond");
    assert_eq!(route_by_example(&state), "search_docs");
    state.add_tool_call("c", "t", Json::Null);
    state.set_metadata("needs_tools", Json::Bool(true));
    state.set_metadata("user_intent", Json::text("example"));
    assert_eq!(route_by_tools(&state), "execute_tools");
    assert_eq!(route_by_intent(&state), "search_docs");
    assert_eq!(route_by_example(&state), "fetch_examples");
    assert_eq!(AgentRouter::ByTools.route(&state), "execute_tools");
    assert_eq!(AgentRouter::ByIntent.route(&state), "search_docs");
    assert_eq!(AgentRouter::ByExample.route(&state), "fetch_examples");
    state.set_metadata("needs_tools", Json::text("true"));
    assert_eq!(route_by_intent(&state), "respond");
}

#[test]
fn analysis_stores_intent_and_query() {
    let mut state = state_with(AgentType::AdminSetup, "first");
    state.add_assistant_message("answer");
    state.add_user_message("How to read the DOCS");
    analyze_query(&mut state);
    assert_eq!(state.metadata_text_or("user_intent", ""), "howto");
    assert_eq!(state.metadata_text_or("original_query", ""), "How to read the DOCS");
    assert!(!state.metadata_flag_or("needs_tools", true));
    let mut state = state_with(AgentType::AdminSetup, "the documentation");
    let node = AnalyzeQueryNode::new("analyze");
    assert_eq!(node.id(), "analyze");
    assert!(node.description().unwrap().starts_with("Analyzes the user's query"));
    assert!(matches!(node.execute(&mut state), Signal::Continue));
    assert_eq!(state.metadata_text_or("user_intent", ""), "search");
    assert!(state.metadata_flag_or("needs_tools", false));
    // Without a user message nothing is stored.
    let mut empty = WxorcaState::with_session_id(AgentType::AdminSetup, "s");
    let before = empty.updated_at;
    analyze_query(&mut empty);
    assert!(empty.context.metadata.is_empty());
    assert_eq!(empty.updated_at, before);
}

#[test]
fn pending_calls_are_drained_in_order() {
    let registry = create_tool_registry();
    let mut state = state_with(AgentType::AdminSetup, "hello");
    state.add_tool_call("call-a", "fetch_wxo_examples", Json::object1("topic", Json::text("api")));
    state.add_tool_call("call-b", "does_not_exist", Json::Object(vec![]));
    state.add_tool_call("call-c", "validate_wxo_config", Json::Null);
    execute_pending(&registry, &mut state);
    assert!(state.pending_tool_calls.is_empty());
    assert_eq!(state.messages.len(), 4);
    assert_eq!(
        roles(&state),
        vec![MessageRole::User, MessageRole::Tool, MessageRole::Tool, MessageRole::Tool]
    );
    assert_eq!(state.messages[1].tool_call_id, Some("call-a".to_string()));
    assert_eq!(state.messages[2].tool_call_id, Some("call-b".to_string()));
    assert_eq!(state.messages[3].tool_call_id, Some("call-c".to_string()));
    assert!(state.messages[1].content.starts_with("[\n  {\n    \"title\": \"API Authentication\""));
    assert_eq!(state.messages[2].content, "Tool 'does_not_exist' not found");
    assert_eq!(
        state.messages[3].content,
        "Tool error: Invalid arguments: expected an object"
    );
    assert_eq!(tool_results(&state).len(), 3);
    assert_eq!(tool_results(&state)[1], "Tool 'does_not_exist' not found");
    // With nothing pending nothing is appended.
    execute_pending(&registry, &mut state);
    assert_eq!(state.messages.len(), 4);
    let node: ExecuteToolsNode<WxoTool> = ExecuteToolsNode::new("execute_tools", registry);
    assert_eq!(node.description(), Some("Executes pending tool calls"));
    assert!(matches!(node.execute(&mut state), Signal::Continue));
}

#[test]
fn end_to_end_password_question() {
    let graph = AdminSetupAgent::build_graph(create_tool_registry()).unwrap();
    let runner = GraphRunner::new(graph, RunnerConfig::default().max_iterations(10));
    let mut state = state_with(AgentType::AdminSetup, "How do I reset my password?");
    let report = runner.run(&mut state);
    assert!(report.outcome.is_ok());
    assert_eq!(report.executed, 5);
    assert_eq!(state.iteration, 5);
    assert!(state.is_complete);
    assert!(state.pending_tool_calls.is_empty());
    assert_eq!(
        roles(&state),
        vec![MessageRole::User, MessageRole::Tool, MessageRole::Assistant]
    );
    assert_eq!(state.messages[0].content, "How do I reset my password?");
    assert!(state.messages[1].tool_call_id.is_some());
    assert_eq!(state.messages[1].tool_call_id.as_ref().unwrap().len(), 36);
    let docs: serde_json::Value = serde_json::from_str(&state.messages[1].content).unwrap();
    assert_eq!(docs[0]["category"], "admin");
    assert_eq!(
        state.messages[2].content,
        format!("{}{}", ADMIN_OVERVIEW, ADMIN_DOCS_NOTE)
    );
    assert_eq!(state.metadata_text_or("user_intent", ""), "howto");
}

#[test]
fn unknown_tool_does_not_stop_the_run() {
    let graph = AdminSetupAgent::build_graph(create_tool_registry()).unwrap();
    let runner = GraphRunner::with_defaults(graph);
    let mut state = state_with(AgentType::AdminSetup, "hello");
    state.add_tool_call("call-x", "does_not_exist", Json::Object(vec![]));
    let done = runner.invoke(state).unwrap();
    assert!(done.is_complete);
    assert_eq!(
        roles(&done),
        vec![
            MessageRole::User,
            MessageRole::Tool,
            MessageRole::Tool,
            MessageRole::Assistant
        ]
    );
    assert_eq!(done.messages[1].tool_call_id, Some("call-x".to_string()));
    assert_eq!(done.messages[1].content, "Tool 'does_not_exist' not found");
}

#[test]
fn response_node_waits_for_pending_calls() {
    let graph = AdminSetupAgent::build_graph(create_tool_registry()).unwrap();
    let runner = GraphRunner::with_defaults(graph);
    let mut state = state_with(AgentType::AdminSetup, "hello");
    state.add_tool_call("call-x", "does_not_exist", Json::Null);
    let mut executed: u32 = 0;
    match runner.step("respond", &mut executed, &mut state) {
        Phase::Running(next) => assert_eq!(next, "execute_tools"),
        _ => panic!("the tools must run next"),
    }
    assert!(!state.is_complete);
    assert_eq!(state.messages.len(), 1);
    match runner.step("execute_tools", &mut executed, &mut state) {
        Phase::Running(next) => assert_eq!(next, "respond"),
        _ => panic!("the response must come next"),
    }
    assert!(matches!(
        runner.step("respond", &mut executed, &mut state),
        Phase::Finished
    ));
    assert!(state.is_complete);
    assert_eq!(executed, 3);
}

#[test]
fn every_agent_answers() {
    let questions = [
        (AgentType::AdminSetup, "How do I set up user permissions?", "## User Management"),
        (AgentType::UsageAssistant, "Tell me about the catalog", "## Skill Catalog"),
        (AgentType::Troubleshoot, "The connection to the API failed", "Issue Analysis: INTEGRATION"),
        (AgentType::BestPractices, "How do I improve speed?", "Best Practices: PERFORMANCE"),
        (AgentType::DocsHelper, "What is new in this release?", "### Release Notes"),
    ];
    for (agent_type, question, expected) in questions {
        let graph = build_agent_graph(agent_type).unwrap();
        let runner = GraphRunner::with_defaults(graph);
        let done = runner.invoke(state_with(agent_type, question)).unwrap();
        assert!(done.is_complete);
        assert!(done.pending_tool_calls.is_empty());
        let answer = &done.last_assistant_message().unwrap().content;
        assert!(answer.contains(expected), "{:?}: {}", agent_type, answer);
        assert_eq!(
            done.messages.iter().filter(|m| m.role == MessageRole::Assistant).count(),
            1
        );
        assert_eq!(done.messages.iter().filter(|m| m.role == MessageRole::Tool).count(), 1);
    }
}

#[test]
fn usage_agent_fetches_examples_on_request() {
    let graph = UsageAssistantAgent::build_graph(create_tool_registry()).unwrap();
    assert_eq!(graph.name(), Some("usage_assistant_agent"));
    assert_eq!(graph.entry_point(), "analyze");
    let runner = GraphRunner::with_defaults(graph);
    // "sample" shows the intent "example".
    let done = runner.invoke(state_with(AgentType::UsageAssistant, "a sample of a skill")).unwrap();
    let tool = done.last_message_of(MessageRole::Tool).unwrap();
    let examples: serde_json::Value = serde_json::from_str(&tool.content).unwrap();
    assert_eq!(examples[0]["title"], "Basic Skill Definition");
    assert_eq!(examples.as_array().unwrap().len(), 3);
    let done = runner.invoke(state_with(AgentType::UsageAssistant, "about a skill")).unwrap();
    let tool = done.last_message_of(MessageRole::Tool).unwrap();
    let docs: serde_json::Value = serde_json::from_str(&tool.content).unwrap();
    assert_eq!(docs[0]["category"], "user");
}

#[test]
fn troubleshoot_agent_searches_with_the_category() {
    let graph = TroubleshootAgent::build_graph(create_tool_registry()).unwrap();
    let runner = GraphRunner::with_defaults(graph);
    let mut executed: u32 = 0;
    let mut state = state_with(AgentType::Troubleshoot, "login is slow");
    runner.step("analyze", &mut executed, &mut state);
    runner.step("diagnose", &mut executed, &mut state);
    runner.step("search_docs", &mut executed, &mut state);
    assert_eq!(state.pending_tool_calls.len(), 1);
    let call = &state.pending_tool_calls[0];
    assert_eq!(call.name, "search_wxo_docs");
    assert_eq!(call.arguments.text_at("query"), Some("authentication login is slow"));
    assert_eq!(call.arguments.text_at("category"), Some("troubleshooting"));
    assert_eq!(call.arguments.get("limit").unwrap().as_int(), Some(5));
}

#[test]
fn best_practices_agent_asks_for_examples_of_the_topic() {
    let graph = BestPracticesAgent::build_graph(create_tool_registry()).unwrap();
    let runner = GraphRunner::with_defaults(graph);
    let mut executed: u32 = 0;
    let mut state = state_with(AgentType::BestPractices, "error handling please");
    runner.step("analyze", &mut executed, &mut state);
    runner.step("assess", &mut executed, &mut state);
    assert_eq!(state.metadata_text_or("bp_topic", ""), "error_handling");
    runner.step("search_docs", &mut executed, &mut state);
    let call = &state.pending_tool_calls[0];
    assert_eq!(call.name, "fetch_wxo_examples");
    assert_eq!(call.arguments.text_at("topic"), Some("error handling best practices"));
    assert_eq!(call.arguments.get("limit").unwrap().as_int(), Some(3));
}

#[test]
fn search_nodes_queue_nothing_without_a_query() {
    for agent_type in AgentType::all() {
        let graph = build_agent_graph(*agent_type).unwrap();
        let runner = GraphRunner::with_defaults(graph);
        let mut executed: u32 = 0;
        let mut state = WxorcaState::with_session_id(*agent_type, "s");
        runner.step("search_docs", &mut executed, &mut state);
        assert!(state.pending_tool_calls.is_empty());
        assert!(state.messages.is_empty());
    }
}

#[test]
fn agent_nodes_carry_their_names() {
    let registry: ToolRegistry<WxoTool> = ToolRegistry::new();
    let node = AgentNode::ExecuteTools(ExecuteToolsNode::new("tools", registry));
    assert_eq!(node.id(), "tools");
    assert_eq!(node.description(), Some("Executes pending tool calls"));
    let node: AgentNode<WxoTool> = AgentNode::Analyze(AnalyzeQueryNode::new("first"));
    assert_eq!(node.id(), "first");
}

#[test]
fn reply_is_the_last_assistant_message_or_an_apology() {
    let mut state = state_with(AgentType::AdminSetup, "hello");
    assert_eq!(assistant_reply(&state), "I apologize, but I couldn't generate a response.");
    state.add_assistant_message("one");
    state.add_assistant_message("two");
    state.add_tool_result("c", "three");
    assert_eq!(assistant_reply(&state), "two");
}

#[test]
fn graph_nodes_describe_themselves() {
    let admin = build_agent_graph(AgentType::AdminSetup).unwrap();
    let described = |id: &str| admin.get_node(id).unwrap().executor.description();
    assert_eq!(described("analyze"), Some("Analyzes the user's query to extract intent and key information"));
    assert_eq!(described("search_docs"), Some("Searches documentation with admin-focused context"));
    assert_eq!(described("execute_tools"), Some("Executes pending tool calls"));
    assert_eq!(described("respond"), Some("Generates admin-focused responses"));
    let docs = build_agent_graph(AgentType::DocsHelper).unwrap();
    let mut seen: Vec<&str> = Vec::new();
    for node in ["categorize", "search_docs", "execute_tools", "respond"] {
        seen.push(docs.get_node(node).unwrap().executor.description().unwrap());
    }
    assert_eq!(
        seen,
        vec![
            "Categorizes the documentation request",
            "Searches documentation based on categorized request",
            "Executes pending tool calls",
            "Generates documentation navigation response",
        ]
    );
}
