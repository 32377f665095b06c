use wxorca_agents::json::Json;
use wxorca_agents::state::PendingToolCall;
use wxorca_agents::tools::fetch_examples::{
    all_examples, get_mock_examples, CodeExample, FetchExamplesTool,
};
use wxorca_agents::tools::search_docs::{
    all_docs, get_mock_docs, hundredths_string, read_search_input, render_results,
    score_documents, search_results, DbDoc, DocResult, SearchDocsInput, SearchDocsTool,
};
use wxorca_agents::tools::validate_config::{
    validate, validate_auth_config, validate_integration_config, validate_skill_config,
    validate_workflow_config, ConfigType, ValidateConfigTool,
};
use wxorca_agents::tools::{
    create_tool_registry, read_count, read_optional_text, read_text, Tool, ToolError,
    ToolRegistry, ToolResult, WxoTool,
};

fn object(members: Vec<(&str, Json)>) -> Json {
    Json::Object(members.into_iter().map(|(k, v)| (k.to_string(), v)).collect())
}

fn parsed(text: &str) -> serde_json::Value {
    serde_json::from_str(text).unwrap()
}

#[test]
fn test_fetch_examples() {
    let tool = FetchExamplesTool::new();

    let result = tool
        .execute(&object(vec![("topic", Json::text("skill")), ("limit", Json::Int(2))]))
        .unwrap();

    let examples = parsed(&result);
    let examples = examples.as_array().unwrap();
    assert!(!examples.is_empty());
    assert!(examples.len() <= 2);
}

#[test]
fn test_fetch_examples_with_language() {
    let tool = FetchExamplesTool::new();

    let result = tool
        .execute(&object(vec![
            ("topic", Json::text("api")),
            ("language", Json::text("python")),
        ]))
        .unwrap();

    let examples = parsed(&result);
    for example in examples.as_array().unwrap() {
        assert_eq!(example["language"].as_str().unwrap().to_lowercase(), "python");
    }
}

#[test]
fn test_search_docs() {
    let tool = SearchDocsTool::new();

    let result = tool
        .execute(&object(vec![("query", Json::text("setup")), ("limit", Json::Int(3))]))
        .unwrap();

    let docs = parsed(&result);
    let docs = docs.as_array().unwrap();
    assert!(!docs.is_empty());
    assert!(docs.len() <= 3);
}

#[test]
fn test_search_docs_with_category() {
    let tool = SearchDocsTool::new();

    let result = tool
        .execute(&object(vec![
            ("query", Json::text("guide")),
            ("category", Json::text("admin")),
        ]))
        .unwrap();

    let docs = parsed(&result);
    for doc in docs.as_array().unwrap() {
        assert_eq!(doc["category"], "admin");
    }
}

#[test]
fn test_validate_skill_valid() {
    let tool = ValidateConfigTool::new();

    let result = tool
        .execute(&object(vec![
            ("config_type", Json::text("skill")),
            (
                "config",
                object(vec![
                    ("name", Json::text("my_skill")),
                    ("description", Json::text("A test skill")),
                    ("input_schema", object(vec![])),
                ]),
            ),
        ]))
        .unwrap();

    let validation = parsed(&result);
    assert_eq!(validation["valid"], true);
    assert!(validation["errors"].as_array().unwrap().is_empty());
}

#[test]
fn test_validate_skill_invalid() {
    let tool = ValidateConfigTool::new();

    let result = tool
        .execute(&object(vec![
            ("config_type", Json::text("skill")),
            ("config", object(vec![("name", Json::text("my invalid skill"))])),
        ]))
        .unwrap();

    let validation = parsed(&result);
    assert_eq!(validation["valid"], false);
    assert!(!validation["errors"].as_array().unwrap().is_empty());
}

#[test]
fn skill_rules() {
    let r = validate_skill_config(&object(vec![]));
    assert!(!r.valid);
    assert_eq!(r.errors.len(), 1);
    assert_eq!(r.errors[0].field, "name");
    assert_eq!(r.errors[0].message, "Skill name is required");
    assert_eq!(r.errors[0].code, "MISSING_REQUIRED_FIELD");
    assert_eq!(r.warnings.len(), 2);
    assert_eq!(r.warnings[0].field, "description");
    assert_eq!(r.warnings[1].field, "input_schema");
    assert_eq!(
        r.suggestions,
        vec![
            "Consider adding example inputs to help users understand expected values",
            "Add tags to make the skill easier to find in the catalog",
        ]
    );

    let long = "x".repeat(65);
    let r = validate_skill_config(&object(vec![("name", Json::text(&long))]));
    assert_eq!(r.errors.len(), 1);
    assert_eq!(r.errors[0].code, "NAME_TOO_LONG");
    let exact = "x".repeat(64);
    assert!(validate_skill_config(&object(vec![("name", Json::text(&exact))])).valid);

    let spaced = format!("a {}", "x".repeat(70));
    let r = validate_skill_config(&object(vec![("name", Json::text(&spaced))]));
    assert_eq!(r.errors.len(), 2);
    assert_eq!(r.errors[0].code, "INVALID_NAME_FORMAT");
    assert_eq!(
        r.errors[0].message,
        "Skill name should not contain spaces. Use underscores or hyphens."
    );
    assert_eq!(r.errors[1].code, "NAME_TOO_LONG");

    // A name that is no string is present, and nothing more is checked.
    let r = validate_skill_config(&object(vec![("name", Json::Int(7))]));
    assert!(r.valid);
    // A value that is no object has no members.
    assert!(!validate_skill_config(&Json::Null).valid);
}

#[test]
fn workflow_rules() {
    let r = validate_workflow_config(&object(vec![]));
    assert_eq!(r.errors.len(), 2);
    assert_eq!(r.errors[0].message, "Workflow name is required");
    assert_eq!(r.errors[1].field, "steps");
    assert_eq!(r.errors[1].code, "MISSING_REQUIRED_FIELD");
    assert_eq!(r.warnings.len(), 1);
    assert_eq!(r.warnings[0].field, "error_handling");

    let r = validate_workflow_config(&object(vec![
        ("name", Json::text("w")),
        ("steps", Json::List(vec![])),
        ("error_handling", object(vec![])),
    ]));
    assert_eq!(r.errors.len(), 1);
    assert_eq!(r.errors[0].code, "EMPTY_STEPS");
    assert!(r.warnings.is_empty());

    let steps = Json::List(vec![
        object(vec![("skill_id", Json::text("s"))]),
        object(vec![]),
        object(vec![("action", Json::text("a"))]),
        Json::Int(3),
    ]);
    let r = validate_workflow_config(&object(vec![("name", Json::text("w")), ("steps", steps)]));
    assert_eq!(r.errors.len(), 2);
    assert_eq!(r.errors[0].field, "steps[1]");
    assert_eq!(r.errors[0].code, "INVALID_STEP");
    assert_eq!(r.errors[0].message, "Each step must have either a skill_id or action");
    assert_eq!(r.errors[1].field, "steps[3]");

    // Steps that are no list are present, and nothing more is checked.
    let r = validate_workflow_config(&object(vec![
        ("name", Json::text("w")),
        ("steps", Json::text("later")),
    ]));
    assert!(r.valid);
    assert_eq!(
        r.suggestions,
        vec![
            "Add a timeout to prevent workflows from running indefinitely",
            "Consider adding conditional logic for different scenarios",
        ]
    );
}

#[test]
fn workflow_step_numbers_are_decimal() {
    let mut steps = Vec::new();
    for _ in 0..12 {
        steps.push(object(vec![]));
    }
    let r = validate_workflow_config(&object(vec![
        ("name", Json::text("w")),
        ("steps", Json::List(steps)),
    ]));
    assert_eq!(r.errors.len(), 12);
    assert_eq!(r.errors[0].field, "steps[0]");
    assert_eq!(r.errors[9].field, "steps[9]");
    assert_eq!(r.errors[10].field, "steps[10]");
    assert_eq!(r.errors[11].field, "steps[11]");
}

#[test]
fn integration_rules() {
    let r = validate_integration_config(&object(vec![]));
    assert_eq!(r.errors.len(), 2);
    assert_eq!(r.errors[0].message, "Integration type is required");
    assert_eq!(r.errors[1].message, "Integration credentials are required");
    assert_eq!(r.warnings.len(), 1);
    assert_eq!(r.warnings[0].field, "rate_limit");

    let r = validate_integration_config(&object(vec![
        ("type", Json::text("salesforce")),
        ("credentials", object(vec![("password", Json::text("x"))])),
        ("rate_limit", Json::Int(100)),
    ]));
    assert!(r.valid);
    assert_eq!(r.warnings.len(), 1);
    assert_eq!(r.warnings[0].field, "credentials.password");
    assert_eq!(
        r.warnings[0].message,
        "Consider using API keys or OAuth instead of passwords"
    );
    assert_eq!(r.suggestions.len(), 2);
}

#[test]
fn authentication_rules() {
    let r = validate_auth_config(&object(vec![]));
    assert_eq!(r.errors.len(), 1);
    assert_eq!(r.errors[0].message, "Authentication method is required");
    assert!(r.warnings.is_empty());
    assert_eq!(r.suggestions.len(), 3);
    assert_eq!(r.suggestions[2], "Regularly rotate API keys and tokens");

    let r = validate_auth_config(&object(vec![("method", Json::text("basic"))]));
    assert!(r.valid);
    assert_eq!(r.warnings.len(), 1);
    assert_eq!(r.warnings[0].field, "method");

    let r = validate_auth_config(&object(vec![("method", Json::text("oauth"))]));
    assert_eq!(r.warnings.len(), 1);
    assert_eq!(r.warnings[0].field, "token_refresh");
    let r = validate_auth_config(&object(vec![
        ("method", Json::text("oauth")),
        ("token_refresh", Json::Bool(true)),
    ]));
    assert!(r.warnings.is_empty());

    let r = validate_auth_config(&object(vec![
        ("method", Json::text("api_key")),
        ("session", object(vec![("timeout", Json::Int(86401))])),
    ]));
    assert_eq!(r.warnings.len(), 1);
    assert_eq!(r.warnings[0].field, "session.timeout");
    let r = validate_auth_config(&object(vec![
        ("method", Json::text("api_key")),
        ("session", object(vec![("timeout", Json::Int(86400))])),
    ]));
    assert!(r.warnings.is_empty());
}

#[test]
fn validate_dispatches_by_kind() {
    let config = object(vec![("name", Json::text("n"))]);
    assert!(validate(ConfigType::Skill, &config).valid);
    assert!(!validate(ConfigType::Workflow, &config).valid);
    assert!(!validate(ConfigType::Integration, &config).valid);
    assert!(!validate(ConfigType::Authentication, &config).valid);
}

#[test]
fn validate_tool_rejects_malformed_arguments() {
    let tool = ValidateConfigTool::new();
    let message = |args: Json| tool.execute(&args).unwrap_err().message;
    assert_eq!(message(Json::Null), "Invalid arguments: expected an object");
    assert_eq!(message(object(vec![])), "Invalid arguments: missing field `config_type`");
    assert_eq!(
        message(object(vec![("config_type", Json::Int(1)), ("config", Json::Null)])),
        "Invalid arguments: field `config_type` must be a string"
    );
    assert_eq!(
        message(object(vec![("config_type", Json::text("robot")), ("config", Json::Null)])),
        "Invalid arguments: unknown variant `robot`, expected one of `skill`, `workflow`, `integration`, `authentication`"
    );
    assert_eq!(
        message(object(vec![("config_type", Json::text("skill"))])),
        "Invalid arguments: missing field `config`"
    );
    assert_eq!(
        ToolError::new("x").to_string(),
        "Tool error: x"
    );
}

#[test]
fn validate_tool_writes_indented_json() {
    let tool = ValidateConfigTool::new();
    let text = tool
        .execute(&object(vec![
            ("config_type", Json::text("authentication")),
            ("config", object(vec![("method", Json::text("basic"))])),
        ]))
        .unwrap();
    assert!(text.starts_with("{\n  \"valid\": true,\n  \"errors\": [],\n  \"warnings\": [\n    {"));
    let value = parsed(&text);
    assert_eq!(value["warnings"][0]["field"], "method");
    assert_eq!(value["suggestions"].as_array().unwrap().len(), 3);
}

#[test]
fn tool_names_and_schemas() {
    let search = SearchDocsTool::new();
    let validate = ValidateConfigTool::new();
    let fetch = FetchExamplesTool::new();
    assert_eq!(search.name(), "search_wxo_docs");
    assert_eq!(validate.name(), "validate_wxo_config");
    assert_eq!(fetch.name(), "fetch_wxo_examples");
    assert!(search.description().starts_with("Search IBM WatsonX Orchestrate documentation"));
    assert!(validate.description().ends_with("warnings, and suggestions for improvement."));
    assert!(fetch.description().starts_with("Fetch code examples and sample configurations"));
    let schema = search.parameters_schema();
    assert_eq!(schema.text_at("type"), Some("object"));
    assert_eq!(
        schema.get("properties").unwrap().get("limit").unwrap().get("default").unwrap().as_int(),
        Some(5)
    );
    let schema = fetch.parameters_schema();
    assert_eq!(
        schema.get("properties").unwrap().get("limit").unwrap().get("default").unwrap().as_int(),
        Some(3)
    );
    assert_eq!(schema.get("required").unwrap().as_texts(), Some(vec!["topic".to_string()]));
    let schema = validate.parameters_schema();
    assert_eq!(
        schema.get("required").unwrap().as_texts(),
        Some(vec!["config_type".to_string(), "config".to_string()])
    );
    assert_eq!(
        schema.get("properties").unwrap().get("config_type").unwrap().get("enum").unwrap().as_texts().unwrap().len(),
        4
    );
    assert_eq!(wxorca_agents::tools::search_docs::default_limit(), 5);
    assert_eq!(wxorca_agents::tools::fetch_examples::default_limit(), 3);
}

fn titles(examples: &[CodeExample]) -> Vec<String> {
    examples.iter().map(|e| e.title.clone()).collect()
}

#[test]
fn examples_catalogue() {
    let all = all_examples();
    assert_eq!(all.len(), 7);
    assert_eq!(all[0].title, "Basic Skill Definition");
    assert_eq!(all[1].tags, vec!["skill", "python", "validation"]);
    assert_eq!(all[6].tags, vec!["workflow", "error-handling", "best-practices"]);
    assert!(all[6].code.contains("\"channel\": \"#alerts\""));
    assert!(all[3].code.starts_with("import requests\n\ndef get_wxo_token"));
}

#[test]
fn examples_are_found_by_topic_language_and_limit() {
    assert_eq!(
        titles(&get_mock_examples("skill", None, 10)),
        vec!["Basic Skill Definition", "Python Skill Implementation", "Sequential Workflow"]
    );
    assert_eq!(
        titles(&get_mock_examples("skill", Some("json"), 10)),
        vec!["Basic Skill Definition", "Sequential Workflow"]
    );
    assert_eq!(titles(&get_mock_examples("skill", None, 1)), vec!["Basic Skill Definition"]);
    assert!(get_mock_examples("skill", None, 0).is_empty());
    // Letter case does not count, in the topic or in the language.
    assert_eq!(
        titles(&get_mock_examples("API", Some("Python"), 10)),
        vec!["API Authentication"]
    );
    // A tag is enough.
    assert_eq!(
        titles(&get_mock_examples("onboarding", None, 10)),
        vec!["Sequential Workflow"]
    );
    // One word of the topic is enough.
    assert_eq!(
        titles(&get_mock_examples("workflow design best practices", None, 10)),
        vec!["Sequential Workflow", "Error Handling Pattern"]
    );
    assert!(get_mock_examples("quantum", None, 10).is_empty());
    assert!(get_mock_examples("skill", Some("cobol"), 10).is_empty());
    // The empty topic occurs in every title.
    assert_eq!(get_mock_examples("", None, 10).len(), 7);
}

#[test]
fn fetch_tool_reads_its_arguments() {
    let tool = FetchExamplesTool::new();
    let text = tool.execute(&object(vec![("topic", Json::text("workflow"))])).unwrap();
    let value = parsed(&text);
    assert_eq!(value.as_array().unwrap().len(), 2);
    assert_eq!(value[0]["title"], "Sequential Workflow");
    assert_eq!(value[0]["tags"][1], "onboarding");
    // The limit defaults to three.
    let text = tool.execute(&object(vec![("topic", Json::text(""))])).unwrap();
    assert_eq!(parsed(&text).as_array().unwrap().len(), 3);
    // A language that is null is no language.
    let text = tool
        .execute(&object(vec![("topic", Json::text("")), ("language", Json::Null)]))
        .unwrap();
    assert_eq!(parsed(&text).as_array().unwrap().len(), 3);
    let message = |args: Json| tool.execute(&args).unwrap_err().message;
    assert_eq!(message(Json::List(vec![])), "Invalid arguments: expected an object");
    assert_eq!(message(object(vec![])), "Invalid arguments: missing field `topic`");
    assert_eq!(
        message(object(vec![("topic", Json::Int(1))])),
        "Invalid arguments: field `topic` must be a string"
    );
    assert_eq!(
        message(object(vec![("topic", Json::text("x")), ("language", Json::Int(1))])),
        "Invalid arguments: field `language` must be a string"
    );
    assert_eq!(
        message(object(vec![("topic", Json::text("x")), ("limit", Json::Int(-1))])),
        "Invalid arguments: field `limit` must be a non-negative integer"
    );
    assert_eq!(
        message(object(vec![("topic", Json::text("x")), ("limit", Json::text("3"))])),
        "Invalid arguments: field `limit` must be a non-negative integer"
    );
}

fn doc_titles(docs: &[DocResult]) -> Vec<String> {
    docs.iter().map(|d| d.title.clone()).collect()
}

#[test]
fn docs_catalogue_is_in_order_of_relevance() {
    let all = all_docs();
    assert_eq!(all.len(), 8);
    let relevance: Vec<u32> = all.iter().map(|d| d.relevance).collect();
    assert_eq!(relevance, vec![95, 92, 88, 85, 82, 78, 75, 72]);
    assert_eq!(all[0].title, "Getting Started with WatsonX Orchestrate");
    assert_eq!(
        all[0].content,
        "WatsonX Orchestrate is an AI-powered automation platform that helps you work more efficiently by automating repetitive tasks and providing intelligent assistance."
    );
    assert_eq!(all[7].url, "https://www.ibm.com/docs/watsonx-orchestrate/workflows");
}

#[test]
fn docs_are_found_by_query_category_and_limit() {
    assert_eq!(
        doc_titles(&get_mock_docs("guide", 5, Some("admin"))),
        vec!["Admin Setup Guide", "Integration with Salesforce"]
    );
    assert_eq!(
        doc_titles(&get_mock_docs("SETUP", 5, None)),
        vec!["Admin Setup Guide"]
    );
    assert_eq!(
        doc_titles(&get_mock_docs("security", 1, None)),
        vec!["Admin Setup Guide"]
    );
    assert_eq!(
        doc_titles(&get_mock_docs("quantum skills", 5, None)),
        vec!["Creating Custom Skills"]
    );
    // The category is compared as it is written.
    assert!(get_mock_docs("guide", 5, Some("Admin")).is_empty());
    assert!(get_mock_docs("zebra", 5, None).is_empty());
    assert_eq!(get_mock_docs("", 20, None).len(), 8);
    assert_eq!(get_mock_docs("", 20, Some("user")).len(), 3);
    let found = get_mock_docs("watsonx", 20, None);
    for pair in found.windows(2) {
        assert!(pair[0].relevance >= pair[1].relevance);
    }
}

fn stored(title: &str, content: &str) -> DbDoc {
    DbDoc {
        title: title.to_string(),
        content: content.to_string(),
        url: "u".to_string(),
        category: "c".to_string(),
    }
}

#[test]
fn stored_documents_are_scored() {
    let docs = vec![
        stored("Nothing here", "at all"),
        stored("Reset Password", "How to reset a password"),
        stored("Password", "reset"),
        stored("reset password reset password", "reset password"),
    ];
    let scored = score_documents("Reset Password", &docs);
    let relevance: Vec<u32> = scored.iter().map(|d| d.relevance).collect();
    // 50; 50 + 30 + 5 + 3 + 5 + 3; 50 + 5 + 3; 50 + 30 + 20 + 16, capped.
    assert_eq!(relevance, vec![50, 96, 58, 100]);
    assert_eq!(scored[1].title, "Reset Password");
    assert_eq!(scored[1].url, "u");
    assert_eq!(scored[1].category, "c");
}

#[test]
fn stored_content_is_cut_to_an_excerpt() {
    let long = "a".repeat(501);
    let exact = "b".repeat(500);
    // 250 characters of two bytes each, and one of one byte before them:
    // byte 500 lies inside a character.
    let wide = format!("x{}", "\u{e9}".repeat(250));
    let docs = vec![stored("t", &long), stored("t", &exact), stored("t", &wide)];
    let scored = score_documents("q", &docs);
    assert_eq!(scored[0].content, format!("{}...", "a".repeat(500)));
    assert_eq!(scored[1].content, exact);
    assert_eq!(scored[2].content, format!("x{}...", "\u{e9}".repeat(249)));
}

#[test]
fn search_prefers_what_the_store_returned() {
    let input = SearchDocsInput { query: "setup".to_string(), limit: 5, category: None };
    let rows = vec![stored("Setup", "setup")];
    let from_store = search_results(&input, Some(&rows));
    assert_eq!(from_store.len(), 1);
    assert_eq!(from_store[0].relevance, 100);
    let empty: Vec<DbDoc> = Vec::new();
    assert_eq!(doc_titles(&search_results(&input, Some(&empty))), vec!["Admin Setup Guide"]);
    assert_eq!(doc_titles(&search_results(&input, None)), vec!["Admin Setup Guide"]);
}

#[test]
fn relevance_is_written_as_a_fraction() {
    assert_eq!(hundredths_string(95), "0.95");
    assert_eq!(hundredths_string(90), "0.9");
    assert_eq!(hundredths_string(100), "1.0");
    assert_eq!(hundredths_string(5), "0.05");
    assert_eq!(hundredths_string(0), "0.0");
    assert_eq!(hundredths_string(50), "0.5");
    let text = render_results(&get_mock_docs("setup", 5, None));
    let value = parsed(&text);
    assert_eq!(value[0]["relevance"].as_f64(), Some(0.92));
    assert_eq!(value[0]["title"], "Admin Setup Guide");
    assert_eq!(value[0]["category"], "admin");
    assert_eq!(render_results(&Vec::new()), "[]");
}

#[test]
fn search_input_is_read() {
    let input = read_search_input(&object(vec![("query", Json::text("q"))])).unwrap();
    assert_eq!(input.query, "q");
    assert_eq!(input.limit, 5);
    assert_eq!(input.category, None);
    let input = read_search_input(&object(vec![
        ("query", Json::text("q")),
        ("limit", Json::Int(0)),
        ("category", Json::text("api")),
    ]))
    .unwrap();
    assert_eq!(input.limit, 0);
    assert_eq!(input.category, Some("api".to_string()));
    let message = |args: Json| read_search_input(&args).unwrap_err().message;
    assert_eq!(message(Json::text("q")), "Invalid arguments: expected an object");
    assert_eq!(message(object(vec![])), "Invalid arguments: missing field `query`");
    assert_eq!(
        message(object(vec![("query", Json::text("q")), ("category", Json::Bool(true))])),
        "Invalid arguments: field `category` must be a string"
    );
    let args = object(vec![("a", Json::text("x")), ("n", Json::Int(4))]);
    assert_eq!(read_text(&args, "a").unwrap(), "x");
    assert_eq!(read_optional_text(&args, "a").unwrap(), Some("x"));
    assert_eq!(read_optional_text(&args, "b").unwrap(), None);
    assert_eq!(read_count(&args, "n", 9).unwrap(), 4);
    assert_eq!(read_count(&args, "m", 9).unwrap(), 9);
    assert!(read_text(&args, "n").is_err());
}

struct Echo;

impl Tool for Echo {
    fn name(&self) -> &str {
        "echo"
    }

    fn description(&self) -> &str {
        "Returns its argument"
    }

    fn parameters_schema(&self) -> Json {
        Json::Null
    }

    fn execute(&self, arguments: &Json) -> Result<String, ToolError> {
        match arguments.as_text() {
            Some(s) => Ok(s.to_string()),
            None => Err(ToolError::invalid_arguments("expected a string")),
        }
    }
}

fn call(id: &str, name: &str, arguments: Json) -> PendingToolCall {
    PendingToolCall { id: id.to_string(), name: name.to_string(), arguments }
}

#[test]
fn registry_dispatches_by_name() {
    let registry = ToolRegistry::new().register(Echo);
    assert!(registry.has("echo"));
    assert!(!registry.has("Echo"));
    assert!(registry.get("echo").is_some());
    assert!(registry.get("other").is_none());
    assert_eq!(registry.names(), vec!["echo"]);

    let result = registry.execute(&call("c1", "echo", Json::text("hello")));
    assert!(result.is_success());
    assert_eq!(result.tool_call_id, "c1");
    assert_eq!(result.as_str(), "hello");

    // A tool's error becomes text, not a failure of the registry.
    let result = registry.execute(&call("c2", "echo", Json::Int(1)));
    assert!(!result.is_success());
    assert_eq!(result.tool_call_id, "c2");
    assert_eq!(result.as_str(), "Tool error: Invalid arguments: expected a string");
    assert_eq!(result.content, None);
}

#[test]
fn unknown_tool_gives_an_error_result() {
    let registry = ToolRegistry::new().register(Echo);
    let result = registry.execute(&call("c3", "does_not_exist", object(vec![])));
    assert!(!result.is_success());
    assert_eq!(result.tool_call_id, "c3");
    assert_eq!(result.error, Some("Tool 'does_not_exist' not found".to_string()));
    assert_eq!(result.as_str(), "Tool 'does_not_exist' not found");
    let empty: ToolRegistry<Echo> = ToolRegistry::new();
    assert_eq!(empty.execute(&call("c", "echo", Json::Null)).as_str(), "Tool 'echo' not found");
}

#[test]
fn registry_of_this_library_holds_three_tools() {
    let registry = create_tool_registry();
    assert_eq!(
        registry.names(),
        vec!["search_wxo_docs", "validate_wxo_config", "fetch_wxo_examples"]
    );
    assert!(matches!(registry.get("search_wxo_docs"), Some(WxoTool::SearchDocs(_))));
    assert!(matches!(registry.get("validate_wxo_config"), Some(WxoTool::ValidateConfig(_))));
    assert!(matches!(registry.get("fetch_wxo_examples"), Some(WxoTool::FetchExamples(_))));
    let result = registry.execute(&call(
        "c1",
        "fetch_wxo_examples",
        object(vec![("topic", Json::text("salesforce"))]),
    ));
    assert!(result.is_success());
    assert_eq!(parsed(result.as_str())[0]["title"], "Salesforce Integration Config");
    // Registering a name again replaces the tool and keeps its place.
    let again = registry.register(WxoTool::SearchDocs(SearchDocsTool::new()));
    assert_eq!(again.names().len(), 3);
    assert_eq!(again.names()[0], "search_wxo_docs");
}

#[test]
fn tool_results_read_as_text() {
    assert_eq!(ToolResult::success("c", "out".to_string()).as_str(), "out");
    assert_eq!(ToolResult::error("c", "bad".to_string()).as_str(), "bad");
    assert!(ToolResult::success("c", String::new()).is_success());
    let neither = ToolResult { tool_call_id: "c".to_string(), content: None, error: None };
    assert_eq!(neither.as_str(), "");
    assert_eq!(
        ToolResult::from_outcome("c", Err(ToolError::new("down"))).as_str(),
        "Tool error: down"
    );
    assert_eq!(ToolResult::from_outcome("c", Ok("up".to_string())).as_str(), "up");
    assert_eq!(ToolResult::not_found("c", "x").as_str(), "Tool 'x' not found");
}

struct Named(&'static str, &'static str);

impl Tool for Named {
    fn name(&self) -> &str {
        self.0
    }

    fn description(&self) -> &str {
        "Returns its own text"
    }

    fn parameters_schema(&self) -> Json {
        Json::Null
    }

    fn execute(&self, _arguments: &Json) -> Result<String, ToolError> {
        Ok(self.1.to_string())
    }
}

#[test]
fn order_of_registration_does_not_count() {
    let ab = ToolRegistry::new().register(Named("a", "first")).register(Named("b", "second"));
    let ba = ToolRegistry::new().register(Named("b", "second")).register(Named("a", "first"));
    for name in ["a", "b", "c"] {
        let in_ab = ab.execute(&call("id", name, Json::Null));
        let in_ba = ba.execute(&call("id", name, Json::Null));
        assert_eq!(in_ab.as_str(), in_ba.as_str());
        assert_eq!(ab.has(name), ba.has(name));
    }
    // The later registration under a name is the one that counts.
    let replaced = ab.register(Named("a", "third"));
    assert_eq!(replaced.execute(&call("id", "a", Json::Null)).as_str(), "third");
    assert_eq!(replaced.execute(&call("id", "b", Json::Null)).as_str(), "second");
    assert_eq!(replaced.names(), vec!["a", "b"]);
}

#[test]
fn registered_tools_describe_themselves() {
    let registry = create_tool_registry();
    let search = registry.get("search_wxo_docs").unwrap();
    let validate = registry.get("validate_wxo_config").unwrap();
    let fetch = registry.get("fetch_wxo_examples").unwrap();
    assert_eq!(search.description(), SearchDocsTool::new().description());
    assert_eq!(validate.description(), ValidateConfigTool::new().description());
    assert_eq!(fetch.description(), FetchExamplesTool::new().description());
    assert_ne!(search.description(), fetch.description());
    assert_eq!(
        search.parameters_schema().to_pretty_string(),
        SearchDocsTool::new().parameters_schema().to_pretty_string()
    );
    assert_eq!(
        validate.parameters_schema().to_pretty_string(),
        ValidateConfigTool::new().parameters_schema().to_pretty_string()
    );
    let schema = fetch.parameters_schema();
    assert_eq!(schema.get("type").and_then(|t| t.as_text()), Some("object"));
    assert_eq!(
        schema.to_pretty_string(),
        FetchExamplesTool::new().parameters_schema().to_pretty_string()
    );
    assert_ne!(schema.to_pretty_string(), search.parameters_schema().to_pretty_string());
}
