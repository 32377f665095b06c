//! The example finder: a catalogue of code examples and sample
//! configurations, searched by topic and language.

use vstd::prelude::*;
use crate::json::{items_view, pretty_text, render_pretty, text_list, Json, JsonView};
use crate::text::{
    any_holds, clone_texts, contains, contains_any, is_infix, lowercase_all, lowered, lowered_all,
    same_text, split_whitespace, texts, to_lowercase, words_of,
};
use crate::tools::{
    optional_count, optional_text, read_count, read_optional_text, read_text, required_text, Tool,
    ToolError,
};

verus! {

/// Finds code examples and sample configurations.
pub struct FetchExamplesTool;

impl FetchExamplesTool {
    /// The tool.
    pub fn new() -> (r: FetchExamplesTool) {
        FetchExamplesTool
    }
}

impl Default for FetchExamplesTool {
    fn default() -> (r: FetchExamplesTool) {
        FetchExamplesTool
    }
}

/// The number of examples returned where the arguments give no limit.
pub fn default_limit() -> (r: usize)
    ensures
        r == 3,
{
    3
}

/// A code example.
#[derive(Debug)]
pub struct CodeExample {
    pub title: String,
    pub description: String,
    pub language: String,
    pub code: String,
    pub tags: Vec<String>,
}

/// The mathematical value of a [`CodeExample`].
pub struct CodeExampleView {
    pub title: Seq<char>,
    pub description: Seq<char>,
    pub language: Seq<char>,
    pub code: Seq<char>,
    pub tags: Seq<Seq<char>>,
}

impl View for CodeExample {
    type V = CodeExampleView;

    open spec fn view(&self) -> CodeExampleView {
        CodeExampleView {
            title: self.title@,
            description: self.description@,
            language: self.language@,
            code: self.code@,
            tags: texts(self.tags@),
        }
    }
}

impl Clone for CodeExample {
    fn clone(&self) -> (r: CodeExample)
        ensures
            r@ == self@,
    {
        CodeExample {
            title: self.title.clone(),
            description: self.description.clone(),
            language: self.language.clone(),
            code: self.code.clone(),
            tags: clone_texts(&self.tags),
        }
    }
}

/// The views of a run of examples.
pub open spec fn examples_view(examples: Seq<CodeExample>) -> Seq<CodeExampleView> {
    examples.map_values(|e: CodeExample| e@)
}

/// An example, from its parts.
pub open spec fn example_of(
    title: Seq<char>,
    description: Seq<char>,
    language: Seq<char>,
    code: Seq<char>,
    tags: Seq<Seq<char>>,
) -> CodeExampleView {
    CodeExampleView { title, description, language, code, tags }
}

/// The code of the example "Basic Skill Definition".
pub const EXAMPLE_CODE_1: &'static str =
    "{\n  \"name\": \"text_processor\",\n  \"description\": \"Processes and transforms text\",\n  \"input_schema\": {\n    \"type\": \"object\",\n    \"properties\": {\n      \"text\": { \"type\": \"string\" },\n      \"operation\": { \"type\": \"string\", \"enum\": [\"uppercase\", \"lowercase\", \"reverse\"] }\n    },\n    \"required\": [\"text\", \"operation\"]\n  },\n  \"output_schema\": {\n    \"type\": \"object\",\n    \"properties\": {\n      \"result\": { \"type\": \"string\" }\n    }\n  }\n}";

/// The code of the example "Python Skill Implementation".
pub const EXAMPLE_CODE_2: &'static str =
    "from wxo_sdk import Skill, SkillInput, SkillOutput\n\nclass DataValidatorSkill(Skill):\n    \"\"\"Validates input data against defined rules.\"\"\"\n\n    def execute(self, input: SkillInput) -> SkillOutput:\n        data = input.get(\"data\")\n        rules = input.get(\"rules\", [])\n\n        errors = []\n        for rule in rules:\n            if not self._validate_rule(data, rule):\n                errors.append(f\"Validation failed: {rule['name']}\")\n\n        return SkillOutput(\n            success=len(errors) == 0,\n            errors=errors,\n            validated_data=data if not errors else None\n        )\n\n    def _validate_rule(self, data, rule):\n        # Rule validation logic here\n        return True";

/// The code of the example "Sequential Workflow".
pub const EXAMPLE_CODE_3: &'static str =
    "{\n  \"name\": \"customer_onboarding\",\n  \"description\": \"Automated customer onboarding workflow\",\n  \"steps\": [\n    {\n      \"id\": \"validate_input\",\n      \"skill_id\": \"data_validator\",\n      \"input\": { \"data\": \"{{trigger.customer_data}}\" }\n    },\n    {\n      \"id\": \"create_account\",\n      \"skill_id\": \"crm_create_account\",\n      \"input\": { \"customer\": \"{{steps.validate_input.output}}\" }\n    },\n    {\n      \"id\": \"send_welcome\",\n      \"skill_id\": \"email_sender\",\n      \"input\": {\n        \"to\": \"{{trigger.customer_data.email}}\",\n        \"template\": \"welcome_email\"\n      }\n    }\n  ],\n  \"error_handling\": {\n    \"on_failure\": \"notify_admin\"\n  }\n}";

/// The code of the example "API Authentication".
pub const EXAMPLE_CODE_4: &'static str =
    "import requests\n\ndef get_wxo_token(api_key: str, instance_url: str) -> str:\n    \"\"\"Obtain an access token for WatsonX Orchestrate API.\"\"\"\n\n    response = requests.post(\n        f\"{instance_url}/api/v1/auth/token\",\n        headers={\n            \"Content-Type\": \"application/json\",\n            \"X-API-Key\": api_key\n        }\n    )\n    response.raise_for_status()\n    return response.json()[\"access_token\"]\n\n# Usage\ntoken = get_wxo_token(\n    api_key=\"your-api-key\",\n    instance_url=\"https://your-instance.watsonx-orchestrate.ibm.com\"\n)";

/// The code of the example "JavaScript API Client".
pub const EXAMPLE_CODE_5: &'static str =
    "class WXOClient {\n  constructor(instanceUrl, apiKey) {\n    this.instanceUrl = instanceUrl;\n    this.apiKey = apiKey;\n    this.token = null;\n  }\n\n  async authenticate() {\n    const response = await fetch(`${this.instanceUrl}/api/v1/auth/token`, {\n      method: 'POST',\n      headers: {\n        'Content-Type': 'application/json',\n        'X-API-Key': this.apiKey\n      }\n    });\n    const data = await response.json();\n    this.token = data.access_token;\n    return this.token;\n  }\n\n  async executeSkill(skillId, input) {\n    if (!this.token) await this.authenticate();\n\n    const response = await fetch(`${this.instanceUrl}/api/v1/skills/${skillId}/execute`, {\n      method: 'POST',\n      headers: {\n        'Authorization': `Bearer ${this.token}`,\n        'Content-Type': 'application/json'\n      },\n      body: JSON.stringify({ input })\n    });\n    return response.json();\n  }\n}";

/// The code of the example "Salesforce Integration Config".
pub const EXAMPLE_CODE_6: &'static str =
    "{\n  \"type\": \"salesforce\",\n  \"name\": \"production_salesforce\",\n  \"credentials\": {\n    \"auth_type\": \"oauth2\",\n    \"client_id\": \"{{secrets.SF_CLIENT_ID}}\",\n    \"client_secret\": \"{{secrets.SF_CLIENT_SECRET}}\",\n    \"instance_url\": \"https://your-org.salesforce.com\"\n  },\n  \"settings\": {\n    \"api_version\": \"v58.0\",\n    \"rate_limit\": {\n      \"requests_per_minute\": 100\n    },\n    \"retry\": {\n      \"max_attempts\": 3,\n      \"backoff_ms\": 1000\n    }\n  },\n  \"sync\": {\n    \"objects\": [\"Account\", \"Contact\", \"Opportunity\"],\n    \"direction\": \"bidirectional\",\n    \"frequency\": \"real-time\"\n  }\n}";

/// The code of the example "Error Handling Pattern".
pub const EXAMPLE_CODE_7: &'static str =
    "{\n  \"name\": \"robust_workflow\",\n  \"steps\": [\n    {\n      \"id\": \"main_task\",\n      \"skill_id\": \"important_operation\",\n      \"retry\": {\n        \"max_attempts\": 3,\n        \"backoff\": \"exponential\",\n        \"initial_delay_ms\": 1000\n      },\n      \"timeout_ms\": 30000\n    }\n  ],\n  \"error_handling\": {\n    \"on_failure\": {\n      \"steps\": [\n        {\n          \"id\": \"log_error\",\n          \"skill_id\": \"error_logger\",\n          \"input\": { \"error\": \"{{error}}\" }\n        },\n        {\n          \"id\": \"notify_team\",\n          \"skill_id\": \"slack_notifier\",\n          \"input\": {\n            \"channel\": \"#alerts\",\n            \"message\": \"Workflow failed: {{workflow.name}}\"\n          }\n        }\n      ]\n    },\n    \"on_timeout\": {\n      \"action\": \"cancel_and_notify\"\n    }\n  }\n}";

/// The catalogue of examples.
pub open spec fn catalogue() -> Seq<CodeExampleView> {
    seq![
        example_of(
            "Basic Skill Definition"@,
            "A simple skill that processes text input"@,
            "json"@,
            EXAMPLE_CODE_1@,
            seq!["skill"@, "basic"@],
        ),
        example_of(
            "Python Skill Implementation"@,
            "Python code for a custom WXO skill"@,
            "python"@,
            EXAMPLE_CODE_2@,
            seq!["skill"@, "python"@, "validation"@],
        ),
        example_of(
            "Sequential Workflow"@,
            "A workflow that executes skills in sequence"@,
            "json"@,
            EXAMPLE_CODE_3@,
            seq!["workflow"@, "onboarding"@],
        ),
        example_of(
            "API Authentication"@,
            "Authenticating with the WXO API"@,
            "python"@,
            EXAMPLE_CODE_4@,
            seq!["api"@, "authentication"@, "python"@],
        ),
        example_of(
            "JavaScript API Client"@,
            "Using the WXO API from JavaScript"@,
            "javascript"@,
            EXAMPLE_CODE_5@,
            seq!["api"@, "javascript"@, "client"@],
        ),
        example_of(
            "Salesforce Integration Config"@,
            "Configuration for Salesforce integration"@,
            "json"@,
            EXAMPLE_CODE_6@,
            seq!["integration"@, "salesforce"@],
        ),
        example_of(
            "Error Handling Pattern"@,
            "Best practice for error handling in workflows"@,
            "json"@,
            EXAMPLE_CODE_7@,
            seq!["workflow"@, "error-handling"@, "best-practices"@],
        ),
    ]
}

fn example(
    title: &str,
    description: &str,
    language: &str,
    code: &str,
    tag1: &str,
    tag2: &str,
    tag3: &str,
    three_tags: bool,
) -> (r: CodeExample)
    ensures
        r@ == example_of(
            title@,
            description@,
            language@,
            code@,
            if three_tags {
                seq![tag1@, tag2@, tag3@]
            } else {
                seq![tag1@, tag2@]
            },
        ),
{
    let mut tags: Vec<String> = Vec::new();
    tags.push(tag1.to_string());
    tags.push(tag2.to_string());
    if three_tags {
        tags.push(tag3.to_string());
        assert(texts(tags@) =~= seq![tag1@, tag2@, tag3@]);
    } else {
        assert(texts(tags@) =~= seq![tag1@, tag2@]);
    }
    CodeExample {
        title: title.to_string(),
        description: description.to_string(),
        language: language.to_string(),
        code: code.to_string(),
        tags,
    }
}

/// Builds the catalogue.
pub fn all_examples() -> (r: Vec<CodeExample>)
    ensures
        examples_view(r@) == catalogue(),
{
    let mut all: Vec<CodeExample> = Vec::new();
    all.push(
        example(
            "Basic Skill Definition",
            "A simple skill that processes text input",
            "json",
            EXAMPLE_CODE_1,
            "skill",
            "basic",
            "",
            false,
        ),
    );
    all.push(
        example(
            "Python Skill Implementation",
            "Python code for a custom WXO skill",
            "python",
            EXAMPLE_CODE_2,
            "skill",
            "python",
            "validation",
            true,
        ),
    );
    all.push(
        example(
            "Sequential Workflow",
            "A workflow that executes skills in sequence",
            "json",
            EXAMPLE_CODE_3,
            "workflow",
            "onboarding",
            "",
            false,
        ),
    );
    all.push(
        example(
            "API Authentication",
            "Authenticating with the WXO API",
            "python",
            EXAMPLE_CODE_4,
            "api",
            "authentication",
            "python",
            true,
        ),
    );
    all.push(
        example(
            "JavaScript API Client",
            "Using the WXO API from JavaScript",
            "javascript",
            EXAMPLE_CODE_5,
            "api",
            "javascript",
            "client",
            true,
        ),
    );
    all.push(
        example(
            "Salesforce Integration Config",
            "Configuration for Salesforce integration",
            "json",
            EXAMPLE_CODE_6,
            "integration",
            "salesforce",
            "",
            false,
        ),
    );
    all.push(
        example(
            "Error Handling Pattern",
            "Best practice for error handling in workflows",
            "json",
            EXAMPLE_CODE_7,
            "workflow",
            "error-handling",
            "best-practices",
            true,
        ),
    );
    assert(examples_view(all@) =~= catalogue());
    all
}

/// The example mentions `needle`: in its title, its description or one of
/// its tags, letter case aside.
pub open spec fn mentions(e: CodeExampleView, needle: Seq<char>) -> bool {
    is_infix(needle, lowered(e.title)) || is_infix(needle, lowered(e.description)) || any_holds(
        lowered_all(e.tags),
        needle,
    )
}

/// The example mentions one of the words.
pub open spec fn mentions_any(e: CodeExampleView, words: Seq<Seq<char>>) -> bool {
    exists|i: int| 0 <= i < words.len() && mentions(e, #[trigger] words[i])
}

/// The example is in the language asked for, if one is asked for, and it
/// mentions the topic or one of the topic's words.
pub open spec fn example_matches(
    e: CodeExampleView,
    topic: Seq<char>,
    language: Option<Seq<char>>,
) -> bool {
    &&& language is Some ==> lowered(e.language) == lowered(language->0)
    &&& mentions(e, lowered(topic)) || mentions_any(e, words_of(lowered(topic)))
}

/// Those of the first `n` examples of the catalogue that match, in order.
pub open spec fn matching_examples(topic: Seq<char>, language: Option<Seq<char>>, n: nat) -> Seq<
    CodeExampleView,
>
    decreases n,
{
    if n == 0 || n > catalogue().len() {
        Seq::empty()
    } else if example_matches(catalogue()[n - 1], topic, language) {
        matching_examples(topic, language, (n - 1) as nat).push(catalogue()[n - 1])
    } else {
        matching_examples(topic, language, (n - 1) as nat)
    }
}

/// The examples that a search returns: the matches in catalogue order, cut
/// off after the first `limit`.
pub open spec fn found_examples(topic: Seq<char>, language: Option<Seq<char>>, limit: nat) -> Seq<
    CodeExampleView,
> {
    let all = matching_examples(topic, language, catalogue().len());
    if limit <= all.len() {
        all.subrange(0, limit as int)
    } else {
        all
    }
}

fn mentions_exec(
    title_lower: &str,
    description_lower: &str,
    tags_lower: &Vec<String>,
    needle: &str,
) -> (r: bool)
    ensures
        r == (is_infix(needle@, title_lower@) || is_infix(needle@, description_lower@) || any_holds(
            texts(tags_lower@),
            needle@,
        )),
{
    contains(title_lower, needle) || contains(description_lower, needle) || contains_any(
        tags_lower,
        needle,
    )
}

fn example_matches_exec(
    e: &CodeExample,
    topic_lower: &str,
    words: &Vec<String>,
    language_lower: &Option<String>,
    Ghost(topic): Ghost<Seq<char>>,
    Ghost(language): Ghost<Option<Seq<char>>>,
) -> (r: bool)
    requires
        topic_lower@ == lowered(topic),
        texts(words@) == words_of(lowered(topic)),
        match language {
            Some(l) => language_lower matches Some(ll) && ll@ == lowered(l),
            None => language_lower is None,
        },
    ensures
        r == example_matches(e@, topic, language),
{
    match language_lower {
        Some(wanted) => {
            let own = to_lowercase(e.language.as_str());
            if !same_text(own.as_str(), wanted.as_str()) {
                return false;
            }
        },
        None => {},
    }
    let title_lower = to_lowercase(e.title.as_str());
    let description_lower = to_lowercase(e.description.as_str());
    let tags_lower = lowercase_all(&e.tags);
    if mentions_exec(
        title_lower.as_str(),
        description_lower.as_str(),
        &tags_lower,
        topic_lower,
    ) {
        return true;
    }
    let mut i: usize = 0;
    while i < words.len()
        invariant
            i <= words.len(),
            title_lower@ == lowered(e@.title),
            description_lower@ == lowered(e@.description),
            texts(tags_lower@) == lowered_all(e@.tags),
            texts(words@) == words_of(lowered(topic)),
            language is Some ==> lowered(e@.language) == lowered(language->0),
            forall|k: int| 0 <= k < i ==> !mentions(e@, #[trigger] texts(words@)[k]),
        decreases words.len() - i,
    {
        if mentions_exec(
            title_lower.as_str(),
            description_lower.as_str(),
            &tags_lower,
            words[i].as_str(),
        ) {
            assert(mentions(e@, texts(words@)[i as int]));
            return true;
        }
        i += 1;
    }
    false
}

/// Searches the catalogue for examples on a topic, in a language if one
/// is given, and returns the first `limit` of them.
pub fn get_mock_examples(topic: &str, language: Option<&str>, limit: usize) -> (r: Vec<CodeExample>)
    ensures
        examples_view(r@) == found_examples(
            topic@,
            match language {
                Some(l) => Some(l@),
                None => None,
            },
            limit as nat,
        ),
{
    let ghost wanted: Option<Seq<char>> = match language {
        Some(l) => Some(l@),
        None => None,
    };
    let all = all_examples();
    let topic_lower = to_lowercase(topic);
    let words = split_whitespace(topic_lower.as_str());
    let language_lower: Option<String> = match language {
        Some(l) => Some(to_lowercase(l)),
        None => None,
    };
    let mut filtered: Vec<CodeExample> = Vec::new();
    let mut i: usize = 0;
    while i < all.len()
        invariant
            i <= all.len(),
            examples_view(all@) == catalogue(),
            topic_lower@ == lowered(topic@),
            texts(words@) == words_of(lowered(topic@)),
            match wanted {
                Some(l) => language_lower matches Some(ll) && ll@ == lowered(l),
                None => language_lower is None,
            },
            examples_view(filtered@) == matching_examples(topic@, wanted, i as nat),
        decreases all.len() - i,
    {
        assert(catalogue()[i as int] == all@[i as int]@);
        if example_matches_exec(
            &all[i],
            topic_lower.as_str(),
            &words,
            &language_lower,
            Ghost(topic@),
            Ghost(wanted),
        ) {
            let ghost before = examples_view(filtered@);
            filtered.push(all[i].clone());
            assert(examples_view(filtered@) =~= before.push(all@[i as int]@));
        }
        i += 1;
    }
    let ghost matched = examples_view(filtered@);
    filtered.truncate(limit);
    assert(examples_view(filtered@) =~= found_examples(topic@, wanted, limit as nat));
    filtered
}

/// An example as a JSON object.
pub open spec fn example_json(e: CodeExampleView) -> JsonView {
    JsonView::Object(
        seq![
            ("title"@, JsonView::Text(e.title)),
            ("description"@, JsonView::Text(e.description)),
            ("language"@, JsonView::Text(e.language)),
            ("code"@, JsonView::Text(e.code)),
            ("tags"@, text_list(e.tags)),
        ],
    )
}

/// A run of examples as a JSON list.
pub open spec fn examples_json(examples: Seq<CodeExampleView>) -> JsonView {
    JsonView::List(examples.map_values(|e: CodeExampleView| example_json(e)))
}

impl CodeExample {
    /// The example as a JSON object.
    pub fn to_json(&self) -> (r: Json)
        ensures
            r@ == example_json(self@),
    {
        Json::object5(
            "title",
            Json::text(self.title.as_str()),
            "description",
            Json::text(self.description.as_str()),
            "language",
            Json::text(self.language.as_str()),
            "code",
            Json::text(self.code.as_str()),
            "tags",
            Json::texts(&self.tags),
        )
    }
}

/// A run of examples as a JSON list.
pub fn examples_to_json(examples: &Vec<CodeExample>) -> (r: Json)
    ensures
        r@ == examples_json(examples_view(examples@)),
{
    let mut out: Vec<Json> = Vec::new();
    let mut i: usize = 0;
    while i < examples.len()
        invariant
            i <= examples.len(),
            out@.len() == i,
            forall|k: int| 0 <= k < i ==> (#[trigger] out@[k])@ == example_json(examples@[k]@),
        decreases examples.len() - i,
    {
        out.push(examples[i].to_json());
        i += 1;
    }
    assert(items_view(out@) =~= examples_view(examples@).map_values(
        |e: CodeExampleView| example_json(e),
    ));
    Json::list(out)
}

/// What the tool reads from its arguments: the topic, the language if one
/// is given, and the limit, which is 3 where none is given; or the reason
/// why the arguments are malformed.
pub open spec fn fetch_input(arguments: JsonView) -> Result<
    (Seq<char>, Option<Seq<char>>, nat),
    Seq<char>,
> {
    if !(arguments is Object) {
        Err("expected an object"@)
    } else if required_text(arguments, "topic"@) is Err {
        Err(required_text(arguments, "topic"@)->Err_0)
    } else if optional_text(arguments, "language"@) is Err {
        Err(optional_text(arguments, "language"@)->Err_0)
    } else if optional_count(arguments, "limit"@, 3) is Err {
        Err(optional_count(arguments, "limit"@, 3)->Err_0)
    } else {
        Ok(
            (
                required_text(arguments, "topic"@)->Ok_0,
                optional_text(arguments, "language"@)->Ok_0,
                optional_count(arguments, "limit"@, 3)->Ok_0,
            ),
        )
    }
}

/// What the tool returns for its arguments: the examples found as
/// indented JSON text, or the error for malformed arguments.
pub open spec fn fetch_output(arguments: JsonView) -> Result<Seq<char>, Seq<char>> {
    match fetch_input(arguments) {
        Ok((topic, language, limit)) => Ok(
            pretty_text(examples_json(found_examples(topic, language, limit))),
        ),
        Err(detail) => Err("Invalid arguments: "@ + detail),
    }
}

/// What the example finder says of itself.
pub const FETCH_EXAMPLES_DESCRIPTION: &'static str =
    "Fetch code examples and sample configurations for WatsonX Orchestrate. \
Returns relevant examples for skills, workflows, integrations, and API usage.";

/// The JSON schema of the arguments of the example finder.
pub open spec fn fetch_schema() -> JsonView {
    JsonView::Object(
        seq![
            ("type"@, JsonView::Text("object"@)),
            (
                "properties"@,
                JsonView::Object(
                    seq![
                        (
                            "topic"@,
                            JsonView::Object(
                                seq![
                                    ("type"@, JsonView::Text("string"@)),
                                    (
                                        "description"@,
                                        JsonView::Text(
                                            "Topic to find examples for (e.g., 'skill creation', 'salesforce integration', 'api authentication')"@,
                                        ),
                                    ),
                                ],
                            ),
                        ),
                        (
                            "language"@,
                            JsonView::Object(
                                seq![
                                    ("type"@, JsonView::Text("string"@)),
                                    (
                                        "description"@,
                                        JsonView::Text(
                                            "Programming language filter (e.g., 'python', 'javascript', 'json')"@,
                                        ),
                                    ),
                                ],
                            ),
                        ),
                        (
                            "limit"@,
                            JsonView::Object(
                                seq![
                                    ("type"@, JsonView::Text("integer"@)),
                                    (
                                        "description"@,
                                        JsonView::Text(
                                            "Maximum number of examples to return (default: 3)"@,
                                        ),
                                    ),
                                    ("default"@, JsonView::Int(3)),
                                ],
                            ),
                        ),
                    ],
                ),
            ),
            ("required"@, text_list(seq!["topic"@])),
        ],
    )
}

impl Tool for FetchExamplesTool {
    open spec fn tool_name(&self) -> Seq<char> {
        "fetch_wxo_examples"@
    }

    fn name(&self) -> (r: &str) {
        "fetch_wxo_examples"
    }

    fn description(&self) -> (r: &str)
        ensures
            r@ == FETCH_EXAMPLES_DESCRIPTION@,
    {
        FETCH_EXAMPLES_DESCRIPTION
    }

    fn parameters_schema(&self) -> (r: Json)
        ensures
            r@ == fetch_schema(),
    {
        let topic = Json::object2(
            "type",
            Json::text("string"),
            "description",
            Json::text(
                "Topic to find examples for (e.g., 'skill creation', 'salesforce integration', 'api authentication')",
            ),
        );
        let language = Json::object2(
            "type",
            Json::text("string"),
            "description",
            Json::text("Programming language filter (e.g., 'python', 'javascript', 'json')"),
        );
        let limit = Json::object3(
            "type",
            Json::text("integer"),
            "description",
            Json::text("Maximum number of examples to return (default: 3)"),
            "default",
            Json::Int(3),
        );
        let mut required: Vec<String> = Vec::new();
        required.push("topic".to_string());
        assert(texts(required@) =~= seq!["topic"@]);
        Json::object3(
            "type",
            Json::text("object"),
            "properties",
            Json::object3("topic", topic, "language", language, "limit", limit),
            "required",
            Json::texts(&required),
        )
    }

    open spec fn may_return(
        &self,
        arguments: JsonView,
        outcome: Result<Seq<char>, Seq<char>>,
    ) -> bool {
        outcome == fetch_output(arguments)
    }

    fn execute(&self, arguments: &Json) -> (r: Result<String, ToolError>) {
        let is_object = match arguments {
            Json::Object(_) => true,
            _ => false,
        };
        if !is_object {
            return Err(ToolError::invalid_arguments("expected an object"));
        }
        let topic = match read_text(arguments, "topic") {
            Ok(t) => t,
            Err(e) => {
                return Err(e);
            },
        };
        let language = match read_optional_text(arguments, "language") {
            Ok(l) => l,
            Err(e) => {
                return Err(e);
            },
        };
        let limit = match read_count(arguments, "limit", default_limit()) {
            Ok(n) => n,
            Err(e) => {
                return Err(e);
            },
        };
        let examples = get_mock_examples(topic, language, limit);
        Ok(render_pretty(&examples_to_json(&examples)))
    }
}

} // verus!
