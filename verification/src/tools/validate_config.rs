//! The configuration validator: rules for skills, workflows, integrations
//! and authentication settings.

use vstd::prelude::*;
use crate::json::{items_view, pretty_text, render_pretty, text_list, Json, JsonView};
use crate::text::{byte_len, contains, decimal, decimal_string, is_infix, join2, same_text, texts};
use crate::tools::{Tool, ToolError};
use vstd::string::StringExecFns;

verus! {

/// Validates configuration objects: skills, workflows, integrations and
/// authentication settings.
pub struct ValidateConfigTool;

impl ValidateConfigTool {
    /// The tool.
    pub fn new() -> (r: ValidateConfigTool) {
        ValidateConfigTool
    }
}

impl Default for ValidateConfigTool {
    fn default() -> (r: ValidateConfigTool) {
        ValidateConfigTool
    }
}

/// The kind of configuration to validate.
#[derive(Debug, Clone, Copy, PartialEq, Eq, Structural)]
pub enum ConfigType {
    Skill,
    Workflow,
    Integration,
    Authentication,
}

/// A rule that the configuration breaks.
#[derive(Debug, Clone)]
pub struct ValidationError {
    pub field: String,
    pub message: String,
    pub code: String,
}

/// A rule that the configuration had better follow.
#[derive(Debug, Clone)]
pub struct ValidationWarning {
    pub field: String,
    pub message: String,
}

/// What a validation found.
#[derive(Debug, Clone)]
pub struct ValidationResult {
    /// No error was found.
    pub valid: bool,
    pub errors: Vec<ValidationError>,
    pub warnings: Vec<ValidationWarning>,
    pub suggestions: Vec<String>,
}

/// The mathematical value of a [`ValidationError`].
pub struct ValidationErrorView {
    pub field: Seq<char>,
    pub message: Seq<char>,
    pub code: Seq<char>,
}

/// The mathematical value of a [`ValidationWarning`].
pub struct ValidationWarningView {
    pub field: Seq<char>,
    pub message: Seq<char>,
}

/// The mathematical value of a [`ValidationResult`].
pub struct ValidationResultView {
    pub valid: bool,
    pub errors: Seq<ValidationErrorView>,
    pub warnings: Seq<ValidationWarningView>,
    pub suggestions: Seq<Seq<char>>,
}

impl View for ValidationError {
    type V = ValidationErrorView;

    open spec fn view(&self) -> ValidationErrorView {
        ValidationErrorView { field: self.field@, message: self.message@, code: self.code@ }
    }
}

impl View for ValidationWarning {
    type V = ValidationWarningView;

    open spec fn view(&self) -> ValidationWarningView {
        ValidationWarningView { field: self.field@, message: self.message@ }
    }
}

/// The views of a run of errors.
pub open spec fn errors_view(errors: Seq<ValidationError>) -> Seq<ValidationErrorView> {
    errors.map_values(|e: ValidationError| e@)
}

/// The views of a run of warnings.
pub open spec fn warnings_view(warnings: Seq<ValidationWarning>) -> Seq<ValidationWarningView> {
    warnings.map_values(|w: ValidationWarning| w@)
}

impl View for ValidationResult {
    type V = ValidationResultView;

    open spec fn view(&self) -> ValidationResultView {
        ValidationResultView {
            valid: self.valid,
            errors: errors_view(self.errors@),
            warnings: warnings_view(self.warnings@),
            suggestions: texts(self.suggestions@),
        }
    }
}

/// An error, from its three texts.
pub open spec fn error_of(
    field: Seq<char>,
    message: Seq<char>,
    code: Seq<char>,
) -> ValidationErrorView {
    ValidationErrorView { field, message, code }
}

/// A warning, from its two texts.
pub open spec fn warning_of(field: Seq<char>, message: Seq<char>) -> ValidationWarningView {
    ValidationWarningView { field, message }
}

/// `item` where `condition` holds, else nothing.
pub open spec fn when<A>(condition: bool, item: A) -> Seq<A> {
    if condition {
        seq![item]
    } else {
        Seq::empty()
    }
}

/// A result with the given findings; it is valid exactly when there is no
/// error.
pub open spec fn verdict(
    errors: Seq<ValidationErrorView>,
    warnings: Seq<ValidationWarningView>,
    suggestions: Seq<Seq<char>>,
) -> ValidationResultView {
    ValidationResultView { valid: errors.len() == 0, errors, warnings, suggestions }
}

/// What is wrong with a skill: a missing name, a name with a space in it,
/// a name of more than 64 bytes.
pub open spec fn skill_errors(c: JsonView) -> Seq<ValidationErrorView> {
    let name = c.text_at("name"@);
    when(
        !c.has("name"@),
        error_of("name"@, "Skill name is required"@, "MISSING_REQUIRED_FIELD"@),
    ) + when(
        name is Some && is_infix(" "@, name->0),
        error_of(
            "name"@,
            "Skill name should not contain spaces. Use underscores or hyphens."@,
            "INVALID_NAME_FORMAT"@,
        ),
    ) + when(
        name is Some && byte_len(name->0) > 64,
        error_of("name"@, "Skill name must be 64 characters or less"@, "NAME_TOO_LONG"@),
    )
}

/// What a skill had better have: a description and an input schema.
pub open spec fn skill_warnings(c: JsonView) -> Seq<ValidationWarningView> {
    when(
        !c.has("description"@),
        warning_of(
            "description"@,
            "Adding a description helps users understand what this skill does"@,
        ),
    ) + when(
        !c.has("input_schema"@),
        warning_of(
            "input_schema"@,
            "Defining an input schema improves validation and user experience"@,
        ),
    )
}

/// What is suggested for every skill.
pub open spec fn skill_suggestions() -> Seq<Seq<char>> {
    seq![
        "Consider adding example inputs to help users understand expected values"@,
        "Add tags to make the skill easier to find in the catalog"@,
    ]
}

/// The validation of a skill.
pub open spec fn skill_verdict(c: JsonView) -> ValidationResultView {
    verdict(skill_errors(c), skill_warnings(c), skill_suggestions())
}

/// The name of the step at position `i`.
pub open spec fn step_field(i: nat) -> Seq<char> {
    "steps["@ + decimal(i) + "]"@
}

/// A step names neither a skill nor an action.
pub open spec fn step_is_empty(step: JsonView) -> bool {
    !step.has("skill_id"@) && !step.has("action"@)
}

/// The errors of the first `n` steps, in order.
pub open spec fn step_errors(steps: Seq<JsonView>, n: nat) -> Seq<ValidationErrorView>
    decreases n,
{
    if n == 0 || n > steps.len() {
        Seq::empty()
    } else {
        step_errors(steps, (n - 1) as nat) + when(
            step_is_empty(steps[n - 1]),
            error_of(
                step_field((n - 1) as nat),
                "Each step must have either a skill_id or action"@,
                "INVALID_STEP"@,
            ),
        )
    }
}

/// What is wrong with a workflow: a missing name, missing or empty steps,
/// and each step that names neither a skill nor an action.
pub open spec fn workflow_errors(c: JsonView) -> Seq<ValidationErrorView> {
    let steps = match c.field("steps"@) {
        Some(v) => v.items(),
        None => None,
    };
    when(
        !c.has("name"@),
        error_of("name"@, "Workflow name is required"@, "MISSING_REQUIRED_FIELD"@),
    ) + when(
        !c.has("steps"@),
        error_of("steps"@, "Workflow must have at least one step"@, "MISSING_REQUIRED_FIELD"@),
    ) + when(
        steps is Some && steps->0.len() == 0,
        error_of("steps"@, "Workflow must have at least one step"@, "EMPTY_STEPS"@),
    ) + (match steps {
        Some(s) => step_errors(s, s.len()),
        None => Seq::empty(),
    })
}

/// What a workflow had better have: error handling.
pub open spec fn workflow_warnings(c: JsonView) -> Seq<ValidationWarningView> {
    when(
        !c.has("error_handling"@),
        warning_of(
            "error_handling"@,
            "Consider adding error handling to make the workflow more robust"@,
        ),
    )
}

/// What is suggested for every workflow.
pub open spec fn workflow_suggestions() -> Seq<Seq<char>> {
    seq![
        "Add a timeout to prevent workflows from running indefinitely"@,
        "Consider adding conditional logic for different scenarios"@,
    ]
}

/// The validation of a workflow.
pub open spec fn workflow_verdict(c: JsonView) -> ValidationResultView {
    verdict(workflow_errors(c), workflow_warnings(c), workflow_suggestions())
}

/// What is wrong with an integration: a missing type, missing credentials.
pub open spec fn integration_errors(c: JsonView) -> Seq<ValidationErrorView> {
    when(
        !c.has("type"@),
        error_of("type"@, "Integration type is required"@, "MISSING_REQUIRED_FIELD"@),
    ) + when(
        !c.has("credentials"@),
        error_of(
            "credentials"@,
            "Integration credentials are required"@,
            "MISSING_REQUIRED_FIELD"@,
        ),
    )
}

/// What an integration had better avoid or have: a password among the
/// credentials, no rate limit.
pub open spec fn integration_warnings(c: JsonView) -> Seq<ValidationWarningView> {
    when(
        c.field("credentials"@) is Some && c.field("credentials"@)->0.has("password"@),
        warning_of(
            "credentials.password"@,
            "Consider using API keys or OAuth instead of passwords"@,
        ),
    ) + when(
        !c.has("rate_limit"@),
        warning_of(
            "rate_limit"@,
            "Setting a rate limit prevents overloading the external service"@,
        ),
    )
}

/// What is suggested for every integration.
pub open spec fn integration_suggestions() -> Seq<Seq<char>> {
    seq![
        "Test the integration in a sandbox environment first"@,
        "Set up monitoring for integration failures"@,
    ]
}

/// The validation of an integration.
pub open spec fn integration_verdict(c: JsonView) -> ValidationResultView {
    verdict(integration_errors(c), integration_warnings(c), integration_suggestions())
}

/// What is wrong with authentication settings: a missing method.
pub open spec fn auth_errors(c: JsonView) -> Seq<ValidationErrorView> {
    when(
        !c.has("method"@),
        error_of("method"@, "Authentication method is required"@, "MISSING_REQUIRED_FIELD"@),
    )
}

/// The session timeout in seconds, where the settings give one as an
/// integer.
pub open spec fn session_timeout(c: JsonView) -> Option<int> {
    match c.field("session"@) {
        Some(session) => match session.field("timeout"@) {
            Some(t) => t.integer(),
            None => None,
        },
        None => None,
    }
}

/// What authentication settings had better avoid: basic authentication,
/// OAuth without token refresh, a session of more than a day.
pub open spec fn auth_warnings(c: JsonView) -> Seq<ValidationWarningView> {
    let method = c.text_at("method"@);
    when(
        method == Some("basic"@),
        warning_of(
            "method"@,
            "Basic authentication is less secure. Consider using OAuth or API keys"@,
        ),
    ) + when(
        method == Some("oauth"@) && !c.has("token_refresh"@),
        warning_of(
            "token_refresh"@,
            "Configure token refresh to prevent authentication failures"@,
        ),
    ) + when(
        session_timeout(c) is Some && session_timeout(c)->0 > 86400,
        warning_of(
            "session.timeout"@,
            "Session timeout longer than 24 hours may be a security risk"@,
        ),
    )
}

/// What is suggested for all authentication settings.
pub open spec fn auth_suggestions() -> Seq<Seq<char>> {
    seq![
        "Enable multi-factor authentication for admin accounts"@,
        "Set up audit logging for authentication events"@,
        "Regularly rotate API keys and tokens"@,
    ]
}

/// The validation of authentication settings.
pub open spec fn auth_verdict(c: JsonView) -> ValidationResultView {
    verdict(auth_errors(c), auth_warnings(c), auth_suggestions())
}

/// The validation of a configuration of the given kind.
pub open spec fn validation(kind: ConfigType, c: JsonView) -> ValidationResultView {
    match kind {
        ConfigType::Skill => skill_verdict(c),
        ConfigType::Workflow => workflow_verdict(c),
        ConfigType::Integration => integration_verdict(c),
        ConfigType::Authentication => auth_verdict(c),
    }
}

fn error(field: &str, message: &str, code: &str) -> (r: ValidationError)
    ensures
        r@ == error_of(field@, message@, code@),
{
    ValidationError {
        field: field.to_string(),
        message: message.to_string(),
        code: code.to_string(),
    }
}

fn warning(field: &str, message: &str) -> (r: ValidationWarning)
    ensures
        r@ == warning_of(field@, message@),
{
    ValidationWarning { field: field.to_string(), message: message.to_string() }
}

fn finish(
    errors: Vec<ValidationError>,
    warnings: Vec<ValidationWarning>,
    suggestions: Vec<String>,
) -> (r: ValidationResult)
    ensures
        r@ == verdict(errors_view(errors@), warnings_view(warnings@), texts(suggestions@)),
{
    ValidationResult { valid: errors.len() == 0, errors, warnings, suggestions }
}

fn two(a: &str, b: &str) -> (r: Vec<String>)
    ensures
        texts(r@) == seq![a@, b@],
{
    let mut v: Vec<String> = Vec::new();
    v.push(a.to_string());
    v.push(b.to_string());
    assert(texts(v@) =~= seq![a@, b@]);
    v
}

/// Validates a skill.
pub fn validate_skill_config(config: &Json) -> (r: ValidationResult)
    ensures
        r@ == skill_verdict(config@),
{
    let mut errors: Vec<ValidationError> = Vec::new();
    let mut warnings: Vec<ValidationWarning> = Vec::new();
    if config.get("name").is_none() {
        errors.push(error("name", "Skill name is required", "MISSING_REQUIRED_FIELD"));
    }
    if config.get("description").is_none() {
        warnings.push(
            warning(
                "description",
                "Adding a description helps users understand what this skill does",
            ),
        );
    }
    if config.get("input_schema").is_none() {
        warnings.push(
            warning(
                "input_schema",
                "Defining an input schema improves validation and user experience",
            ),
        );
    }
    match config.text_at("name") {
        Some(name) => {
            if contains(name, " ") {
                errors.push(
                    error(
                        "name",
                        "Skill name should not contain spaces. Use underscores or hyphens.",
                        "INVALID_NAME_FORMAT",
                    ),
                );
            }
            if name.as_bytes().len() > 64 {
                errors.push(
                    error("name", "Skill name must be 64 characters or less", "NAME_TOO_LONG"),
                );
            }
        },
        None => {},
    }
    let suggestions = two(
        "Consider adding example inputs to help users understand expected values",
        "Add tags to make the skill easier to find in the catalog",
    );
    assert(errors_view(errors@) =~= skill_errors(config@));
    assert(warnings_view(warnings@) =~= skill_warnings(config@));
    finish(errors, warnings, suggestions)
}

fn step_name(i: usize) -> (r: String)
    ensures
        r@ == step_field(i as nat),
{
    let mut r = join2("steps[", decimal_string(i as u64).as_str());
    r.append("]");
    r
}

/// Validates a workflow.
pub fn validate_workflow_config(config: &Json) -> (r: ValidationResult)
    ensures
        r@ == workflow_verdict(config@),
{
    let mut errors: Vec<ValidationError> = Vec::new();
    let mut warnings: Vec<ValidationWarning> = Vec::new();
    if config.get("name").is_none() {
        errors.push(error("name", "Workflow name is required", "MISSING_REQUIRED_FIELD"));
    }
    match config.get("steps") {
        None => {
            errors.push(
                error("steps", "Workflow must have at least one step", "MISSING_REQUIRED_FIELD"),
            );
            assert(errors_view(errors@) =~= workflow_errors(config@));
        },
        Some(value) => match value.as_list() {
            Some(steps) => {
                if steps.len() == 0 {
                    errors.push(
                        error("steps", "Workflow must have at least one step", "EMPTY_STEPS"),
                    );
                }
                let ghost head = errors_view(errors@);
                let ghost all = items_view(steps@);
                let mut i: usize = 0;
                while i < steps.len()
                    invariant
                        i <= steps.len(),
                        all == items_view(steps@),
                        errors_view(errors@) =~= head + step_errors(all, i as nat),
                    decreases steps.len() - i,
                {
                    let ghost so_far = errors_view(errors@);
                    assert(all[i as int] == steps@[i as int]@);
                    if steps[i].get("skill_id").is_none() && steps[i].get("action").is_none() {
                        let field = step_name(i);
                        errors.push(
                            error(
                                field.as_str(),
                                "Each step must have either a skill_id or action",
                                "INVALID_STEP",
                            ),
                        );
                        assert(errors_view(errors@) =~= so_far.push(
                            error_of(
                                step_field(i as nat),
                                "Each step must have either a skill_id or action"@,
                                "INVALID_STEP"@,
                            ),
                        ));
                    }
                    i += 1;
                }
                assert(errors_view(errors@) =~= workflow_errors(config@));
            },
            None => {
                assert(errors_view(errors@) =~= workflow_errors(config@));
            },
        },
    }
    if config.get("error_handling").is_none() {
        warnings.push(
            warning(
                "error_handling",
                "Consider adding error handling to make the workflow more robust",
            ),
        );
    }
    let suggestions = two(
        "Add a timeout to prevent workflows from running indefinitely",
        "Consider adding conditional logic for different scenarios",
    );
    assert(warnings_view(warnings@) =~= workflow_warnings(config@));
    finish(errors, warnings, suggestions)
}

/// Validates an integration.
pub fn validate_integration_config(config: &Json) -> (r: ValidationResult)
    ensures
        r@ == integration_verdict(config@),
{
    let mut errors: Vec<ValidationError> = Vec::new();
    let mut warnings: Vec<ValidationWarning> = Vec::new();
    if config.get("type").is_none() {
        errors.push(error("type", "Integration type is required", "MISSING_REQUIRED_FIELD"));
    }
    if config.get("credentials").is_none() {
        errors.push(
            error("credentials", "Integration credentials are required", "MISSING_REQUIRED_FIELD"),
        );
    }
    match config.get("credentials") {
        Some(credentials) => {
            if credentials.get("password").is_some() {
                warnings.push(
                    warning(
                        "credentials.password",
                        "Consider using API keys or OAuth instead of passwords",
                    ),
                );
            }
        },
        None => {},
    }
    if config.get("rate_limit").is_none() {
        warnings.push(
            warning(
                "rate_limit",
                "Setting a rate limit prevents overloading the external service",
            ),
        );
    }
    let suggestions = two(
        "Test the integration in a sandbox environment first",
        "Set up monitoring for integration failures",
    );
    assert(errors_view(errors@) =~= integration_errors(config@));
    assert(warnings_view(warnings@) =~= integration_warnings(config@));
    finish(errors, warnings, suggestions)
}

fn timeout_of(config: &Json) -> (r: Option<i64>)
    ensures
        match r {
            Some(n) => session_timeout(config@) == Some(n as int),
            None => session_timeout(config@) is None,
        },
{
    match config.get("session") {
        Some(session) => match session.get("timeout") {
            Some(t) => t.as_int(),
            None => None,
        },
        None => None,
    }
}

/// Validates authentication settings.
pub fn validate_auth_config(config: &Json) -> (r: ValidationResult)
    ensures
        r@ == auth_verdict(config@),
{
    let mut errors: Vec<ValidationError> = Vec::new();
    let mut warnings: Vec<ValidationWarning> = Vec::new();
    if config.get("method").is_none() {
        errors.push(error("method", "Authentication method is required", "MISSING_REQUIRED_FIELD"));
    }
    match config.text_at("method") {
        Some(method) => {
            if same_text(method, "basic") {
                warnings.push(
                    warning(
                        "method",
                        "Basic authentication is less secure. Consider using OAuth or API keys",
                    ),
                );
            } else if same_text(method, "oauth") {
                if config.get("token_refresh").is_none() {
                    warnings.push(
                        warning(
                            "token_refresh",
                            "Configure token refresh to prevent authentication failures",
                        ),
                    );
                }
            }
        },
        None => {},
    }
    match timeout_of(config) {
        Some(timeout) => {
            if timeout > 86400 {
                warnings.push(
                    warning(
                        "session.timeout",
                        "Session timeout longer than 24 hours may be a security risk",
                    ),
                );
            }
        },
        None => {},
    }
    let mut suggestions: Vec<String> = Vec::new();
    suggestions.push("Enable multi-factor authentication for admin accounts".to_string());
    suggestions.push("Set up audit logging for authentication events".to_string());
    suggestions.push("Regularly rotate API keys and tokens".to_string());
    assert(texts(suggestions@) =~= auth_suggestions());
    assert(errors_view(errors@) =~= auth_errors(config@));
    proof {
        reveal_strlit("basic");
        reveal_strlit("oauth");
        assert("basic"@ != "oauth"@) by {
            assert("basic"@[0] == 'b');
            assert("oauth"@[0] == 'o');
        }
    }
    assert(warnings_view(warnings@) =~= auth_warnings(config@));
    finish(errors, warnings, suggestions)
}

/// An error as a JSON object.
pub open spec fn error_json(e: ValidationErrorView) -> JsonView {
    JsonView::Object(
        seq![
            ("field"@, JsonView::Text(e.field)),
            ("message"@, JsonView::Text(e.message)),
            ("code"@, JsonView::Text(e.code)),
        ],
    )
}

/// A warning as a JSON object.
pub open spec fn warning_json(w: ValidationWarningView) -> JsonView {
    JsonView::Object(
        seq![("field"@, JsonView::Text(w.field)), ("message"@, JsonView::Text(w.message))]
    )
}

/// A result as a JSON object.
pub open spec fn result_json(v: ValidationResultView) -> JsonView {
    JsonView::Object(
        seq![
            ("valid"@, JsonView::Bool(v.valid)),
            (
                "errors"@,
                JsonView::List(v.errors.map_values(|e: ValidationErrorView| error_json(e))),
            ),
            (
                "warnings"@,
                JsonView::List(v.warnings.map_values(|w: ValidationWarningView| warning_json(w))),
            ),
            ("suggestions"@, text_list(v.suggestions)),
        ],
    )
}

impl ValidationResult {
    /// The result as a JSON object.
    pub fn to_json(&self) -> (r: Json)
        ensures
            r@ == result_json(self@),
    {
        let mut errors: Vec<Json> = Vec::new();
        let mut i: usize = 0;
        while i < self.errors.len()
            invariant
                i <= self.errors.len(),
                errors@.len() == i,
                forall|k: int| 0 <= k < i ==> (#[trigger] errors@[k])@ == error_json(self.errors@[k]@),
            decreases self.errors.len() - i,
        {
            let e = &self.errors[i];
            errors.push(
                Json::object3(
                    "field",
                    Json::text(e.field.as_str()),
                    "message",
                    Json::text(e.message.as_str()),
                    "code",
                    Json::text(e.code.as_str()),
                ),
            );
            i += 1;
        }
        let mut warnings: Vec<Json> = Vec::new();
        let mut j: usize = 0;
        while j < self.warnings.len()
            invariant
                j <= self.warnings.len(),
                warnings@.len() == j,
                forall|k: int|
                    0 <= k < j ==> (#[trigger] warnings@[k])@ == warning_json(self.warnings@[k]@),
            decreases self.warnings.len() - j,
        {
            let w = &self.warnings[j];
            warnings.push(
                Json::object2(
                    "field",
                    Json::text(w.field.as_str()),
                    "message",
                    Json::text(w.message.as_str()),
                ),
            );
            j += 1;
        }
        assert(items_view(errors@) =~= self@.errors.map_values(
            |e: ValidationErrorView| error_json(e),
        ));
        assert(items_view(warnings@) =~= self@.warnings.map_values(
            |w: ValidationWarningView| warning_json(w),
        ));
        Json::object4(
            "valid",
            Json::Bool(self.valid),
            "errors",
            Json::list(errors),
            "warnings",
            Json::list(warnings),
            "suggestions",
            Json::texts(&self.suggestions),
        )
    }
}

/// The kind of configuration that a name stands for.
pub open spec fn config_type_named(name: Seq<char>) -> Option<ConfigType> {
    if name == "skill"@ {
        Some(ConfigType::Skill)
    } else if name == "workflow"@ {
        Some(ConfigType::Workflow)
    } else if name == "integration"@ {
        Some(ConfigType::Integration)
    } else if name == "authentication"@ {
        Some(ConfigType::Authentication)
    } else {
        None
    }
}

/// What the tool reads from its arguments: the kind and the configuration,
/// or the reason why the arguments are malformed. The kind is read first.
pub open spec fn validate_input(arguments: JsonView) -> Result<(ConfigType, JsonView), Seq<char>> {
    if !(arguments is Object) {
        Err("expected an object"@)
    } else if !arguments.has("config_type"@) {
        Err("missing field `config_type`"@)
    } else if arguments.text_at("config_type"@) is None {
        Err("field `config_type` must be a string"@)
    } else if config_type_named(arguments.text_at("config_type"@)->0) is None {
        Err(
            "unknown variant `"@ + arguments.text_at("config_type"@)->0
                + "`, expected one of `skill`, `workflow`, `integration`, `authentication`"@,
        )
    } else if !arguments.has("config"@) {
        Err("missing field `config`"@)
    } else {
        Ok(
            (
                config_type_named(arguments.text_at("config_type"@)->0)->0,
                arguments.field("config"@)->0,
            )
        )
    }
}

/// What the tool returns for its arguments: the validation as indented
/// JSON text, or the error for malformed arguments.
pub open spec fn validate_output(arguments: JsonView) -> Result<Seq<char>, Seq<char>> {
    match validate_input(arguments) {
        Ok((kind, config)) => Ok(pretty_text(result_json(validation(kind, config)))),
        Err(detail) => Err("Invalid arguments: "@ + detail),
    }
}

fn read_config_type(name: &str) -> (r: Option<ConfigType>)
    ensures
        r == config_type_named(name@),
{
    if same_text(name, "skill") {
        Some(ConfigType::Skill)
    } else if same_text(name, "workflow") {
        Some(ConfigType::Workflow)
    } else if same_text(name, "integration") {
        Some(ConfigType::Integration)
    } else if same_text(name, "authentication") {
        Some(ConfigType::Authentication)
    } else {
        None
    }
}

/// Validates a configuration of the given kind.
pub fn validate(kind: ConfigType, config: &Json) -> (r: ValidationResult)
    ensures
        r@ == validation(kind, config@),
{
    match kind {
        ConfigType::Skill => validate_skill_config(config),
        ConfigType::Workflow => validate_workflow_config(config),
        ConfigType::Integration => validate_integration_config(config),
        ConfigType::Authentication => validate_auth_config(config),
    }
}

/// What the configuration validator says of itself.
pub const VALIDATE_CONFIG_DESCRIPTION: &'static str =
    "Validate WatsonX Orchestrate configuration objects like skills, workflows, \
integrations, and authentication settings. Returns validation errors, \
warnings, and suggestions for improvement.";

/// The JSON schema of the arguments of the configuration validator.
pub open spec fn validate_schema() -> JsonView {
    JsonView::Object(
        seq![
            ("type"@, JsonView::Text("object"@)),
            (
                "properties"@,
                JsonView::Object(
                    seq![
                        (
                            "config_type"@,
                            JsonView::Object(
                                seq![
                                    ("type"@, JsonView::Text("string"@)),
                                    (
                                        "enum"@,
                                        text_list(
                                            seq![
                                                "skill"@,
                                                "workflow"@,
                                                "integration"@,
                                                "authentication"@,
                                            ],
                                        ),
                                    ),
                                    (
                                        "description"@,
                                        JsonView::Text(
                                            "Type of configuration to validate"@,
                                        ),
                                    ),
                                ],
                            ),
                        ),
                        (
                            "config"@,
                            JsonView::Object(
                                seq![
                                    ("type"@, JsonView::Text("object"@)),
                                    (
                                        "description"@,
                                        JsonView::Text(
                                            "The configuration object to validate"@,
                                        ),
                                    ),
                                ],
                            ),
                        ),
                    ],
                ),
            ),
            ("required"@, text_list(seq!["config_type"@, "config"@])),
        ],
    )
}

impl Tool for ValidateConfigTool {
    open spec fn tool_name(&self) -> Seq<char> {
        "validate_wxo_config"@
    }

    fn name(&self) -> (r: &str) {
        "validate_wxo_config"
    }

    fn description(&self) -> (r: &str)
        ensures
            r@ == VALIDATE_CONFIG_DESCRIPTION@,
    {
        VALIDATE_CONFIG_DESCRIPTION
    }

    fn parameters_schema(&self) -> (r: Json)
        ensures
            r@ == validate_schema(),
    {
        let mut kinds: Vec<String> = Vec::new();
        kinds.push("skill".to_string());
        kinds.push("workflow".to_string());
        kinds.push("integration".to_string());
        kinds.push("authentication".to_string());
        assert(texts(kinds@) =~= seq!["skill"@, "workflow"@, "integration"@, "authentication"@]);
        let config_type = Json::object3(
            "type",
            Json::text("string"),
            "enum",
            Json::texts(&kinds),
            "description",
            Json::text("Type of configuration to validate"),
        );
        let config = Json::object2(
            "type",
            Json::text("object"),
            "description",
            Json::text("The configuration object to validate"),
        );
        let mut required: Vec<String> = Vec::new();
        required.push("config_type".to_string());
        required.push("config".to_string());
        assert(texts(required@) =~= seq!["config_type"@, "config"@]);
        Json::object3(
            "type",
            Json::text("object"),
            "properties",
            Json::object2("config_type", config_type, "config", config),
            "required",
            Json::texts(&required),
        )
    }

    open spec fn may_return(
        &self,
        arguments: JsonView,
        outcome: Result<Seq<char>, Seq<char>>,
    ) -> bool {
        outcome == validate_output(arguments)
    }

    fn execute(&self, arguments: &Json) -> (r: Result<String, ToolError>) {
        let is_object = match arguments {
            Json::Object(_) => true,
            _ => false,
        };
        if !is_object {
            return Err(ToolError::invalid_arguments("expected an object"));
        }
        let kind_value = match arguments.get("config_type") {
            Some(v) => v,
            None => {
                return Err(ToolError::invalid_arguments("missing field `config_type`"));
            },
        };
        let kind_name = match kind_value.as_text() {
            Some(n) => n,
            None => {
                return Err(ToolError::invalid_arguments("field `config_type` must be a string"));
            },
        };
        let kind = match read_config_type(kind_name) {
            Some(k) => k,
            None => {
                let mut detail = join2("unknown variant `", kind_name);
                detail.append(
                    "`, expected one of `skill`, `workflow`, `integration`, `authentication`",
                );
                return Err(ToolError::invalid_arguments(detail.as_str()));
            },
        };
        let config = match arguments.get("config") {
            Some(c) => c,
            None => {
                return Err(ToolError::invalid_arguments("missing field `config`"));
            },
        };
        let result = validate(kind, config);
        Ok(render_pretty(&result.to_json()))
    }
}

} // verus!
