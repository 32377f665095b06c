//! Tools: named capabilities that a node can call with JSON arguments, and
//! the registry that dispatches a call by name.

pub mod fetch_examples;
pub mod search_docs;
pub mod validate_config;

use vstd::prelude::*;
use crate::json::{Json, JsonView};
use crate::tools::fetch_examples::FetchExamplesTool;
use crate::tools::search_docs::SearchDocsTool;
use crate::tools::validate_config::ValidateConfigTool;
use crate::state::{opt_text, PendingToolCall, ToolCallView};
use crate::text::{join2, knows, lemma_position_from, position, position_from, register, same_text};
use vstd::string::StringExecFns;

verus! {

/// A tool rejected its arguments or failed while it ran.
#[derive(Debug, Clone)]
pub struct ToolError {
    pub message: String,
}

impl ToolError {
    /// An error with the given message.
    pub fn new(message: &str) -> (r: ToolError)
        ensures
            r.message@ == message@,
    {
        ToolError { message: message.to_string() }
    }

    /// The error for arguments that a tool cannot read.
    pub fn invalid_arguments(detail: &str) -> (r: ToolError)
        ensures
            r.message@ == "Invalid arguments: "@ + detail@,
    {
        ToolError { message: join2("Invalid arguments: ", detail) }
    }

    /// The error as a sentence.
    pub fn to_string(&self) -> (r: String)
        ensures
            r@ == "Tool error: "@ + self.message@,
    {
        join2("Tool error: ", self.message.as_str())
    }
}

/// A named capability with a declared parameter schema.
pub trait Tool {
    /// The tool's name. A tool that does not say otherwise has a name of
    /// which nothing is known.
    open spec fn tool_name(&self) -> Seq<char> {
        arbitrary()
    }

    /// The name under which the tool is registered and called.
    fn name(&self) -> (r: &str)
        ensures
            r@ == self.tool_name(),
    ;

    /// What the tool does, for capability discovery.
    fn description(&self) -> (r: &str);

    /// The JSON schema of the tool's arguments.
    fn parameters_schema(&self) -> (r: Json);

    /// What the tool may return for its arguments: its output, or the
    /// message of its error. A tool that does not say otherwise may return
    /// anything.
    open spec fn may_return(
        &self,
        arguments: JsonView,
        outcome: Result<Seq<char>, Seq<char>>,
    ) -> bool {
        true
    }

    /// Runs the tool. Malformed arguments give an error, never a panic.
    fn execute(&self, arguments: &Json) -> (r: Result<String, ToolError>)
        ensures
            self.may_return(arguments@, outcome_view(r)),
    ;
}

/// The mathematical value of what a tool returned: the output, or the
/// message of the error.
pub open spec fn outcome_view(outcome: Result<String, ToolError>) -> Result<Seq<char>, Seq<char>> {
    match outcome {
        Ok(text) => Ok(text@),
        Err(e) => Err(e.message@),
    }
}

/// The outcome of one tool call.
#[derive(Debug, Clone)]
pub struct ToolResult {
    /// The call that this result answers.
    pub tool_call_id: String,
    /// The tool's output, where the call succeeded.
    pub content: Option<String>,
    /// The error text, where it failed.
    pub error: Option<String>,
}

/// The mathematical value of a [`ToolResult`].
pub struct ToolResultView {
    pub tool_call_id: Seq<char>,
    pub content: Option<Seq<char>>,
    pub error: Option<Seq<char>>,
}

impl View for ToolResult {
    type V = ToolResultView;

    open spec fn view(&self) -> ToolResultView {
        ToolResultView {
            tool_call_id: self.tool_call_id@,
            content: opt_text(self.content),
            error: opt_text(self.error),
        }
    }
}

impl ToolResultView {
    /// The result of a call that succeeded with `content`.
    pub open spec fn success(tool_call_id: Seq<char>, content: Seq<char>) -> ToolResultView {
        ToolResultView { tool_call_id, content: Some(content), error: None }
    }

    /// The result of a call that failed with `error`.
    pub open spec fn failure(tool_call_id: Seq<char>, error: Seq<char>) -> ToolResultView {
        ToolResultView { tool_call_id, content: None, error: Some(error) }
    }

    /// The result that a tool's outcome stands for: the output as it is,
    /// an error as its sentence.
    pub open spec fn of_outcome(
        tool_call_id: Seq<char>,
        outcome: Result<Seq<char>, Seq<char>>,
    ) -> ToolResultView {
        match outcome {
            Ok(text) => ToolResultView::success(tool_call_id, text),
            Err(message) => ToolResultView::failure(tool_call_id, "Tool error: "@ + message),
        }
    }

    /// The result of a call to a tool that is not registered.
    pub open spec fn not_found(tool_call_id: Seq<char>, name: Seq<char>) -> ToolResultView {
        ToolResultView::failure(tool_call_id, "Tool '"@ + name + "' not found"@)
    }

    /// The output where there is one, else the error text, else nothing.
    pub open spec fn text(self) -> Seq<char> {
        match self.content {
            Some(c) => c,
            None => match self.error {
                Some(e) => e,
                None => Seq::empty(),
            },
        }
    }

    /// The call succeeded: there is an output and no error.
    pub open spec fn is_success(self) -> bool {
        self.content is Some && self.error is None
    }
}

impl ToolResult {
    /// The result of a call that succeeded.
    pub fn success(tool_call_id: &str, content: String) -> (r: ToolResult)
        ensures
            r@ == ToolResultView::success(tool_call_id@, content@),
    {
        ToolResult { tool_call_id: tool_call_id.to_string(), content: Some(content), error: None }
    }

    /// The result of a call that failed.
    pub fn error(tool_call_id: &str, error: String) -> (r: ToolResult)
        ensures
            r@ == ToolResultView::failure(tool_call_id@, error@),
    {
        ToolResult { tool_call_id: tool_call_id.to_string(), content: None, error: Some(error) }
    }

    /// Turns what a tool returned into the result of the call: the output
    /// as it is, an error as its sentence.
    pub fn from_outcome(tool_call_id: &str, outcome: Result<String, ToolError>) -> (r: ToolResult)
        ensures
            r@ == ToolResultView::of_outcome(tool_call_id@, outcome_view(outcome)),
    {
        match outcome {
            Ok(text) => ToolResult::success(tool_call_id, text),
            Err(e) => ToolResult::error(tool_call_id, e.to_string()),
        }
    }

    /// The result of a call to a tool that is not registered.
    pub fn not_found(tool_call_id: &str, name: &str) -> (r: ToolResult)
        ensures
            r@ == ToolResultView::not_found(tool_call_id@, name@),
    {
        let mut text = join2("Tool '", name);
        text.append("' not found");
        ToolResult::error(tool_call_id, text)
    }

    /// Whether the call succeeded.
    pub fn is_success(&self) -> (r: bool)
        ensures
            r == self@.is_success(),
    {
        self.content.is_some() && self.error.is_none()
    }

    /// The output where there is one, else the error text.
    pub fn as_str(&self) -> (r: &str)
        ensures
            r@ == self@.text(),
    {
        proof {
            reveal_strlit("");
            assert(""@ =~= Seq::<char>::empty());
        }
        match &self.content {
            Some(c) => c.as_str(),
            None => match &self.error {
                Some(e) => e.as_str(),
                None => "",
            },
        }
    }
}

/// Where two runs of names agree on every position of the first that
/// holds `key`, and the second holds `key` nowhere else, `key` has the
/// same first position in both, or none in either.
proof fn lemma_position_other(before: Seq<Seq<char>>, after: Seq<Seq<char>>, key: Seq<char>)
    requires
        before.len() <= after.len() <= before.len() + 1,
        forall|i: int| 0 <= i < before.len() ==> (before[i] == key <==> after[i] == key),
        after.len() > before.len() ==> after[before.len() as int] != key,
    ensures
        knows(after, key) == knows(before, key),
        knows(before, key) ==> position(after, key) == position(before, key),
{
    lemma_position_from(before, key, 0);
    lemma_position_from(after, key, 0);
    let p = position(before, key);
    let q = position(after, key);
    if p < before.len() {
        assert(after[p] == key);
        if q < p {
            assert(before[q] == key);
        }
    } else if q < after.len() {
        if q < before.len() {
            assert(before[q] == key);
        }
    }
}

/// Under every name but `except` the two runs of tools hold the same
/// tool at the first position with that name, or none.
pub open spec fn agree<T: Tool>(one: Seq<T>, other: Seq<T>, except: Seq<char>) -> bool {
    forall|name: Seq<char>|
        name != except ==> (#[trigger] knows(tool_names(one), name)) == knows(
            tool_names(other),
            name,
        ) && (knows(tool_names(other), name) ==> one[position(tool_names(one), name)]
            == other[position(tool_names(other), name)])
}

/// What registering a tool does to a run of tools in which it either
/// takes the place of the first tool of its name or, where there is
/// none, the place at the end: the names are those after the registration
/// of its name, the tool is found under its name, and under every other
/// name is found what was found before.
proof fn lemma_registered<T: Tool>(before: Seq<T>, after: Seq<T>, tool: T)
    requires
        if knows(tool_names(before), tool.tool_name()) {
            after == before.update(position(tool_names(before), tool.tool_name()), tool)
        } else {
            after == before.push(tool)
        },
    ensures
        tool_names(after) == register(tool_names(before), tool.tool_name()),
        knows(tool_names(after), tool.tool_name()),
        after[position(tool_names(after), tool.tool_name())] == tool,
        forall|i: int|
            0 <= i < before.len() && tool_names(before)[i] != tool.tool_name() ==> #[trigger] after[i]
                == before[i],
        agree(after, before, tool.tool_name()),
{
    let key = tool.tool_name();
    let old_names = tool_names(before);
    let names = tool_names(after);
    lemma_position_from(old_names, key, 0);
    if knows(old_names, key) {
        assert(names =~= old_names);
    } else {
        assert(names =~= old_names.push(key));
    }
    lemma_position_from(names, key, 0);
    let p = position(names, key);
    if !knows(old_names, key) {
        assert(names[old_names.len() as int] == key);
        if p < old_names.len() {
            assert(old_names[p] == names[p]);
        }
    }
    assert forall|name: Seq<char>| name != key implies (#[trigger] knows(names, name)) == knows(
        old_names,
        name,
    ) && (knows(old_names, name) ==> after[position(names, name)] == before[position(
        old_names,
        name,
    )]) by {
        assert forall|i: int| 0 <= i < old_names.len() implies (old_names[i] == name <==> names[i]
            == name) by {
            if old_names[i] != names[i] {
                assert(names[i] == key);
            }
        }
        lemma_position_other(old_names, names, name);
        if knows(old_names, name) {
            let q = position(old_names, name);
            lemma_position_from(old_names, name, 0);
            assert(old_names[q] == name);
            assert(after[q] == before[q]);
        }
    }
}

/// The names of a run of tools.
pub open spec fn tool_names<T: Tool>(tools: Seq<T>) -> Seq<Seq<char>> {
    tools.map_values(|t: T| t.tool_name())
}

/// Tools keyed by their unique names.
pub struct ToolRegistry<T: Tool> {
    tools: Vec<T>,
}

impl<T: Tool> ToolRegistry<T> {
    /// The registered tools, in the order of their first registration.
    pub closed spec fn tools(self) -> Seq<T> {
        self.tools@
    }

    /// The names of the registered tools.
    pub open spec fn names_spec(self) -> Seq<Seq<char>> {
        tool_names(self.tools())
    }

    /// A tool is registered under `name`.
    pub open spec fn has_spec(self, name: Seq<char>) -> bool {
        knows(self.names_spec(), name)
    }

    /// The tool registered under `name`.
    pub open spec fn tool_at(self, name: Seq<char>) -> T
        recommends
            self.has_spec(name),
    {
        self.tools()[position(self.names_spec(), name)]
    }

    /// Under every name but `except` the two registries hold the same
    /// tool, or none.
    pub open spec fn agrees_with(self, other: ToolRegistry<T>, except: Seq<char>) -> bool {
        agree(self.tools(), other.tools(), except)
    }

    /// An empty registry.
    pub fn new() -> (r: ToolRegistry<T>)
        ensures
            r.tools().len() == 0,
    {
        ToolRegistry { tools: Vec::new() }
    }

    /// Registers a tool under its name. A tool registered earlier under the
    /// same name is replaced. What is found under any other name stays as
    /// it was, so that the order of registration does not count.
    pub fn register(self, tool: T) -> (r: ToolRegistry<T>)
        ensures
            r.names_spec() == register(self.names_spec(), tool.tool_name()),
            r.tool_at(tool.tool_name()) == tool,
            forall|i: int|
                0 <= i < self.tools().len() && self.names_spec()[i] != tool.tool_name()
                    ==> #[trigger] r.tools()[i] == self.tools()[i],
            r.agrees_with(self, tool.tool_name()),
    {
        let mut reg = self;
        proof {
            lemma_position_from(tool_names(reg.tools@), tool.tool_name(), 0);
        }
        match reg.find(tool.name()) {
            Some(i) => {
                reg.tools.set(i, tool);
                assert(reg.tools@ =~= self.tools@.update(i as int, tool));
            },
            None => {
                reg.tools.push(tool);
            },
        }
        proof {
            lemma_registered(self.tools@, reg.tools@, tool);
        }
        reg
    }

    fn find(&self, name: &str) -> (r: Option<usize>)
        ensures
            match r {
                Some(i) => i < self.tools().len() && i == position(self.names_spec(), name@),
                None => !self.has_spec(name@),
            },
    {
        let mut i: usize = 0;
        while i < self.tools.len()
            invariant
                i <= self.tools.len(),
                position(self.names_spec(), name@) == position_from(
                    self.names_spec(),
                    name@,
                    i as int,
                ),
            decreases self.tools.len() - i,
        {
            if same_text(self.tools[i].name(), name) {
                return Some(i);
            }
            i += 1;
        }
        None
    }

    /// The tool registered under `name`.
    pub fn get(&self, name: &str) -> (r: Option<&T>)
        ensures
            match r {
                Some(t) => self.has_spec(name@) && *t == self.tool_at(name@),
                None => !self.has_spec(name@),
            },
    {
        match self.find(name) {
            Some(i) => Some(&self.tools[i]),
            None => None,
        }
    }

    /// Whether a tool is registered under `name`.
    pub fn has(&self, name: &str) -> (r: bool)
        ensures
            r == self.has_spec(name@),
    {
        self.find(name).is_some()
    }

    /// The names of the registered tools.
    pub fn names(&self) -> (r: Vec<String>)
        ensures
            crate::text::texts(r@) == self.names_spec(),
    {
        let mut out: Vec<String> = Vec::new();
        let mut i: usize = 0;
        while i < self.tools.len()
            invariant
                i <= self.tools.len(),
                out@.len() == i,
                forall|k: int| 0 <= k < i ==> (#[trigger] out@[k])@ == self.names_spec()[k],
            decreases self.tools.len() - i,
        {
            out.push(self.tools[i].name().to_string());
            i += 1;
        }
        assert(crate::text::texts(out@) =~= self.names_spec());
        out
    }

    /// What the registry may answer to a call: that no tool is registered
    /// under the call's name, or what the tool under that name may return
    /// for the call's arguments.
    pub open spec fn answers(self, call: ToolCallView, result: ToolResultView) -> bool {
        if self.has_spec(call.name) {
            exists|outcome: Result<Seq<char>, Seq<char>>|
                self.tool_at(call.name).may_return(call.arguments, outcome) && result
                    == #[trigger] ToolResultView::of_outcome(call.id, outcome)
        } else {
            result == ToolResultView::not_found(call.id, call.name)
        }
    }

    /// Dispatches a call by its name. A name that is not registered gives
    /// an error result that says so; otherwise the tool runs on the call's
    /// arguments, and what it returns becomes the result: its output, or
    /// its error as a sentence.
    pub fn execute(&self, call: &PendingToolCall) -> (r: ToolResult)
        ensures
            r@.tool_call_id == call@.id,
            self.answers(call@, r@),
    {
        match self.get(call.name.as_str()) {
            Some(tool) => {
                let outcome = tool.execute(&call.arguments);
                let ghost returned = outcome_view(outcome);
                let r = ToolResult::from_outcome(call.id.as_str(), outcome);
                assert(r@ == ToolResultView::of_outcome(call@.id, returned));
                r
            },
            None => ToolResult::not_found(call.id.as_str(), call.name.as_str()),
        }
    }
}

/// The detail for a member that is missing.
pub open spec fn missing_field(key: Seq<char>) -> Seq<char> {
    "missing field `"@ + key + "`"@
}

/// The detail for a member of the wrong kind.
pub open spec fn wrong_kind(key: Seq<char>, expected: Seq<char>) -> Seq<char> {
    "field `"@ + key + "` must be "@ + expected
}

/// The string that arguments must hold under `key`.
pub open spec fn required_text(
    arguments: JsonView,
    key: Seq<char>,
) -> Result<Seq<char>, Seq<char>> {
    match arguments.field(key) {
        None => Err(missing_field(key)),
        Some(JsonView::Text(s)) => Ok(s),
        Some(_) => Err(wrong_kind(key, "a string"@)),
    }
}

/// The string that arguments may hold under `key`: none where the member
/// is missing or null.
pub open spec fn optional_text(arguments: JsonView, key: Seq<char>) -> Result<
    Option<Seq<char>>,
    Seq<char>,
> {
    match arguments.field(key) {
        None => Ok(None),
        Some(JsonView::Null) => Ok(None),
        Some(JsonView::Text(s)) => Ok(Some(s)),
        Some(_) => Err(wrong_kind(key, "a string"@)),
    }
}

/// The count that arguments may hold under `key`: `default` where the
/// member is missing.
pub open spec fn optional_count(arguments: JsonView, key: Seq<char>, default: nat) -> Result<
    nat,
    Seq<char>,
> {
    match arguments.field(key) {
        None => Ok(default),
        Some(JsonView::Int(n)) => if 0 <= n <= usize::MAX {
            Ok(n as nat)
        } else {
            Err(wrong_kind(key, "a non-negative integer"@))
        },
        Some(_) => Err(wrong_kind(key, "a non-negative integer"@)),
    }
}

fn missing(key: &str) -> (r: ToolError)
    ensures
        r.message@ == "Invalid arguments: "@ + missing_field(key@),
{
    let mut detail = join2("missing field `", key);
    detail.append("`");
    ToolError::invalid_arguments(detail.as_str())
}

fn wrong(key: &str, expected: &str) -> (r: ToolError)
    ensures
        r.message@ == "Invalid arguments: "@ + wrong_kind(key@, expected@),
{
    let mut detail = join2("field `", key);
    detail.append("` must be ");
    detail.append(expected);
    ToolError::invalid_arguments(detail.as_str())
}

/// Reads a required string argument.
pub fn read_text<'a>(arguments: &'a Json, key: &str) -> (r: Result<&'a str, ToolError>)
    ensures
        match r {
            Ok(s) => required_text(arguments@, key@) == Ok::<Seq<char>, Seq<char>>(s@),
            Err(e) => required_text(arguments@, key@) is Err && e.message@ == "Invalid arguments: "@
                + required_text(arguments@, key@)->Err_0,
        },
{
    match arguments.get(key) {
        None => Err(missing(key)),
        Some(Json::Text(s)) => Ok(s.as_str()),
        Some(_) => Err(wrong(key, "a string")),
    }
}

/// Reads an optional string argument.
pub fn read_optional_text<'a>(arguments: &'a Json, key: &str) -> (r: Result<
    Option<&'a str>,
    ToolError,
>)
    ensures
        match r {
            Ok(Some(s)) => optional_text(arguments@, key@) == Ok::<Option<Seq<char>>, Seq<char>>(
                Some(s@),
            ),
            Ok(None) => optional_text(arguments@, key@) == Ok::<Option<Seq<char>>, Seq<char>>(None),
            Err(e) => optional_text(arguments@, key@) is Err && e.message@ == "Invalid arguments: "@
                + optional_text(arguments@, key@)->Err_0,
        },
{
    match arguments.get(key) {
        None => Ok(None),
        Some(Json::Null) => Ok(None),
        Some(Json::Text(s)) => Ok(Some(s.as_str())),
        Some(_) => Err(wrong(key, "a string")),
    }
}

/// Reads an optional count argument.
pub fn read_count(arguments: &Json, key: &str, default: usize) -> (r: Result<usize, ToolError>)
    ensures
        match r {
            Ok(n) => optional_count(arguments@, key@, default as nat) == Ok::<nat, Seq<char>>(
                n as nat,
            ),
            Err(e) => optional_count(arguments@, key@, default as nat) is Err && e.message@
                == "Invalid arguments: "@ + optional_count(arguments@, key@, default as nat)->Err_0,
        },
{
    match arguments.get(key) {
        None => Ok(default),
        Some(Json::Int(n)) => {
            if *n >= 0 && (*n as u64) <= usize::MAX as u64 {
                Ok(*n as usize)
            } else {
                Err(wrong(key, "a non-negative integer"))
            }
        },
        Some(_) => Err(wrong(key, "a non-negative integer")),
    }
}

/// The tools that this library provides.
pub enum WxoTool {
    SearchDocs(SearchDocsTool),
    ValidateConfig(ValidateConfigTool),
    FetchExamples(FetchExamplesTool),
}

impl WxoTool {
    /// What the tool returns for its arguments: its output, or the message
    /// of its error.
    pub open spec fn output(self, arguments: JsonView) -> Result<Seq<char>, Seq<char>> {
        match self {
            WxoTool::SearchDocs(_) => search_docs::search_output(arguments),
            WxoTool::ValidateConfig(_) => validate_config::validate_output(arguments),
            WxoTool::FetchExamples(_) => fetch_examples::fetch_output(arguments),
        }
    }
}

impl WxoTool {
    /// What the tool says of itself.
    pub open spec fn description_text(self) -> Seq<char> {
        match self {
            WxoTool::SearchDocs(_) => search_docs::SEARCH_DOCS_DESCRIPTION@,
            WxoTool::ValidateConfig(_) => validate_config::VALIDATE_CONFIG_DESCRIPTION@,
            WxoTool::FetchExamples(_) => fetch_examples::FETCH_EXAMPLES_DESCRIPTION@,
        }
    }

    /// The JSON schema of the tool's arguments.
    pub open spec fn schema(self) -> JsonView {
        match self {
            WxoTool::SearchDocs(_) => search_docs::search_schema(),
            WxoTool::ValidateConfig(_) => validate_config::validate_schema(),
            WxoTool::FetchExamples(_) => fetch_examples::fetch_schema(),
        }
    }
}

impl Tool for WxoTool {
    open spec fn tool_name(&self) -> Seq<char> {
        match self {
            WxoTool::SearchDocs(t) => t.tool_name(),
            WxoTool::ValidateConfig(t) => t.tool_name(),
            WxoTool::FetchExamples(t) => t.tool_name(),
        }
    }

    fn name(&self) -> (r: &str) {
        match self {
            WxoTool::SearchDocs(t) => t.name(),
            WxoTool::ValidateConfig(t) => t.name(),
            WxoTool::FetchExamples(t) => t.name(),
        }
    }

    fn description(&self) -> (r: &str)
        ensures
            r@ == self.description_text(),
    {
        match self {
            WxoTool::SearchDocs(t) => t.description(),
            WxoTool::ValidateConfig(t) => t.description(),
            WxoTool::FetchExamples(t) => t.description(),
        }
    }

    fn parameters_schema(&self) -> (r: Json)
        ensures
            r@ == self.schema(),
    {
        match self {
            WxoTool::SearchDocs(t) => t.parameters_schema(),
            WxoTool::ValidateConfig(t) => t.parameters_schema(),
            WxoTool::FetchExamples(t) => t.parameters_schema(),
        }
    }

    open spec fn may_return(
        &self,
        arguments: JsonView,
        outcome: Result<Seq<char>, Seq<char>>,
    ) -> bool {
        outcome == self.output(arguments)
    }

    fn execute(&self, arguments: &Json) -> (r: Result<String, ToolError>) {
        match self {
            WxoTool::SearchDocs(t) => t.execute(arguments),
            WxoTool::ValidateConfig(t) => t.execute(arguments),
            WxoTool::FetchExamples(t) => t.execute(arguments),
        }
    }
}

/// The names of the tools that this library provides.
pub open spec fn wxo_tool_names() -> Seq<Seq<char>> {
    seq!["search_wxo_docs"@, "validate_wxo_config"@, "fetch_wxo_examples"@]
}

/// A registry with the tools that this library provides: the
/// documentation search, the configuration validator and the example
/// finder.
pub fn create_tool_registry() -> (r: ToolRegistry<WxoTool>)
    ensures
        r.names_spec() == wxo_tool_names(),
        r.tools()[0] is SearchDocs,
        r.tools()[1] is ValidateConfig,
        r.tools()[2] is FetchExamples,
{
    proof {
        reveal_strlit("search_wxo_docs");
        reveal_strlit("validate_wxo_config");
        reveal_strlit("fetch_wxo_examples");
        reveal_with_fuel(position_from, 4);
    }
    let empty: ToolRegistry<WxoTool> = ToolRegistry::new();
    assert(empty.names_spec() =~= Seq::empty());
    let one = empty.register(WxoTool::SearchDocs(SearchDocsTool::new()));
    assert(one.names_spec() =~= seq!["search_wxo_docs"@]);
    assert("search_wxo_docs"@.len() == 15 && "validate_wxo_config"@.len() == 19
        && "fetch_wxo_examples"@.len() == 18);
    assert(!knows(one.names_spec(), "validate_wxo_config"@));
    let two = one.register(WxoTool::ValidateConfig(ValidateConfigTool::new()));
    assert(two.names_spec() =~= seq!["search_wxo_docs"@, "validate_wxo_config"@]);
    assert(!knows(two.names_spec(), "fetch_wxo_examples"@));
    let three = two.register(WxoTool::FetchExamples(FetchExamplesTool::new()));
    assert(three.names_spec() =~= wxo_tool_names());
    three
}

} // verus!
