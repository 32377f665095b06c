//! The documentation helper: finds the part of the documentation that a
//! question is about and lists what a search found.

use vstd::prelude::*;
use crate::agents::{
    conditional, direct, docs_graph, give_response, lemma_node_names_differ, original_query,
    queue_docs_search, response_step, says, search_arguments, search_step, stored_query,
    tool_outputs, tool_results, AgentGraph, AgentNode, AgentRouter, AnalyzeQueryNode,
    ExecuteToolsNode,
};
use crate::graph::{edge_index_from, sources, BuildError, GraphBuilder, GraphPlan, Node, Signal};
use crate::json::{items_view, lemma_text_list_items, parse, parsed, text_list, Json, JsonView};
use crate::state::{opt_text, AgentType, StateView, WxorcaState};
use crate::text::{
    byte_len, contains, excerpt, excerpt_of, join2, join3, lowered, position_from, same_text,
    split_whitespace, texts, to_lowercase, words_of,
};
use crate::tools::{Tool, ToolRegistry};
use vstd::string::StringExecFns;

verus! {

/// The agent that helps with the documentation.
pub struct DocsHelperAgent;

/// The plan of the agent's graph: analyse, categorize, search, respond, and back
/// to the response after the tools have run.
pub open spec fn docs_plan() -> GraphPlan {
    GraphPlan {
        nodes: seq!["analyze"@, "categorize"@, "search_docs"@, "respond"@, "execute_tools"@],
        edges: seq![
            direct("analyze"@, "categorize"@),
            direct("categorize"@, "search_docs"@),
            direct("search_docs"@, "respond"@),
            conditional("respond"@),
            direct("execute_tools"@, "respond"@),
        ],
        entry: Some("analyze"@),
    }
}

/// The plan of the agent's graph can be built.
pub proof fn lemma_docs_plan_valid()
    ensures
        docs_plan().valid(),
{
    lemma_node_names_differ();
    reveal_with_fuel(position_from, 6);
    reveal_with_fuel(GraphPlan::first_edge_violation, 6);
    let p = docs_plan();
    assert(
        sources(p.edges) =~= seq![
            "analyze"@,
            "categorize"@,
            "search_docs"@,
            "respond"@,
            "execute_tools"@,
        ]
    );
    assert(p.edge_violation(0) is None);
    assert(p.edge_violation(1) is None);
    assert(p.edge_violation(2) is None);
    assert(p.edge_violation(3) is None);
    assert(p.edge_violation(4) is None);
}

impl DocsHelperAgent {
    /// Builds the agent's graph around the given tools. The build does not
    /// fail.
    pub fn build_graph<T: Tool>(tool_registry: ToolRegistry<T>) -> (r: Result<
        AgentGraph<T>,
        BuildError,
    >)
        ensures
            r matches Ok(g) && docs_graph(g, tool_registry),
    {
        let system_prompt = AgentType::DocsHelper.system_prompt().to_string();
        proof {
            lemma_node_names_differ();
            lemma_docs_plan_valid();
            reveal_with_fuel(position_from, 6);
        }
        let start: GraphBuilder<AgentNode<T>, AgentRouter> = GraphBuilder::new();
        let named = start.name("docs_helper_agent").description(
            "Helps users navigate and understand WatsonX Orchestrate documentation",
        );
        let n1 = named.add_node(AgentNode::Analyze(AnalyzeQueryNode::new("analyze")));
        assert(n1@.nodes =~= seq!["analyze"@]);
        let n2 = n1.add_node(AgentNode::DocsCategory(DocsCategoryNode::new("categorize")));
        assert(n2@.nodes =~= seq!["analyze"@, "categorize"@]);
        let n3 = n2.add_node(
            AgentNode::DocsSearch(DocsSearchNode::new("search_docs", system_prompt.clone())),
        );
        assert(n3@.nodes =~= seq!["analyze"@, "categorize"@, "search_docs"@]);
        let n4 = n3.add_node(
            AgentNode::DocsResponse(DocsResponseNode::new("respond", system_prompt)),
        );
        assert(n4@.nodes =~= seq!["analyze"@, "categorize"@, "search_docs"@, "respond"@]);
        let n5 = n4.add_node(
            AgentNode::ExecuteTools(ExecuteToolsNode::new("execute_tools", tool_registry)),
        );
        assert(
            n5@.nodes =~= seq![
                "analyze"@,
                "categorize"@,
                "search_docs"@,
                "respond"@,
                "execute_tools"@,
            ]
        );
        let e0 = n5.set_entry_point("analyze");
        let e1 = e0.add_edge("analyze", "categorize");
        let e2 = e1.add_edge("categorize", "search_docs");
        let e3 = e2.add_edge("search_docs", "respond");
        let e4 = e3.add_conditional_edge("respond", AgentRouter::ByTools);
        let e5 = e4.add_edge("execute_tools", "respond");
        assert(e5@.edges =~= docs_plan().edges);
        assert(e5@ == docs_plan());
        let r = e5.compile();
        proof {
            if r is Ok {
                let edges = r->Ok_0.edges();
                reveal_with_fuel(edge_index_from, 6);
                assert(edges[0] == e1.edges@[0]);
                assert(edges[0].shape() == docs_plan().edges[0]);
                assert(edges[1] == e2.edges@[1]);
                assert(edges[1].shape() == docs_plan().edges[1]);
                assert(edges[2] == e3.edges@[2]);
                assert(edges[2].shape() == docs_plan().edges[2]);
                assert(edges[3] == e4.edges@[3]);
                assert(edges[3].shape() == docs_plan().edges[3]);
                assert(edges[4] == e5.edges@[4]);
                assert(edges[4].shape() == docs_plan().edges[4]);
                assert(edge_index_from(edges, "analyze"@, true, 0) == 5);
                assert(edge_index_from(edges, "analyze"@, false, 0) == 0);
                assert(edge_index_from(edges, "categorize"@, true, 0) == 5);
                assert(edge_index_from(edges, "categorize"@, false, 0) == 1);
                assert(edge_index_from(edges, "search_docs"@, true, 0) == 5);
                assert(edge_index_from(edges, "search_docs"@, false, 0) == 2);
                assert(edge_index_from(edges, "respond"@, true, 0) == 3);
                assert(edge_index_from(edges, "execute_tools"@, true, 0) == 5);
                assert(edge_index_from(edges, "execute_tools"@, false, 0) == 4);
            }
        }
        r
    }
}

/// The part of the documentation that a request is about.
#[derive(Debug)]
pub struct DocsCategory {
    pub primary: String,
    pub secondary: Option<String>,
    pub keywords: Vec<String>,
}

/// The mathematical value of a [`DocsCategory`].
pub struct DocsCategoryView {
    pub primary: Seq<char>,
    pub secondary: Option<Seq<char>>,
    pub keywords: Seq<Seq<char>>,
}

impl View for DocsCategory {
    type V = DocsCategoryView;

    open spec fn view(&self) -> DocsCategoryView {
        DocsCategoryView {
            primary: self.primary@,
            secondary: opt_text(self.secondary),
            keywords: texts(self.keywords@),
        }
    }
}

/// The category of a lowercase request and the section within it. The first
/// rule that applies decides.
pub open spec fn section_of(q: Seq<char>) -> (Seq<char>, Option<Seq<char>>) {
    if says(q, "api"@) || says(q, "endpoint"@) {
        ("api"@, Some("reference"@))
    } else if says(q, "admin"@) || says(q, "configure"@) {
        ("admin"@, Some("setup"@))
    } else if says(q, "start"@) || says(q, "begin"@) {
        ("getting_started"@, None)
    } else if says(q, "skill"@) {
        ("user"@, Some("skills"@))
    } else if says(q, "workflow"@) {
        ("user"@, Some("workflows"@))
    } else if says(q, "integration"@) {
        ("admin"@, Some("integrations"@))
    } else if says(q, "error"@) || says(q, "troubleshoot"@) {
        ("troubleshooting"@, None)
    } else if says(q, "release"@) || says(q, "new"@) {
        ("release_notes"@, None)
    } else {
        ("user"@, None)
    }
}

/// The keywords among the first `n` words: the words of more than three
/// bytes, in order, no more than five of them.
pub open spec fn keywords_of(words: Seq<Seq<char>>, n: nat) -> Seq<Seq<char>>
    decreases n,
{
    if n == 0 || n > words.len() {
        Seq::empty()
    } else {
        let before = keywords_of(words, (n - 1) as nat);
        if before.len() < 5 && byte_len(words[n - 1]) > 3 {
            before.push(words[n - 1])
        } else {
            before
        }
    }
}

/// The category of a lowercase request.
pub open spec fn category_of(q: Seq<char>) -> DocsCategoryView {
    DocsCategoryView {
        primary: section_of(q).0,
        secondary: section_of(q).1,
        keywords: keywords_of(words_of(q), words_of(q).len()),
    }
}

/// Finds the part of the documentation that a request is about, by its
/// keywords and letter case aside.
pub fn categorize_docs_request(query: &str) -> (r: DocsCategory)
    ensures
        r@ == category_of(lowered(query@)),
{
    let lower = to_lowercase(query);
    let q = lower.as_str();
    let section: (&str, Option<&str>) = if contains(q, "api") || contains(q, "endpoint") {
        ("api", Some("reference"))
    } else if contains(q, "admin") || contains(q, "configure") {
        ("admin", Some("setup"))
    } else if contains(q, "start") || contains(q, "begin") {
        ("getting_started", None)
    } else if contains(q, "skill") {
        ("user", Some("skills"))
    } else if contains(q, "workflow") {
        ("user", Some("workflows"))
    } else if contains(q, "integration") {
        ("admin", Some("integrations"))
    } else if contains(q, "error") || contains(q, "troubleshoot") {
        ("troubleshooting", None)
    } else if contains(q, "release") || contains(q, "new") {
        ("release_notes", None)
    } else {
        ("user", None)
    };
    let words = split_whitespace(q);
    let mut keywords: Vec<String> = Vec::new();
    let mut i: usize = 0;
    while i < words.len()
        invariant
            i <= words.len(),
            texts(words@) == words_of(lowered(query@)),
            texts(keywords@) == keywords_of(texts(words@), i as nat),
        decreases words.len() - i,
    {
        assert(texts(words@)[i as int] == words@[i as int]@);
        if keywords.len() < 5 && words[i].as_str().as_bytes().len() > 3 {
            let ghost before = texts(keywords@);
            keywords.push(words[i].clone());
            assert(texts(keywords@) =~= before.push(words@[i as int]@));
        }
        i += 1;
    }
    let secondary: Option<String> = match section.1 {
        Some(s) => Some(s.to_string()),
        None => None,
    };
    DocsCategory { primary: section.0.to_string(), secondary, keywords }
}

/// An optional text as JSON: the string, or null.
pub open spec fn optional_json(o: Option<Seq<char>>) -> JsonView {
    match o {
        Some(s) => JsonView::Text(s),
        None => JsonView::Null,
    }
}

/// A category as a JSON object.
pub open spec fn category_json(c: DocsCategoryView) -> JsonView {
    JsonView::Object(
        seq![
            ("primary"@, JsonView::Text(c.primary)),
            ("secondary"@, optional_json(c.secondary)),
            ("keywords"@, text_list(c.keywords)),
        ],
    )
}

/// The category that a JSON value holds: nothing where a member is missing
/// or of the wrong kind. A section that is missing or null is no section.
pub open spec fn category_from(j: JsonView) -> Option<DocsCategoryView> {
    let keywords = match j.field("keywords"@) {
        Some(v) => v.text_items(),
        None => None,
    };
    let secondary: Option<Option<Seq<char>>> = match j.field("secondary"@) {
        None => Some(None),
        Some(JsonView::Null) => Some(None),
        Some(JsonView::Text(s)) => Some(Some(s)),
        Some(_) => None,
    };
    if j.text_at("primary"@) is Some && secondary is Some && keywords is Some {
        Some(
            DocsCategoryView {
                primary: j.text_at("primary"@)->0,
                secondary: secondary->0,
                keywords: keywords->0,
            },
        )
    } else {
        None
    }
}

impl DocsCategory {
    /// The category as a JSON object.
    pub fn to_json(&self) -> (r: Json)
        ensures
            r@ == category_json(self@),
    {
        let secondary = match &self.secondary {
            Some(s) => Json::text(s.as_str()),
            None => Json::Null,
        };
        Json::object3(
            "primary",
            Json::text(self.primary.as_str()),
            "secondary",
            secondary,
            "keywords",
            Json::texts(&self.keywords),
        )
    }

    /// Reads a category from a JSON value.
    pub fn from_json(j: &Json) -> (r: Option<DocsCategory>)
        ensures
            match r {
                Some(c) => category_from(j@) == Some(c@),
                None => category_from(j@) is None,
            },
    {
        let primary = match j.text_at("primary") {
            Some(p) => p,
            None => {
                return None;
            },
        };
        let secondary: Option<String> = match j.get("secondary") {
            None => None,
            Some(Json::Null) => None,
            Some(Json::Text(s)) => Some(s.clone()),
            Some(_) => {
                return None;
            },
        };
        let keywords = match j.get("keywords") {
            Some(v) => match v.as_texts() {
                Some(k) => k,
                None => {
                    return None;
                },
            },
            None => {
                return None;
            },
        };
        Some(DocsCategory { primary: primary.to_string(), secondary, keywords })
    }
}

/// The node that categorizes the request.
pub struct DocsCategoryNode {
    pub id: String,
}

impl DocsCategoryNode {
    /// A node with the name `id`.
    pub fn new(id: &str) -> (r: DocsCategoryNode)
        ensures
            r.id@ == id@,
    {
        DocsCategoryNode { id: id.to_string() }
    }
}

/// Stores the category of the stored query.
pub fn categorize(state: &mut WxorcaState)
    ensures
        final(state)@ == old(state)@.with_metadata(
            "docs_category"@,
            category_json(category_of(lowered(stored_query(old(state)@)))),
            final(state)@.updated_at,
        ),
{
    let query = original_query(state);
    let category = categorize_docs_request(query.as_str());
    state.set_metadata("docs_category", category.to_json());
}

impl Node for DocsCategoryNode {
    open spec fn name(&self) -> Seq<char> {
        self.id@
    }

    fn id(&self) -> (r: &str) {
        self.id.as_str()
    }

    fn description(&self) -> (r: Option<&str>)
        ensures
            r matches Some(d) && d@ == "Categorizes the documentation request"@,
    {
        Some("Categorizes the documentation request")
    }

    fn execute(&self, state: &mut WxorcaState) -> (r: Signal)
        ensures
            r is Continue,
            final(state)@ == old(state)@.with_metadata(
                "docs_category"@,
                category_json(category_of(lowered(stored_query(old(state)@)))),
                final(state)@.updated_at,
            ),
    {
        categorize(state);
        Signal::Continue
    }
}

/// A category that was written as JSON reads back as it was.
pub proof fn lemma_category_round_trip(c: DocsCategoryView)
    ensures
        category_from(category_json(c)) == Some(c),
{
    reveal_strlit("primary");
    reveal_strlit("secondary");
    reveal_strlit("keywords");
    assert("primary"@[0] == 'p' && "secondary"@[0] == 's' && "keywords"@[0] == 'k');
    reveal_with_fuel(crate::json::lookup_from, 4);
    lemma_text_list_items(c.keywords);
}

/// The category that the store holds, where it holds one.
pub open spec fn stored_docs_category(s: StateView) -> Option<DocsCategoryView> {
    match s.metadata_at("docs_category"@) {
        Some(j) => category_from(j),
        None => None,
    }
}

/// The category that a node works with: the stored one, or the user
/// documentation without section and keywords.
pub open spec fn working_category(s: StateView) -> DocsCategoryView {
    match stored_docs_category(s) {
        Some(c) => c,
        None => DocsCategoryView { primary: "user"@, secondary: None, keywords: Seq::empty() },
    }
}

/// Reads the category that a node works with.
pub fn read_category(state: &WxorcaState) -> (r: DocsCategory)
    ensures
        r@ == working_category(state@),
{
    let stored = match state.get_metadata("docs_category") {
        Some(j) => DocsCategory::from_json(j),
        None => None,
    };
    match stored {
        Some(c) => c,
        None => {
            let c = DocsCategory {
                primary: "user".to_string(),
                secondary: None,
                keywords: Vec::new(),
            };
            assert(c@.keywords =~= Seq::empty());
            c
        },
    }
}

/// The node that searches the documentation by category.
pub struct DocsSearchNode {
    pub id: String,
    pub system_prompt: String,
}

impl DocsSearchNode {
    /// A node with the name `id`.
    pub fn new(id: &str, system_prompt: String) -> (r: DocsSearchNode)
        ensures
            r.id@ == id@,
            r.system_prompt == system_prompt,
    {
        DocsSearchNode { id: id.to_string(), system_prompt }
    }
}

/// Queues a search of the documentation for the stored query in the
/// category that the store holds. Nothing is queued where no query is
/// stored.
pub fn search_docs_by_category(state: &mut WxorcaState)
    ensures
        search_step(
            old(state)@,
            "search_wxo_docs"@,
            search_arguments(stored_query(old(state)@), working_category(old(state)@).primary),
            final(state)@,
        ),
{
    let query = original_query(state);
    let category = read_category(state);
    if query.as_str().is_empty() {
        return ;
    }
    queue_docs_search(state, query.as_str(), category.primary.as_str());
}

impl Node for DocsSearchNode {
    open spec fn name(&self) -> Seq<char> {
        self.id@
    }

    fn id(&self) -> (r: &str) {
        self.id.as_str()
    }

    fn description(&self) -> (r: Option<&str>)
        ensures
            r matches Some(d) && d@ == "Searches documentation based on categorized request"@,
    {
        Some("Searches documentation based on categorized request")
    }

    fn execute(&self, state: &mut WxorcaState) -> (r: Signal)
        ensures
            r is Continue,
            search_step(
                old(state)@,
                "search_wxo_docs"@,
                search_arguments(stored_query(old(state)@), working_category(old(state)@).primary),
                final(state)@,
            ),
    {
        search_docs_by_category(state);
        Signal::Continue
    }
}

/// The node that writes the guide to the documentation.
pub struct DocsResponseNode {
    pub id: String,
    pub system_prompt: String,
}

impl DocsResponseNode {
    /// A node with the name `id`.
    pub fn new(id: &str, system_prompt: String) -> (r: DocsResponseNode)
        ensures
            r.id@ == id@,
            r.system_prompt == system_prompt,
    {
        DocsResponseNode { id: id.to_string(), system_prompt }
    }
}

/// The heading of the guide.
pub const DOCS_HEADING: &'static str =
    "## \u{f8ff}\u{fc}\u{ec}\u{f6} Documentation Guide\n\n";

/// The overview of the API documentation.
pub const DOCS_API: &'static str =
    "### API Documentation\n\nThe WatsonX Orchestrate API documentation covers:\n\n- **Authentication**: How to obtain and use API tokens\n- **Skills API**: Create, manage, and execute skills\n- **Workflows API**: Manage workflow definitions\n- **Users API**: User and team management\n\n**Quick Links:**\n- [API Reference](https://www.ibm.com/docs/watsonx-orchestrate/api)\n- [Authentication Guide](https://www.ibm.com/docs/watsonx-orchestrate/api/auth)\n";

/// The overview of the administration documentation.
pub const DOCS_ADMIN: &'static str =
    "### Administration Documentation\n\nAdmin documentation helps you:\n\n- **Set up** your WXO environment\n- **Configure** security and access control\n- **Manage** users, teams, and permissions\n- **Integrate** with external services\n\n**Quick Links:**\n- [Admin Guide](https://www.ibm.com/docs/watsonx-orchestrate/admin)\n- [Security Configuration](https://www.ibm.com/docs/watsonx-orchestrate/security)\n";

/// The overview of the first steps.
pub const DOCS_GETTING_STARTED: &'static str =
    "### Getting Started\n\nWelcome to WatsonX Orchestrate! Here's how to begin:\n\n1. **First Steps**: Log in and explore the interface\n2. **Try a Skill**: Use a pre-built skill from the catalog\n3. **Create Your Own**: Build a simple custom skill\n4. **Automate**: Combine skills into workflows\n\n**Quick Links:**\n- [Quick Start Guide](https://www.ibm.com/docs/watsonx-orchestrate/quickstart)\n- [Tutorial Videos](https://www.ibm.com/docs/watsonx-orchestrate/tutorials)\n";

/// The overview of the troubleshooting documentation.
pub const DOCS_TROUBLESHOOTING: &'static str =
    "### Troubleshooting Documentation\n\nFind solutions for common issues:\n\n- **Authentication Issues**: Login and access problems\n- **Skill Errors**: Execution failures and debugging\n- **Integration Problems**: Connection and sync issues\n- **Performance**: Slow operations and timeouts\n\n**Quick Links:**\n- [Troubleshooting Guide](https://www.ibm.com/docs/watsonx-orchestrate/troubleshooting)\n- [Known Issues](https://www.ibm.com/docs/watsonx-orchestrate/known-issues)\n";

/// The overview of the release notes.
pub const DOCS_RELEASE_NOTES: &'static str =
    "### Release Notes\n\nStay up to date with WatsonX Orchestrate:\n\n- **New Features**: Latest capabilities added\n- **Improvements**: Enhancements to existing features\n- **Bug Fixes**: Issues that have been resolved\n- **Breaking Changes**: Updates that may require action\n\n**Quick Links:**\n- [Latest Release Notes](https://www.ibm.com/docs/watsonx-orchestrate/release-notes)\n- [Roadmap](https://www.ibm.com/docs/watsonx-orchestrate/roadmap)\n";

/// The overview of the user documentation.
pub const DOCS_USER: &'static str =
    "### User Documentation\n\nUser documentation helps you work effectively:\n\n- **Skills**: Create and use automation skills\n- **Workflows**: Build multi-step automations\n- **Catalog**: Find pre-built integrations\n- **AI Features**: Natural language interaction\n\n**Quick Links:**\n- [User Guide](https://www.ibm.com/docs/watsonx-orchestrate/user)\n- [Skill Catalog](https://www.ibm.com/docs/watsonx-orchestrate/catalog)\n";

/// The heading of the section on what the searches found.
pub const DOCS_FOUND: &'static str =
    "\n---\n\n### \u{f8ff}\u{fc}\u{ee}\u{e7} Relevant Documentation Found\n\nBased on your query, here are the most relevant docs:\n\n";

/// The closing lines.
pub const DOCS_CLOSING: &'static str =
    "\n---\n\n**Can't find what you need?** Try asking a more specific question or let me know which documentation category you're interested in.";

/// The overview of a category of the documentation.
pub open spec fn overview_for(primary: Seq<char>) -> Seq<char> {
    if primary == "api"@ {
        DOCS_API@
    } else if primary == "admin"@ {
        DOCS_ADMIN@
    } else if primary == "getting_started"@ {
        DOCS_GETTING_STARTED@
    } else if primary == "troubleshooting"@ {
        DOCS_TROUBLESHOOTING@
    } else if primary == "release_notes"@ {
        DOCS_RELEASE_NOTES@
    } else {
        DOCS_USER@
    }
}

/// The line for the content of a document: an excerpt of 100 bytes in
/// italics, or nothing where the document has no content.
pub open spec fn content_line(doc: JsonView) -> Seq<char> {
    match doc.text_at("content"@) {
        Some(c) => "\n  _"@ + excerpt(c, 100) + "_"@,
        None => Seq::empty(),
    }
}

/// The entry for a document that a search found: a link with the title,
/// and the line for the content. A document without title or URL has no
/// entry.
pub open spec fn entry(doc: JsonView) -> Seq<char> {
    if doc.text_at("title"@) is Some && doc.text_at("url"@) is Some {
        "- **["@ + doc.text_at("title"@)->0 + "]("@ + doc.text_at("url"@)->0 + ")**"@
            + content_line(doc) + "\n\n"@
    } else {
        Seq::empty()
    }
}

/// The entries of the first `n` documents.
pub open spec fn entries(docs: Seq<JsonView>, n: nat) -> Seq<char>
    decreases n,
{
    if n == 0 || n > docs.len() {
        Seq::empty()
    } else {
        entries(docs, (n - 1) as nat) + entry(docs[n - 1])
    }
}

/// The number of documents listed for one result: no more than three.
pub open spec fn listed_count(docs: Seq<JsonView>) -> nat {
    if docs.len() > 3 {
        3
    } else {
        docs.len()
    }
}

/// What is listed for the result of one tool call: the entries of its
/// first three documents where the result is a JSON list, else nothing.
pub open spec fn listing(result: Seq<char>) -> Seq<char> {
    match parsed(result) {
        Some(JsonView::List(docs)) => entries(docs, listed_count(docs)),
        _ => Seq::empty(),
    }
}

/// What is listed for the first `n` results.
pub open spec fn listings(results: Seq<Seq<char>>, n: nat) -> Seq<char>
    decreases n,
{
    if n == 0 || n > results.len() {
        Seq::empty()
    } else {
        listings(results, (n - 1) as nat) + listing(results[n - 1])
    }
}

/// The section on what the searches found: nothing where no tool has
/// answered.
pub open spec fn found_section(results: Seq<Seq<char>>) -> Seq<char> {
    if results.len() > 0 {
        DOCS_FOUND@ + listings(results, results.len())
    } else {
        Seq::empty()
    }
}

/// The guide for a category and the results of the searches: a heading,
/// the overview of the category, what the searches found, and a closing
/// line.
pub open spec fn docs_response(primary: Seq<char>, results: Seq<Seq<char>>) -> Seq<char> {
    DOCS_HEADING@ + overview_for(primary) + found_section(results) + DOCS_CLOSING@
}

/// Writes the entry for a document that a search found.
pub fn entry_text(doc: &Json) -> (r: String)
    ensures
        r@ == entry(doc@),
{
    let title = match doc.text_at("title") {
        Some(t) => t,
        None => {
            return String::new();
        },
    };
    let url = match doc.text_at("url") {
        Some(u) => u,
        None => {
            return String::new();
        },
    };
    let mut r = join3("- **[", title, "](");
    r.append(url);
    r.append(")**");
    match doc.text_at("content") {
        Some(content) => {
            r.append("\n  _");
            r.append(excerpt_of(content, 100).as_str());
            r.append("_");
        },
        None => {},
    }
    r.append("\n\n");
    assert(r@ =~= entry(doc@));
    r
}

/// Writes what is listed for the result of one tool call.
pub fn listing_text(result: &str) -> (r: String)
    ensures
        r@ == listing(result@),
{
    let value = match parse(result) {
        Some(v) => v,
        None => {
            return String::new();
        },
    };
    let docs = match value.as_list() {
        Some(d) => d,
        None => {
            return String::new();
        },
    };
    let ghost views = items_view(docs@);
    let count: usize = if docs.len() > 3 {
        3
    } else {
        docs.len()
    };
    let mut r = String::new();
    let mut i: usize = 0;
    while i < count
        invariant
            i <= count <= docs.len(),
            views == items_view(docs@),
            r@ == entries(views, i as nat),
        decreases count - i,
    {
        assert(views[i as int] == docs@[i as int]@);
        r.append(entry_text(&docs[i]).as_str());
        i += 1;
    }
    r
}

/// Writes the guide to the documentation.
pub fn generate_docs_response(
    _query: &str,
    category: &DocsCategory,
    tool_results: &Vec<String>,
    _system_prompt: &str,
) -> (r: String)
    ensures
        r@ == docs_response(category@.primary, texts(tool_results@)),
{
    let primary = category.primary.as_str();
    let overview = if same_text(primary, "api") {
        DOCS_API
    } else if same_text(primary, "admin") {
        DOCS_ADMIN
    } else if same_text(primary, "getting_started") {
        DOCS_GETTING_STARTED
    } else if same_text(primary, "troubleshooting") {
        DOCS_TROUBLESHOOTING
    } else if same_text(primary, "release_notes") {
        DOCS_RELEASE_NOTES
    } else {
        DOCS_USER
    };
    let mut response = join2(DOCS_HEADING, overview);
    if tool_results.len() > 0 {
        response.append(DOCS_FOUND);
        let ghost head = response@;
        let ghost results = texts(tool_results@);
        let mut i: usize = 0;
        while i < tool_results.len()
            invariant
                i <= tool_results.len(),
                results == texts(tool_results@),
                response@ == head + listings(results, i as nat),
            decreases tool_results.len() - i,
        {
            assert(results[i as int] == tool_results@[i as int]@);
            response.append(listing_text(tool_results[i].as_str()).as_str());
            assert(response@ =~= head + listings(results, (i + 1) as nat));
            i += 1;
        }
        assert(response@ =~= DOCS_HEADING@ + overview_for(category@.primary) + found_section(
            texts(tool_results@),
        ));
    } else {
        assert(response@ =~= DOCS_HEADING@ + overview_for(category@.primary) + found_section(
            texts(tool_results@),
        ));
    }
    response.append(DOCS_CLOSING);
    response
}

/// The response that the state calls for.
pub open spec fn docs_reply(s: StateView) -> Seq<char> {
    docs_response(working_category(s).primary, tool_outputs(s))
}

/// Writes the guide, unless tool calls are pending.
pub fn respond_docs(state: &mut WxorcaState, system_prompt: &str)
    ensures
        response_step(old(state)@, docs_reply(old(state)@), final(state)@),
{
    if state.has_pending_tool_calls() {
        return ;
    }
    let query = original_query(state);
    let category = read_category(state);
    let results = tool_results(state);
    let response = generate_docs_response(query.as_str(), &category, &results, system_prompt);
    give_response(state, response.as_str());
}

impl Node for DocsResponseNode {
    open spec fn name(&self) -> Seq<char> {
        self.id@
    }

    fn id(&self) -> (r: &str) {
        self.id.as_str()
    }

    fn description(&self) -> (r: Option<&str>)
        ensures
            r matches Some(d) && d@ == "Generates documentation navigation response"@,
    {
        Some("Generates documentation navigation response")
    }

    fn execute(&self, state: &mut WxorcaState) -> (r: Signal)
        ensures
            r is Finish,
            response_step(old(state)@, docs_reply(old(state)@), final(state)@),
    {
        respond_docs(state, self.system_prompt.as_str());
        Signal::Finish
    }
}

} // verus!
