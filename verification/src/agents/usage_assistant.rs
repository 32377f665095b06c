//! The usage assistant: helps users understand and use the product's
//! features.

use vstd::prelude::*;
use crate::agents::{
    conditional, direct, example_arguments, give_response, lemma_node_names_differ, original_query,
    queue_call, queue_docs_search, response_step, says, search_arguments, search_step, stored_query,
    tool_outputs, tool_results, usage_graph, AgentGraph, AgentNode, AgentRouter, AnalyzeQueryNode,
    ExecuteToolsNode,
};
use crate::graph::{edge_index_from, sources, BuildError, GraphBuilder, GraphPlan, Node, Signal};
use crate::json::Json;
use crate::state::{AgentType, StateView, WxorcaState};
use crate::text::{contains, join2, lowered, position_from, to_lowercase};
use crate::tools::{Tool, ToolRegistry};

verus! {

/// The agent that helps users with the product's features.
pub struct UsageAssistantAgent;

/// The plan of the agent's graph: analyse, then search the documentation
/// or fetch examples as the intent says, respond, and back to the response
/// after the tools have run.
pub open spec fn usage_plan() -> GraphPlan {
    GraphPlan {
        nodes: seq!["analyze"@, "search_docs"@, "fetch_examples"@, "respond"@, "execute_tools"@],
        edges: seq![
            conditional("analyze"@),
            direct("search_docs"@, "respond"@),
            direct("fetch_examples"@, "respond"@),
            conditional("respond"@),
            direct("execute_tools"@, "respond"@),
        ],
        entry: Some("analyze"@),
    }
}

/// The plan of the agent's graph can be built.
pub proof fn lemma_usage_plan_valid()
    ensures
        usage_plan().valid(),
{
    lemma_node_names_differ();
    reveal_with_fuel(position_from, 6);
    reveal_with_fuel(GraphPlan::first_edge_violation, 6);
    let p = usage_plan();
    assert(
        sources(p.edges) =~= seq![
            "analyze"@,
            "search_docs"@,
            "fetch_examples"@,
            "respond"@,
            "execute_tools"@,
        ]
    );
    assert(p.edge_violation(0) is None);
    assert(p.edge_violation(1) is None);
    assert(p.edge_violation(2) is None);
    assert(p.edge_violation(3) is None);
    assert(p.edge_violation(4) is None);
}

impl UsageAssistantAgent {
    /// Builds the agent's graph around the given tools. The build does not
    /// fail.
    pub fn build_graph<T: Tool>(tool_registry: ToolRegistry<T>) -> (r: Result<
        AgentGraph<T>,
        BuildError,
    >)
        ensures
            r matches Ok(g) && usage_graph(g, tool_registry),
    {
        let system_prompt = AgentType::UsageAssistant.system_prompt().to_string();
        proof {
            lemma_node_names_differ();
            lemma_usage_plan_valid();
            reveal_with_fuel(position_from, 6);
        }
        let start: GraphBuilder<AgentNode<T>, AgentRouter> = GraphBuilder::new();
        let named = start.name("usage_assistant_agent").description(
            "Helps users understand and use WatsonX Orchestrate features",
        );
        let n1 = named.add_node(AgentNode::Analyze(AnalyzeQueryNode::new("analyze")));
        assert(n1@.nodes =~= seq!["analyze"@]);
        let n2 = n1.add_node(
            AgentNode::UsageSearch(UsageSearchNode::new("search_docs", system_prompt.clone())),
        );
        assert(n2@.nodes =~= seq!["analyze"@, "search_docs"@]);
        let n3 = n2.add_node(AgentNode::ExampleFetch(ExampleFetchNode::new("fetch_examples")));
        assert(n3@.nodes =~= seq!["analyze"@, "search_docs"@, "fetch_examples"@]);
        let n4 = n3.add_node(
            AgentNode::UsageResponse(UsageResponseNode::new("respond", system_prompt)),
        );
        assert(n4@.nodes =~= seq!["analyze"@, "search_docs"@, "fetch_examples"@, "respond"@]);
        let n5 = n4.add_node(
            AgentNode::ExecuteTools(ExecuteToolsNode::new("execute_tools", tool_registry)),
        );
        assert(
            n5@.nodes =~= seq![
                "analyze"@,
                "search_docs"@,
                "fetch_examples"@,
                "respond"@,
                "execute_tools"@,
            ]
        );
        let e0 = n5.set_entry_point("analyze");
        let e1 = e0.add_conditional_edge("analyze", AgentRouter::ByExample);
        let e2 = e1.add_edge("search_docs", "respond");
        let e3 = e2.add_edge("fetch_examples", "respond");
        let e4 = e3.add_conditional_edge("respond", AgentRouter::ByTools);
        let e5 = e4.add_edge("execute_tools", "respond");
        assert(e5@.edges =~= usage_plan().edges);
        assert(e5@ == usage_plan());
        let r = e5.compile();
        proof {
            if r is Ok {
                let edges = r->Ok_0.edges();
                reveal_with_fuel(edge_index_from, 6);
                assert(edges[0] == e1.edges@[0]);
                assert(edges[0].shape() == usage_plan().edges[0]);
                assert(edges[1] == e2.edges@[1]);
                assert(edges[1].shape() == usage_plan().edges[1]);
                assert(edges[2] == e3.edges@[2]);
                assert(edges[2].shape() == usage_plan().edges[2]);
                assert(edges[3] == e4.edges@[3]);
                assert(edges[3].shape() == usage_plan().edges[3]);
                assert(edges[4] == e5.edges@[4]);
                assert(edges[4].shape() == usage_plan().edges[4]);
                assert(edge_index_from(edges, "analyze"@, true, 0) == 0);
                assert(edge_index_from(edges, "search_docs"@, true, 0) == 5);
                assert(edge_index_from(edges, "search_docs"@, false, 0) == 1);
                assert(edge_index_from(edges, "fetch_examples"@, true, 0) == 5);
                assert(edge_index_from(edges, "fetch_examples"@, false, 0) == 2);
                assert(edge_index_from(edges, "respond"@, true, 0) == 3);
                assert(edge_index_from(edges, "execute_tools"@, true, 0) == 5);
                assert(edge_index_from(edges, "execute_tools"@, false, 0) == 4);
            }
        }
        r
    }
}

/// The node that searches the documentation for users.
pub struct UsageSearchNode {
    pub id: String,
    pub system_prompt: String,
}

impl UsageSearchNode {
    /// A node with the name `id`.
    pub fn new(id: &str, system_prompt: String) -> (r: UsageSearchNode)
        ensures
            r.id@ == id@,
            r.system_prompt == system_prompt,
    {
        UsageSearchNode { id: id.to_string(), system_prompt }
    }
}

/// Queues a search of the user documentation for the stored query.
/// Nothing is queued where no query is stored.
pub fn search_user_docs(state: &mut WxorcaState)
    ensures
        search_step(
            old(state)@,
            "search_wxo_docs"@,
            search_arguments(stored_query(old(state)@), "user"@),
            final(state)@,
        ),
{
    let query = original_query(state);
    if query.as_str().is_empty() {
        return ;
    }
    queue_docs_search(state, query.as_str(), "user");
}

impl Node for UsageSearchNode {
    open spec fn name(&self) -> Seq<char> {
        self.id@
    }

    fn id(&self) -> (r: &str) {
        self.id.as_str()
    }

    fn description(&self) -> (r: Option<&str>)
        ensures
            r matches Some(d) && d@ == "Searches documentation for user-focused content"@,
    {
        Some("Searches documentation for user-focused content")
    }

    fn execute(&self, state: &mut WxorcaState) -> (r: Signal)
        ensures
            r is Continue,
            search_step(
                old(state)@,
                "search_wxo_docs"@,
                search_arguments(stored_query(old(state)@), "user"@),
                final(state)@,
            ),
    {
        search_user_docs(state);
        Signal::Continue
    }
}

/// The node that asks for code examples.
pub struct ExampleFetchNode {
    pub id: String,
}

impl ExampleFetchNode {
    /// A node with the name `id`.
    pub fn new(id: &str) -> (r: ExampleFetchNode)
        ensures
            r.id@ == id@,
    {
        ExampleFetchNode { id: id.to_string() }
    }
}

/// Queues a search for examples on the stored query. Nothing is queued
/// where no query is stored.
pub fn fetch_examples_for_query(state: &mut WxorcaState)
    ensures
        search_step(
            old(state)@,
            "fetch_wxo_examples"@,
            example_arguments(stored_query(old(state)@)),
            final(state)@,
        ),
{
    let query = original_query(state);
    if query.as_str().is_empty() {
        return ;
    }
    let arguments = Json::object2("topic", Json::text(query.as_str()), "limit", Json::Int(3));
    queue_call(state, "fetch_wxo_examples", arguments);
}

impl Node for ExampleFetchNode {
    open spec fn name(&self) -> Seq<char> {
        self.id@
    }

    fn id(&self) -> (r: &str) {
        self.id.as_str()
    }

    fn description(&self) -> (r: Option<&str>)
        ensures
            r matches Some(d) && d@ == "Fetches code examples for the user's query"@,
    {
        Some("Fetches code examples for the user's query")
    }

    fn execute(&self, state: &mut WxorcaState) -> (r: Signal)
        ensures
            r is Continue,
            search_step(
                old(state)@,
                "fetch_wxo_examples"@,
                example_arguments(stored_query(old(state)@)),
                final(state)@,
            ),
    {
        fetch_examples_for_query(state);
        Signal::Continue
    }
}

/// The node that writes the response for users.
pub struct UsageResponseNode {
    pub id: String,
    pub system_prompt: String,
}

impl UsageResponseNode {
    /// A node with the name `id`.
    pub fn new(id: &str, system_prompt: String) -> (r: UsageResponseNode)
        ensures
            r.id@ == id@,
            r.system_prompt == system_prompt,
    {
        UsageResponseNode { id: id.to_string(), system_prompt }
    }
}

/// The guide to skills.
pub const USAGE_SKILLS_GUIDE: &'static str =
    "## Working with Skills\n\nSkills are the building blocks of WatsonX Orchestrate. Here's how to work with them:\n\n### Creating a Skill\n1. Click **+ New Skill** in the skill catalog\n2. Choose a skill type (API, Custom, Pre-built)\n3. Define inputs and outputs\n4. Test your skill before publishing\n\n### Using Skills\n- Type naturally: \"Send an email to John about the meeting\"\n- WXO will find and execute the right skill\n- Review and confirm before execution\n";

/// The guide to workflows and automations.
pub const USAGE_WORKFLOWS_GUIDE: &'static str =
    "## Building Workflows\n\nWorkflows let you chain skills together for complex automations:\n\n1. **Design**: Map out the steps in your process\n2. **Build**: Add skills to your workflow canvas\n3. **Connect**: Define data flow between steps\n4. **Test**: Run the workflow with test data\n5. **Deploy**: Publish for your team to use\n\n**\u{f0}\u{178}\u{2019}\u{a1} Pro Tip**: Start simple and add complexity gradually.";

/// The guide to the catalog.
pub const USAGE_CATALOG_GUIDE: &'static str =
    "## Skill Catalog\n\nThe catalog contains all available skills:\n\n- **Pre-built Skills**: Ready-to-use integrations (Salesforce, Slack, etc.)\n- **Custom Skills**: Created by your organization\n- **Personal Skills**: Your private skills\n\nBrowse by category or search by keyword to find what you need.";

/// The guide to the assistant itself.
pub const USAGE_ASSISTANT_GUIDE: &'static str =
    "## AI Assistant Features\n\nWatsonX Orchestrate's AI understands natural language:\n\n- **Ask Questions**: \"What can you do?\"\n- **Execute Tasks**: \"Create a new support ticket\"\n- **Get Help**: \"How do I use the Salesforce integration?\"\n\nThe AI learns from your usage patterns to provide better suggestions over time.";

/// What the assistant can help with, for a query on nothing in particular.
pub const USAGE_OVERVIEW: &'static str =
    "## Getting Started with WatsonX Orchestrate\n\nWelcome! I can help you with:\n\n- **Skills**: Creating and using automation skills\n- **Workflows**: Building multi-step automations\n- **Catalog**: Finding pre-built integrations\n- **AI Features**: Natural language interaction\n\nWhat would you like to learn about?";

/// The note that something was found.
pub const USAGE_RESOURCES_NOTE: &'static str =
    "\n\n---\n\n**\u{f0}\u{178}\u{201c}\u{2039} Additional Resources:**\nI found some relevant information. Check the details above.";

/// The guide for a lowercase query. The first rule that applies decides.
pub open spec fn usage_guide(q: Seq<char>) -> Seq<char> {
    if says(q, "skill"@) {
        USAGE_SKILLS_GUIDE@
    } else if says(q, "workflow"@) || says(q, "automation"@) {
        USAGE_WORKFLOWS_GUIDE@
    } else if says(q, "catalog"@) {
        USAGE_CATALOG_GUIDE@
    } else if says(q, "ai"@) || says(q, "assistant"@) {
        USAGE_ASSISTANT_GUIDE@
    } else {
        USAGE_OVERVIEW@
    }
}

/// The response to a query: the guide for the query and, where the tools
/// have found anything, a note that says so.
pub open spec fn usage_response(query: Seq<char>, has_results: bool) -> Seq<char> {
    if has_results {
        usage_guide(lowered(query)) + USAGE_RESOURCES_NOTE@
    } else {
        usage_guide(lowered(query))
    }
}

/// Writes the response to a user's query.
pub fn generate_usage_response(query: &str, tool_results: &Vec<String>, _system_prompt: &str) -> (r:
    String)
    ensures
        r@ == usage_response(query@, tool_results@.len() > 0),
{
    let lower = to_lowercase(query);
    let q = lower.as_str();
    let guide = if contains(q, "skill") {
        USAGE_SKILLS_GUIDE
    } else if contains(q, "workflow") || contains(q, "automation") {
        USAGE_WORKFLOWS_GUIDE
    } else if contains(q, "catalog") {
        USAGE_CATALOG_GUIDE
    } else if contains(q, "ai") || contains(q, "assistant") {
        USAGE_ASSISTANT_GUIDE
    } else {
        USAGE_OVERVIEW
    };
    if tool_results.len() > 0 {
        join2(guide, USAGE_RESOURCES_NOTE)
    } else {
        guide.to_string()
    }
}

/// The response that the state calls for.
pub open spec fn usage_reply(s: StateView) -> Seq<char> {
    usage_response(stored_query(s), tool_outputs(s).len() > 0)
}

/// Writes the response, unless tool calls are pending.
pub fn respond_usage(state: &mut WxorcaState, system_prompt: &str)
    ensures
        response_step(old(state)@, usage_reply(old(state)@), final(state)@),
{
    if state.has_pending_tool_calls() {
        return ;
    }
    let query = original_query(state);
    let results = tool_results(state);
    let response = generate_usage_response(query.as_str(), &results, system_prompt);
    give_response(state, response.as_str());
}

impl Node for UsageResponseNode {
    open spec fn name(&self) -> Seq<char> {
        self.id@
    }

    fn id(&self) -> (r: &str) {
        self.id.as_str()
    }

    fn description(&self) -> (r: Option<&str>)
        ensures
            r matches Some(d) && d@ == "Generates user-friendly responses about WXO features"@,
    {
        Some("Generates user-friendly responses about WXO features")
    }

    fn execute(&self, state: &mut WxorcaState) -> (r: Signal)
        ensures
            r is Finish,
            response_step(old(state)@, usage_reply(old(state)@), final(state)@),
    {
        respond_usage(state, self.system_prompt.as_str());
        Signal::Finish
    }
}

} // verus!
