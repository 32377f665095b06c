//! The admin setup guide: helps administrators set up and configure the
//! product.

use vstd::prelude::*;
use crate::agents::{
    admin_graph, conditional, direct, give_response, lemma_node_names_differ, original_query,
    queue_docs_search, response_step, says, search_arguments, search_step, stored_query,
    tool_outputs, tool_results, AgentGraph, AgentNode, AgentRouter, AnalyzeQueryNode,
    ExecuteToolsNode,
};
use crate::graph::{edge_index_from, sources, BuildError, GraphBuilder, GraphPlan, Node, Signal};
use crate::state::{AgentType, StateView, WxorcaState};
use crate::text::{contains, join2, lowered, position_from, to_lowercase};
use crate::tools::{Tool, ToolRegistry};

verus! {

/// The agent that guides administrators through setup.
pub struct AdminSetupAgent;

/// The plan of the agent's graph: analyse, search, respond, and back to
/// the response after the tools have run.
pub open spec fn admin_plan() -> GraphPlan {
    GraphPlan {
        nodes: seq!["analyze"@, "search_docs"@, "respond"@, "execute_tools"@],
        edges: seq![
            direct("analyze"@, "search_docs"@),
            direct("search_docs"@, "respond"@),
            conditional("respond"@),
            direct("execute_tools"@, "respond"@),
        ],
        entry: Some("analyze"@),
    }
}

/// The plan of the agent's graph can be built.
pub proof fn lemma_admin_plan_valid()
    ensures
        admin_plan().valid(),
{
    lemma_node_names_differ();
    reveal_with_fuel(position_from, 6);
    reveal_with_fuel(GraphPlan::first_edge_violation, 6);
    let p = admin_plan();
    assert(sources(p.edges) =~= seq!["analyze"@, "search_docs"@, "respond"@, "execute_tools"@]);
    assert(p.edge_violation(0) is None);
    assert(p.edge_violation(1) is None);
    assert(p.edge_violation(2) is None);
    assert(p.edge_violation(3) is None);
}

impl AdminSetupAgent {
    /// Builds the agent's graph around the given tools. The build does not
    /// fail.
    pub fn build_graph<T: Tool>(tool_registry: ToolRegistry<T>) -> (r: Result<
        AgentGraph<T>,
        BuildError,
    >)
        ensures
            r matches Ok(g) && admin_graph(g, tool_registry),
    {
        let system_prompt = AgentType::AdminSetup.system_prompt().to_string();
        proof {
            lemma_node_names_differ();
            lemma_admin_plan_valid();
            reveal_with_fuel(position_from, 6);
        }
        let start: GraphBuilder<AgentNode<T>, AgentRouter> = GraphBuilder::new();
        let named = start.name("admin_setup_agent").description(
            "Guides administrators through WatsonX Orchestrate setup and configuration",
        );
        let n1 = named.add_node(AgentNode::Analyze(AnalyzeQueryNode::new("analyze")));
        assert(n1@.nodes =~= seq!["analyze"@]);
        let n2 = n1.add_node(
            AgentNode::AdminSearch(AdminSearchNode::new("search_docs", system_prompt.clone())),
        );
        assert(n2@.nodes =~= seq!["analyze"@, "search_docs"@]);
        let n3 = n2.add_node(
            AgentNode::AdminResponse(AdminResponseNode::new("respond", system_prompt)),
        );
        assert(n3@.nodes =~= seq!["analyze"@, "search_docs"@, "respond"@]);
        let n4 = n3.add_node(
            AgentNode::ExecuteTools(ExecuteToolsNode::new("execute_tools", tool_registry)),
        );
        assert(n4@.nodes =~= seq!["analyze"@, "search_docs"@, "respond"@, "execute_tools"@]);
        let e0 = n4.set_entry_point("analyze");
        let e1 = e0.add_edge("analyze", "search_docs");
        let e2 = e1.add_edge("search_docs", "respond");
        let e3 = e2.add_conditional_edge("respond", AgentRouter::ByTools);
        let e4 = e3.add_edge("execute_tools", "respond");
        assert(e4@.edges =~= admin_plan().edges);
        assert(e4@ == admin_plan());
        let r = e4.compile();
        proof {
            if r is Ok {
                let edges = r->Ok_0.edges();
                reveal_with_fuel(edge_index_from, 6);
                assert(edges[0] == e1.edges@[0]);
                assert(edges[0].shape() == admin_plan().edges[0]);
                assert(edges[1] == e2.edges@[1]);
                assert(edges[1].shape() == admin_plan().edges[1]);
                assert(edges[2] == e3.edges@[2]);
                assert(edges[2].shape() == admin_plan().edges[2]);
                assert(edges[3] == e4.edges@[3]);
                assert(edges[3].shape() == admin_plan().edges[3]);
                assert(edge_index_from(edges, "analyze"@, true, 0) == 4);
                assert(edge_index_from(edges, "analyze"@, false, 0) == 0);
                assert(edge_index_from(edges, "search_docs"@, true, 0) == 4);
                assert(edge_index_from(edges, "search_docs"@, false, 0) == 1);
                assert(edge_index_from(edges, "respond"@, true, 0) == 2);
                assert(edge_index_from(edges, "execute_tools"@, true, 0) == 4);
                assert(edge_index_from(edges, "execute_tools"@, false, 0) == 3);
            }
        }
        r
    }
}

/// The node that searches the documentation for administrators.
pub struct AdminSearchNode {
    pub id: String,
    pub system_prompt: String,
}

impl AdminSearchNode {
    /// A node with the name `id`.
    pub fn new(id: &str, system_prompt: String) -> (r: AdminSearchNode)
        ensures
            r.id@ == id@,
            r.system_prompt == system_prompt,
    {
        AdminSearchNode { id: id.to_string(), system_prompt }
    }
}

/// Queues a search of the administration documentation for the stored
/// query. Nothing is queued where no query is stored.
pub fn search_admin_docs(state: &mut WxorcaState)
    ensures
        search_step(
            old(state)@,
            "search_wxo_docs"@,
            search_arguments(stored_query(old(state)@), "admin"@),
            final(state)@,
        ),
{
    let query = original_query(state);
    if query.as_str().is_empty() {
        return ;
    }
    queue_docs_search(state, query.as_str(), "admin");
}

impl Node for AdminSearchNode {
    open spec fn name(&self) -> Seq<char> {
        self.id@
    }

    fn id(&self) -> (r: &str) {
        self.id.as_str()
    }

    fn description(&self) -> (r: Option<&str>)
        ensures
            r matches Some(d) && d@ == "Searches documentation with admin-focused context"@,
    {
        Some("Searches documentation with admin-focused context")
    }

    fn execute(&self, state: &mut WxorcaState) -> (r: Signal)
        ensures
            r is Continue,
            search_step(
                old(state)@,
                "search_wxo_docs"@,
                search_arguments(stored_query(old(state)@), "admin"@),
                final(state)@,
            ),
    {
        search_admin_docs(state);
        Signal::Continue
    }
}

/// The node that writes the response for administrators.
pub struct AdminResponseNode {
    pub id: String,
    pub system_prompt: String,
}

impl AdminResponseNode {
    /// A node with the name `id`.
    pub fn new(id: &str, system_prompt: String) -> (r: AdminResponseNode)
        ensures
            r.id@ == id@,
            r.system_prompt == system_prompt,
    {
        AdminResponseNode { id: id.to_string(), system_prompt }
    }
}

/// The guide to setup and installation.
pub const ADMIN_SETUP_GUIDE: &'static str =
    "## WatsonX Orchestrate Setup Guide\n\nHere's how to set up WatsonX Orchestrate:\n\n1. **Access the Admin Console**: Navigate to your WXO instance and log in with admin credentials.\n\n2. **Configure Identity Provider**: Set up SSO or local authentication under Settings > Security.\n\n3. **Create User Groups**: Define roles and permissions in Settings > Users & Teams.\n\n4. **Set Up Integrations**: Connect external services in Settings > Integrations.\n\n";

/// The guide to users and permissions.
pub const ADMIN_USER_GUIDE: &'static str =
    "## User Management\n\nTo manage users in WatsonX Orchestrate:\n\n1. Go to **Settings > Users & Teams**\n2. Click **Add User** to invite new users\n3. Assign appropriate roles (Admin, Developer, User)\n4. Configure team memberships for collaboration\n\n**Tip**: Use groups to manage permissions at scale.\n";

/// The guide to security and authentication.
pub const ADMIN_SECURITY_GUIDE: &'static str =
    "## Security Configuration\n\nSecurity best practices for WatsonX Orchestrate:\n\n- Enable **Multi-Factor Authentication** (MFA) for all admin accounts\n- Configure **Session Timeouts** appropriately\n- Set up **Audit Logging** to track changes\n- Review **API Key** permissions regularly\n- Use **Least Privilege** principle for user roles\n";

/// The guide to integrations.
pub const ADMIN_INTEGRATION_GUIDE: &'static str =
    "## Integration Setup\n\nTo configure integrations:\n\n1. Navigate to **Settings > Integrations**\n2. Select the integration type (Salesforce, ServiceNow, etc.)\n3. Provide the required credentials\n4. Configure sync settings and permissions\n5. Test the connection before enabling\n";

/// What the guide can help with, for a query on nothing in particular.
pub const ADMIN_OVERVIEW: &'static str =
    "I'm here to help you with WatsonX Orchestrate administration.\n\nI can assist with:\n- Initial setup and configuration\n- User and team management\n- Security settings\n- Integration configuration\n- API key management\n\nWhat would you like help with?";

/// The note that documentation was found.
pub const ADMIN_DOCS_NOTE: &'static str =
    "\n\n---\n\n**\u{1f4da} Related Documentation:**\nI found some relevant documentation that might help. Check the search results above for more details.";

/// The guide for a lowercase query. The first rule that applies decides.
pub open spec fn admin_guide(q: Seq<char>) -> Seq<char> {
    if says(q, "setup"@) || says(q, "install"@) {
        ADMIN_SETUP_GUIDE@
    } else if says(q, "user"@) || says(q, "permission"@) {
        ADMIN_USER_GUIDE@
    } else if says(q, "security"@) || says(q, "authentication"@) {
        ADMIN_SECURITY_GUIDE@
    } else if says(q, "integration"@) {
        ADMIN_INTEGRATION_GUIDE@
    } else {
        ADMIN_OVERVIEW@
    }
}

/// The response to a query: the guide for the query and, where the tools
/// have found anything, a note that says so.
pub open spec fn admin_response(query: Seq<char>, has_docs: bool) -> Seq<char> {
    if has_docs {
        admin_guide(lowered(query)) + ADMIN_DOCS_NOTE@
    } else {
        admin_guide(lowered(query))
    }
}

/// Writes the response to an administrator's query.
pub fn generate_admin_response(query: &str, tool_results: &Vec<String>, _system_prompt: &str) -> (r:
    String)
    ensures
        r@ == admin_response(query@, tool_results@.len() > 0),
{
    let lower = to_lowercase(query);
    let q = lower.as_str();
    let guide = if contains(q, "setup") || contains(q, "install") {
        ADMIN_SETUP_GUIDE
    } else if contains(q, "user") || contains(q, "permission") {
        ADMIN_USER_GUIDE
    } else if contains(q, "security") || contains(q, "authentication") {
        ADMIN_SECURITY_GUIDE
    } else if contains(q, "integration") {
        ADMIN_INTEGRATION_GUIDE
    } else {
        ADMIN_OVERVIEW
    };
    if tool_results.len() > 0 {
        join2(guide, ADMIN_DOCS_NOTE)
    } else {
        guide.to_string()
    }
}

/// The response that the state calls for.
pub open spec fn admin_reply(s: StateView) -> Seq<char> {
    admin_response(stored_query(s), tool_outputs(s).len() > 0)
}

/// Writes the response, unless tool calls are pending.
pub fn respond_admin(state: &mut WxorcaState, system_prompt: &str)
    ensures
        response_step(old(state)@, admin_reply(old(state)@), final(state)@),
{
    if state.has_pending_tool_calls() {
        return ;
    }
    let query = original_query(state);
    let results = tool_results(state);
    let response = generate_admin_response(query.as_str(), &results, system_prompt);
    give_response(state, response.as_str());
}

impl Node for AdminResponseNode {
    open spec fn name(&self) -> Seq<char> {
        self.id@
    }

    fn id(&self) -> (r: &str) {
        self.id.as_str()
    }

    fn description(&self) -> (r: Option<&str>)
        ensures
            r matches Some(d) && d@ == "Generates admin-focused responses"@,
    {
        Some("Generates admin-focused responses")
    }

    fn execute(&self, state: &mut WxorcaState) -> (r: Signal)
        ensures
            r is Finish,
            response_step(old(state)@, admin_reply(old(state)@), final(state)@),
    {
        respond_admin(state, self.system_prompt.as_str());
        Signal::Finish
    }
}

} // verus!
