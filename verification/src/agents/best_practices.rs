//! The best practices coach: gives optimization tips and best practices.

use vstd::prelude::*;
use crate::agents::{
    best_practices_graph, conditional, direct, example_arguments, give_response,
    lemma_node_names_differ, original_query, queue_call, response_step, says, search_step,
    stored_query, AgentGraph, AgentNode, AgentRouter, AnalyzeQueryNode, ExecuteToolsNode,
};
use crate::graph::{edge_index_from, sources, BuildError, GraphBuilder, GraphPlan, Node, Signal};
use crate::json::{Json, JsonView};
use crate::state::{AgentType, StateView, WxorcaState};
use crate::text::{
    contains, join2, join3, lowered, position_from, same_text, spaced, to_lowercase, to_uppercase,
    underscores_to_spaces, uppered,
};
use crate::tools::{Tool, ToolRegistry};
use vstd::string::StringExecFns;

verus! {

/// The agent that gives best practices guidance.
pub struct BestPracticesAgent;

/// The plan of the agent's graph: analyse, assess, search, respond, and back
/// to the response after the tools have run.
pub open spec fn best_practices_plan() -> GraphPlan {
    GraphPlan {
        nodes: seq!["analyze"@, "assess"@, "search_docs"@, "respond"@, "execute_tools"@],
        edges: seq![
            direct("analyze"@, "assess"@),
            direct("assess"@, "search_docs"@),
            direct("search_docs"@, "respond"@),
            conditional("respond"@),
            direct("execute_tools"@, "respond"@),
        ],
        entry: Some("analyze"@),
    }
}

/// The plan of the agent's graph can be built.
pub proof fn lemma_best_practices_plan_valid()
    ensures
        best_practices_plan().valid(),
{
    lemma_node_names_differ();
    reveal_with_fuel(position_from, 6);
    reveal_with_fuel(GraphPlan::first_edge_violation, 6);
    let p = best_practices_plan();
    assert(
        sources(p.edges) =~= seq![
            "analyze"@,
            "assess"@,
            "search_docs"@,
            "respond"@,
            "execute_tools"@,
        ]
    );
    assert(p.edge_violation(0) is None);
    assert(p.edge_violation(1) is None);
    assert(p.edge_violation(2) is None);
    assert(p.edge_violation(3) is None);
    assert(p.edge_violation(4) is None);
}

impl BestPracticesAgent {
    /// Builds the agent's graph around the given tools. The build does not
    /// fail.
    pub fn build_graph<T: Tool>(tool_registry: ToolRegistry<T>) -> (r: Result<
        AgentGraph<T>,
        BuildError,
    >)
        ensures
            r matches Ok(g) && best_practices_graph(g, tool_registry),
    {
        let system_prompt = AgentType::BestPractices.system_prompt().to_string();
        proof {
            lemma_node_names_differ();
            lemma_best_practices_plan_valid();
            reveal_with_fuel(position_from, 6);
        }
        let start: GraphBuilder<AgentNode<T>, AgentRouter> = GraphBuilder::new();
        let named = start.name("best_practices_agent").description(
            "Provides optimization tips and best practices",
        );
        let n1 = named.add_node(AgentNode::Analyze(AnalyzeQueryNode::new("analyze")));
        assert(n1@.nodes =~= seq!["analyze"@]);
        let n2 = n1.add_node(AgentNode::Assessment(AssessmentNode::new("assess")));
        assert(n2@.nodes =~= seq!["analyze"@, "assess"@]);
        let n3 = n2.add_node(AgentNode::BestPracticesSearch(
            BestPracticesSearchNode::new("search_docs", system_prompt.clone()),
        ));
        assert(n3@.nodes =~= seq!["analyze"@, "assess"@, "search_docs"@]);
        let n4 = n3.add_node(AgentNode::BestPracticesResponse(
            BestPracticesResponseNode::new("respond", system_prompt),
        ));
        assert(n4@.nodes =~= seq!["analyze"@, "assess"@, "search_docs"@, "respond"@]);
        let n5 = n4.add_node(
            AgentNode::ExecuteTools(ExecuteToolsNode::new("execute_tools", tool_registry)),
        );
        assert(
            n5@.nodes =~= seq!["analyze"@, "assess"@, "search_docs"@, "respond"@, "execute_tools"@]
        );
        let e0 = n5.set_entry_point("analyze");
        let e1 = e0.add_edge("analyze", "assess");
        let e2 = e1.add_edge("assess", "search_docs");
        let e3 = e2.add_edge("search_docs", "respond");
        let e4 = e3.add_conditional_edge("respond", AgentRouter::ByTools);
        let e5 = e4.add_edge("execute_tools", "respond");
        assert(e5@.edges =~= best_practices_plan().edges);
        assert(e5@ == best_practices_plan());
        let r = e5.compile();
        proof {
            if r is Ok {
                let edges = r->Ok_0.edges();
                reveal_with_fuel(edge_index_from, 6);
                assert(edges[0] == e1.edges@[0]);
                assert(edges[0].shape() == best_practices_plan().edges[0]);
                assert(edges[1] == e2.edges@[1]);
                assert(edges[1].shape() == best_practices_plan().edges[1]);
                assert(edges[2] == e3.edges@[2]);
                assert(edges[2].shape() == best_practices_plan().edges[2]);
                assert(edges[3] == e4.edges@[3]);
                assert(edges[3].shape() == best_practices_plan().edges[3]);
                assert(edges[4] == e5.edges@[4]);
                assert(edges[4].shape() == best_practices_plan().edges[4]);
                assert(edge_index_from(edges, "analyze"@, true, 0) == 5);
                assert(edge_index_from(edges, "analyze"@, false, 0) == 0);
                assert(edge_index_from(edges, "assess"@, true, 0) == 5);
                assert(edge_index_from(edges, "assess"@, false, 0) == 1);
                assert(edge_index_from(edges, "search_docs"@, true, 0) == 5);
                assert(edge_index_from(edges, "search_docs"@, false, 0) == 2);
                assert(edge_index_from(edges, "respond"@, true, 0) == 3);
                assert(edge_index_from(edges, "execute_tools"@, true, 0) == 5);
                assert(edge_index_from(edges, "execute_tools"@, false, 0) == 4);
            }
        }
        r
    }
}

/// The topic of a lowercase query. The first rule that applies decides.
pub open spec fn topic_of(q: Seq<char>) -> Seq<char> {
    if says(q, "workflow"@) || says(q, "automation"@) {
        "workflow_design"@
    } else if says(q, "performance"@) || says(q, "speed"@) {
        "performance"@
    } else if says(q, "security"@) || says(q, "permission"@) {
        "security"@
    } else if says(q, "skill"@) || says(q, "catalog"@) {
        "skill_design"@
    } else if says(q, "team"@) || says(q, "collaborate"@) {
        "collaboration"@
    } else if says(q, "error"@) || says(q, "handle"@) {
        "error_handling"@
    } else if says(q, "test"@) || says(q, "deploy"@) {
        "deployment"@
    } else {
        "general"@
    }
}

/// The best practices topic of a query, by its keywords and letter case
/// aside.
pub fn identify_best_practices_topic(query: &str) -> (r: &'static str)
    ensures
        r@ == topic_of(lowered(query@)),
{
    let lower = to_lowercase(query);
    let q = lower.as_str();
    if contains(q, "workflow") || contains(q, "automation") {
        "workflow_design"
    } else if contains(q, "performance") || contains(q, "speed") {
        "performance"
    } else if contains(q, "security") || contains(q, "permission") {
        "security"
    } else if contains(q, "skill") || contains(q, "catalog") {
        "skill_design"
    } else if contains(q, "team") || contains(q, "collaborate") {
        "collaboration"
    } else if contains(q, "error") || contains(q, "handle") {
        "error_handling"
    } else if contains(q, "test") || contains(q, "deploy") {
        "deployment"
    } else {
        "general"
    }
}

/// The node that finds the topic of the user's question.
pub struct AssessmentNode {
    pub id: String,
}

impl AssessmentNode {
    /// A node with the name `id`.
    pub fn new(id: &str) -> (r: AssessmentNode)
        ensures
            r.id@ == id@,
    {
        AssessmentNode { id: id.to_string() }
    }
}

/// Stores the topic of the stored query.
pub fn assess(state: &mut WxorcaState)
    ensures
        final(state)@ == old(state)@.with_metadata(
            "bp_topic"@,
            JsonView::Text(topic_of(lowered(stored_query(old(state)@)))),
            final(state)@.updated_at,
        ),
{
    let query = original_query(state);
    let topic = identify_best_practices_topic(query.as_str());
    state.set_metadata("bp_topic", Json::text(topic));
}

impl Node for AssessmentNode {
    open spec fn name(&self) -> Seq<char> {
        self.id@
    }

    fn id(&self) -> (r: &str) {
        self.id.as_str()
    }

    fn description(&self) -> (r: Option<&str>)
        ensures
            r matches Some(d) && d@ == "Assesses the user's needs for best practices guidance"@,
    {
        Some("Assesses the user's needs for best practices guidance")
    }

    fn execute(&self, state: &mut WxorcaState) -> (r: Signal)
        ensures
            r is Continue,
            final(state)@ == old(state)@.with_metadata(
                "bp_topic"@,
                JsonView::Text(topic_of(lowered(stored_query(old(state)@)))),
                final(state)@.updated_at,
            ),
    {
        assess(state);
        Signal::Continue
    }
}

/// The node that asks for best practices examples.
pub struct BestPracticesSearchNode {
    pub id: String,
    pub system_prompt: String,
}

impl BestPracticesSearchNode {
    /// A node with the name `id`.
    pub fn new(id: &str, system_prompt: String) -> (r: BestPracticesSearchNode)
        ensures
            r.id@ == id@,
            r.system_prompt == system_prompt,
    {
        BestPracticesSearchNode { id: id.to_string(), system_prompt }
    }
}

/// The topic that the assessment stored, or `general`.
pub open spec fn stored_topic(s: StateView) -> Seq<char> {
    s.text_or("bp_topic"@, "general"@)
}

/// The topic that examples are asked for.
pub open spec fn practices_topic(topic: Seq<char>) -> Seq<char> {
    spaced(topic) + " best practices"@
}

/// Queues a search for examples of the stored topic's best practices.
/// Nothing is queued where no query is stored.
pub fn search_best_practices(state: &mut WxorcaState)
    ensures
        search_step(
            old(state)@,
            "fetch_wxo_examples"@,
            example_arguments(practices_topic(stored_topic(old(state)@))),
            final(state)@,
        ),
{
    let query = original_query(state);
    let topic = state.metadata_text_or("bp_topic", "general");
    if query.as_str().is_empty() {
        return ;
    }
    let wanted = join2(underscores_to_spaces(topic.as_str()).as_str(), " best practices");
    let arguments = Json::object2("topic", Json::text(wanted.as_str()), "limit", Json::Int(3));
    queue_call(state, "fetch_wxo_examples", arguments);
}

impl Node for BestPracticesSearchNode {
    open spec fn name(&self) -> Seq<char> {
        self.id@
    }

    fn id(&self) -> (r: &str) {
        self.id.as_str()
    }

    fn description(&self) -> (r: Option<&str>)
        ensures
            r matches Some(d) && d@ == "Searches for relevant best practices documentation"@,
    {
        Some("Searches for relevant best practices documentation")
    }

    fn execute(&self, state: &mut WxorcaState) -> (r: Signal)
        ensures
            r is Continue,
            search_step(
                old(state)@,
                "fetch_wxo_examples"@,
                example_arguments(practices_topic(stored_topic(old(state)@))),
                final(state)@,
            ),
    {
        search_best_practices(state);
        Signal::Continue
    }
}

/// The node that writes the recommendations.
pub struct BestPracticesResponseNode {
    pub id: String,
    pub system_prompt: String,
}

impl BestPracticesResponseNode {
    /// A node with the name `id`.
    pub fn new(id: &str, system_prompt: String) -> (r: BestPracticesResponseNode)
        ensures
            r.id@ == id@,
            r.system_prompt == system_prompt,
    {
        BestPracticesResponseNode { id: id.to_string(), system_prompt }
    }
}

/// The start of the heading, before the topic.
pub const BP_HEADING: &'static str =
    "## \u{f0}\u{178}\u{2020} Best Practices: ";

/// The practices of workflow design.
pub const BP_WORKFLOW_DESIGN: &'static str =
    "### Workflow Design Principles\n\n**1. Keep it Modular**\n- Break complex workflows into reusable sub-workflows\n- Each workflow should do one thing well\n- Use consistent naming conventions\n\n**2. Plan for Failure**\n- Add error handling at each critical step\n- Use retries with exponential backoff\n- Log failures for debugging\n\n**3. Document Everything**\n- Add descriptions to workflows and steps\n- Document expected inputs and outputs\n- Maintain a changelog\n\n**4. Test Thoroughly**\n- Test with edge cases\n- Use staging environments\n- Validate before production deployment\n";

/// The practices of performance.
pub const BP_PERFORMANCE: &'static str =
    "### Performance Optimization\n\n**1. Minimize External Calls**\n- Batch operations when possible\n- Cache frequently accessed data\n- Use efficient queries\n\n**2. Optimize Workflow Design**\n- Run independent steps in parallel\n- Avoid unnecessary data transformations\n- Set appropriate timeouts\n\n**3. Monitor and Measure**\n- Track execution times\n- Identify bottlenecks\n- Set up alerts for slow operations\n\n**4. Resource Management**\n- Be mindful of API rate limits\n- Schedule heavy operations off-peak\n- Clean up unused resources\n";

/// The practices of security.
pub const BP_SECURITY: &'static str =
    "### Security Best Practices\n\n**1. Access Control**\n- Follow the principle of least privilege\n- Review permissions regularly\n- Use role-based access control (RBAC)\n\n**2. Credential Management**\n- Never hardcode credentials\n- Use secure secret storage\n- Rotate credentials regularly\n\n**3. Data Protection**\n- Encrypt sensitive data in transit and at rest\n- Minimize data retention\n- Audit data access\n\n**4. Monitoring & Compliance**\n- Enable audit logging\n- Set up security alerts\n- Conduct regular security reviews\n";

/// The practices of skill design.
pub const BP_SKILL_DESIGN: &'static str =
    "### Skill Design Best Practices\n\n**1. Clear Interface**\n- Define explicit input/output schemas\n- Use descriptive parameter names\n- Provide helpful descriptions\n\n**2. Validation**\n- Validate inputs early\n- Return clear error messages\n- Handle edge cases gracefully\n\n**3. Discoverability**\n- Use meaningful skill names\n- Add relevant tags\n- Include usage examples\n\n**4. Maintainability**\n- Version your skills\n- Plan for backward compatibility\n- Document changes\n";

/// The practices of error handling.
pub const BP_ERROR_HANDLING: &'static str =
    "### Error Handling Best Practices\n\n**1. Anticipate Failures**\n- External services can fail\n- Data may be invalid\n- Networks can be unreliable\n\n**2. Handle Gracefully**\n- Catch specific exceptions\n- Provide meaningful error messages\n- Offer recovery options when possible\n\n**3. Retry Strategy**\n- Use exponential backoff\n- Set maximum retry limits\n- Know when to give up\n\n**4. Logging & Alerting**\n- Log errors with context\n- Set up alerts for critical failures\n- Track error patterns\n";

/// The practices of deployment.
pub const BP_DEPLOYMENT: &'static str =
    "### Deployment Best Practices\n\n**1. Environment Strategy**\n- Use separate dev/staging/prod environments\n- Test in staging first\n- Use consistent configurations\n\n**2. Testing**\n- Write automated tests\n- Test with realistic data\n- Perform load testing\n\n**3. Rollout Strategy**\n- Use gradual rollouts\n- Monitor after deployment\n- Have a rollback plan\n\n**4. Documentation**\n- Document deployment steps\n- Maintain runbooks\n- Keep change logs\n";

/// The practices of collaboration.
pub const BP_COLLABORATION: &'static str =
    "### Team Collaboration Best Practices\n\n**1. Organization**\n- Use consistent naming conventions\n- Organize skills and workflows logically\n- Use tags for easy discovery\n\n**2. Sharing**\n- Share reusable components\n- Document shared resources\n- Set appropriate permissions\n\n**3. Communication**\n- Document changes clearly\n- Notify teams of updates\n- Establish review processes\n\n**4. Standards**\n- Define coding standards\n- Create templates\n- Review and improve regularly\n";

/// The practices for a topic of no kind in particular.
pub const BP_GENERAL: &'static str =
    "### General Best Practices\n\n**Start Simple**\n- Begin with basic implementations\n- Add complexity as needed\n- Iterate based on feedback\n\n**Document Everything**\n- Write clear descriptions\n- Maintain up-to-date documentation\n- Include examples\n\n**Test Thoroughly**\n- Test before deploying\n- Use realistic scenarios\n- Monitor in production\n\nWhat specific area would you like guidance on?\n- Workflow design\n- Performance optimization\n- Security\n- Skill development\n";

/// The closing line.
pub const BP_CLOSING: &'static str =
    "\n\n---\n\n**\u{f0}\u{178}\u{2019}\u{a1} Need more specific advice?** Tell me about your use case and I can provide tailored recommendations.";

/// The practices for a topic.
pub open spec fn practices_for(topic: Seq<char>) -> Seq<char> {
    if topic == "workflow_design"@ {
        BP_WORKFLOW_DESIGN@
    } else if topic == "performance"@ {
        BP_PERFORMANCE@
    } else if topic == "security"@ {
        BP_SECURITY@
    } else if topic == "skill_design"@ {
        BP_SKILL_DESIGN@
    } else if topic == "error_handling"@ {
        BP_ERROR_HANDLING@
    } else if topic == "deployment"@ {
        BP_DEPLOYMENT@
    } else if topic == "collaboration"@ {
        BP_COLLABORATION@
    } else {
        BP_GENERAL@
    }
}

/// The recommendations for a topic: a heading with the topic in capital
/// letters, the practices for the topic, and a closing line.
pub open spec fn best_practices_response(topic: Seq<char>) -> Seq<char> {
    BP_HEADING@ + uppered(spaced(topic)) + "\n\n"@ + practices_for(topic) + BP_CLOSING@
}

/// Writes the recommendations for a topic.
pub fn generate_best_practices_response(_query: &str, topic: &str, _system_prompt: &str) -> (r:
    String)
    ensures
        r@ == best_practices_response(topic@),
{
    let title = to_uppercase(underscores_to_spaces(topic).as_str());
    let mut response = join3(BP_HEADING, title.as_str(), "\n\n");
    let practices = if same_text(topic, "workflow_design") {
        BP_WORKFLOW_DESIGN
    } else if same_text(topic, "performance") {
        BP_PERFORMANCE
    } else if same_text(topic, "security") {
        BP_SECURITY
    } else if same_text(topic, "skill_design") {
        BP_SKILL_DESIGN
    } else if same_text(topic, "error_handling") {
        BP_ERROR_HANDLING
    } else if same_text(topic, "deployment") {
        BP_DEPLOYMENT
    } else if same_text(topic, "collaboration") {
        BP_COLLABORATION
    } else {
        BP_GENERAL
    };
    response.append(practices);
    response.append(BP_CLOSING);
    response
}

/// The response that the state calls for.
pub open spec fn best_practices_reply(s: StateView) -> Seq<char> {
    best_practices_response(stored_topic(s))
}

/// Writes the recommendations, unless tool calls are pending.
pub fn respond_best_practices(state: &mut WxorcaState, system_prompt: &str)
    ensures
        response_step(old(state)@, best_practices_reply(old(state)@), final(state)@),
{
    if state.has_pending_tool_calls() {
        return ;
    }
    let query = original_query(state);
    let topic = state.metadata_text_or("bp_topic", "general");
    let response = generate_best_practices_response(
        query.as_str(),
        topic.as_str(),
        system_prompt,
    );
    give_response(state, response.as_str());
}

impl Node for BestPracticesResponseNode {
    open spec fn name(&self) -> Seq<char> {
        self.id@
    }

    fn id(&self) -> (r: &str) {
        self.id.as_str()
    }

    fn description(&self) -> (r: Option<&str>)
        ensures
            r matches Some(d) && d@ == "Generates best practices recommendations"@,
    {
        Some("Generates best practices recommendations")
    }

    fn execute(&self, state: &mut WxorcaState) -> (r: Signal)
        ensures
            r is Finish,
            response_step(old(state)@, best_practices_reply(old(state)@), final(state)@),
    {
        respond_best_practices(state, self.system_prompt.as_str());
        Signal::Finish
    }
}

} // verus!
