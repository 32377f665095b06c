//! The troubleshooting bot: diagnoses an issue from its description and
//! writes the steps to resolve it.

use vstd::prelude::*;
use crate::agents::{
    conditional, direct, give_response, lemma_node_names_differ, original_query, queue_docs_search,
    response_step, says, search_arguments, search_step, stored_query, troubleshoot_graph,
    AgentGraph, AgentNode, AgentRouter, AnalyzeQueryNode, ExecuteToolsNode,
};
use crate::graph::{edge_index_from, sources, BuildError, GraphBuilder, GraphPlan, Node, Signal};
use crate::json::{lemma_text_list_items, text_list, Json, JsonView};
use crate::state::{AgentType, StateView, WxorcaState};
use crate::text::{
    contains, decimal, decimal_string, join3, lowered, position_from, same_text, texts,
    to_lowercase, to_uppercase, uppered,
};
use crate::tools::{Tool, ToolRegistry};
use vstd::string::StringExecFns;

verus! {

/// The agent that troubleshoots issues.
pub struct TroubleshootAgent;

/// The plan of the agent's graph: analyse, diagnose, search, respond, and back
/// to the response after the tools have run.
pub open spec fn troubleshoot_plan() -> GraphPlan {
    GraphPlan {
        nodes: seq!["analyze"@, "diagnose"@, "search_docs"@, "respond"@, "execute_tools"@],
        edges: seq![
            direct("analyze"@, "diagnose"@),
            direct("diagnose"@, "search_docs"@),
            direct("search_docs"@, "respond"@),
            conditional("respond"@),
            direct("execute_tools"@, "respond"@),
        ],
        entry: Some("analyze"@),
    }
}

/// The plan of the agent's graph can be built.
pub proof fn lemma_troubleshoot_plan_valid()
    ensures
        troubleshoot_plan().valid(),
{
    lemma_node_names_differ();
    reveal_with_fuel(position_from, 6);
    reveal_with_fuel(GraphPlan::first_edge_violation, 6);
    let p = troubleshoot_plan();
    assert(
        sources(p.edges) =~= seq![
            "analyze"@,
            "diagnose"@,
            "search_docs"@,
            "respond"@,
            "execute_tools"@,
        ]
    );
    assert(p.edge_violation(0) is None);
    assert(p.edge_violation(1) is None);
    assert(p.edge_violation(2) is None);
    assert(p.edge_violation(3) is None);
    assert(p.edge_violation(4) is None);
}

impl TroubleshootAgent {
    /// Builds the agent's graph around the given tools. The build does not
    /// fail.
    pub fn build_graph<T: Tool>(tool_registry: ToolRegistry<T>) -> (r: Result<
        AgentGraph<T>,
        BuildError,
    >)
        ensures
            r matches Ok(g) && troubleshoot_graph(g, tool_registry),
    {
        let system_prompt = AgentType::Troubleshoot.system_prompt().to_string();
        proof {
            lemma_node_names_differ();
            lemma_troubleshoot_plan_valid();
            reveal_with_fuel(position_from, 6);
        }
        let start: GraphBuilder<AgentNode<T>, AgentRouter> = GraphBuilder::new();
        let named = start.name("troubleshoot_agent").description(
            "Diagnoses and resolves WatsonX Orchestrate issues",
        );
        let n1 = named.add_node(AgentNode::Analyze(AnalyzeQueryNode::new("analyze")));
        assert(n1@.nodes =~= seq!["analyze"@]);
        let n2 = n1.add_node(AgentNode::Diagnose(DiagnoseNode::new("diagnose")));
        assert(n2@.nodes =~= seq!["analyze"@, "diagnose"@]);
        let n3 = n2.add_node(AgentNode::TroubleshootSearch(
            TroubleshootSearchNode::new("search_docs", system_prompt.clone()),
        ));
        assert(n3@.nodes =~= seq!["analyze"@, "diagnose"@, "search_docs"@]);
        let n4 = n3.add_node(
            AgentNode::TroubleshootResponse(TroubleshootResponseNode::new("respond", system_prompt)),
        );
        assert(n4@.nodes =~= seq!["analyze"@, "diagnose"@, "search_docs"@, "respond"@]);
        let n5 = n4.add_node(
            AgentNode::ExecuteTools(ExecuteToolsNode::new("execute_tools", tool_registry)),
        );
        assert(
            n5@.nodes =~= seq![
                "analyze"@,
                "diagnose"@,
                "search_docs"@,
                "respond"@,
                "execute_tools"@,
            ]
        );
        let e0 = n5.set_entry_point("analyze");
        let e1 = e0.add_edge("analyze", "diagnose");
        let e2 = e1.add_edge("diagnose", "search_docs");
        let e3 = e2.add_edge("search_docs", "respond");
        let e4 = e3.add_conditional_edge("respond", AgentRouter::ByTools);
        let e5 = e4.add_edge("execute_tools", "respond");
        assert(e5@.edges =~= troubleshoot_plan().edges);
        assert(e5@ == troubleshoot_plan());
        let r = e5.compile();
        proof {
            if r is Ok {
                let edges = r->Ok_0.edges();
                reveal_with_fuel(edge_index_from, 6);
                assert(edges[0] == e1.edges@[0]);
                assert(edges[0].shape() == troubleshoot_plan().edges[0]);
                assert(edges[1] == e2.edges@[1]);
                assert(edges[1].shape() == troubleshoot_plan().edges[1]);
                assert(edges[2] == e3.edges@[2]);
                assert(edges[2].shape() == troubleshoot_plan().edges[2]);
                assert(edges[3] == e4.edges@[3]);
                assert(edges[3].shape() == troubleshoot_plan().edges[3]);
                assert(edges[4] == e5.edges@[4]);
                assert(edges[4].shape() == troubleshoot_plan().edges[4]);
                assert(edge_index_from(edges, "analyze"@, true, 0) == 5);
                assert(edge_index_from(edges, "analyze"@, false, 0) == 0);
                assert(edge_index_from(edges, "diagnose"@, true, 0) == 5);
                assert(edge_index_from(edges, "diagnose"@, false, 0) == 1);
                assert(edge_index_from(edges, "search_docs"@, true, 0) == 5);
                assert(edge_index_from(edges, "search_docs"@, false, 0) == 2);
                assert(edge_index_from(edges, "respond"@, true, 0) == 3);
                assert(edge_index_from(edges, "execute_tools"@, true, 0) == 5);
                assert(edge_index_from(edges, "execute_tools"@, false, 0) == 4);
            }
        }
        r
    }
}

/// What an issue is likely to be.
#[derive(Debug)]
pub struct Diagnosis {
    pub category: String,
    pub severity: String,
    pub likely_causes: Vec<String>,
    pub suggested_checks: Vec<String>,
}

/// The mathematical value of a [`Diagnosis`].
pub struct DiagnosisView {
    pub category: Seq<char>,
    pub severity: Seq<char>,
    pub likely_causes: Seq<Seq<char>>,
    pub suggested_checks: Seq<Seq<char>>,
}

impl View for Diagnosis {
    type V = DiagnosisView;

    open spec fn view(&self) -> DiagnosisView {
        DiagnosisView {
            category: self.category@,
            severity: self.severity@,
            likely_causes: texts(self.likely_causes@),
            suggested_checks: texts(self.suggested_checks@),
        }
    }
}

/// The diagnosis for a lowercase description. The first rule that applies
/// decides.
pub open spec fn diagnosis_of(q: Seq<char>) -> DiagnosisView {
    if says(q, "authentication"@) || says(q, "login"@) || says(
        q,
        "access denied"@,
    ) || says(q, "401"@) {
        DiagnosisView {
            category: "authentication"@,
            severity: "high"@,
            likely_causes: seq![
                "Expired credentials or tokens"@,
                "Incorrect SSO configuration"@,
                "User permissions not set correctly"@,
                "API key revoked or expired"@,
            ],
            suggested_checks: seq![
                "Verify credentials are correct"@,
                "Check token expiration"@,
                "Review user permissions"@,
                "Test SSO configuration"@,
            ],
        }
    } else if says(q, "timeout"@) || says(q, "slow"@) || says(q, "performance"@) {
        DiagnosisView {
            category: "performance"@,
            severity: "medium"@,
            likely_causes: seq![
                "High system load"@,
                "Network latency"@,
                "Large data volumes"@,
                "Resource constraints"@,
            ],
            suggested_checks: seq![
                "Check system status page"@,
                "Monitor network connectivity"@,
                "Review workflow complexity"@,
                "Check concurrent user count"@,
            ],
        }
    } else if says(q, "integration"@) || says(q, "connection"@) || says(q, "api"@) {
        DiagnosisView {
            category: "integration"@,
            severity: "medium"@,
            likely_causes: seq![
                "External service unavailable"@,
                "Credentials expired"@,
                "API rate limit exceeded"@,
                "Configuration mismatch"@,
            ],
            suggested_checks: seq![
                "Verify external service status"@,
                "Check integration credentials"@,
                "Review API rate limits"@,
                "Test connection settings"@,
            ],
        }
    } else if says(q, "skill"@) || says(q, "workflow"@) || says(q, "failed"@) {
        DiagnosisView {
            category: "execution"@,
            severity: "medium"@,
            likely_causes: seq![
                "Invalid input data"@,
                "Missing required parameters"@,
                "Skill configuration error"@,
                "Dependency failure"@,
            ],
            suggested_checks: seq![
                "Review input data format"@,
                "Check required parameters"@,
                "Validate skill configuration"@,
                "Check execution logs"@,
            ],
        }
    } else {
        DiagnosisView {
            category: "general"@,
            severity: "low"@,
            likely_causes: seq!["Configuration issue"@, "User error"@, "Temporary system issue"@],
            suggested_checks: seq![
                "Describe the issue in more detail"@,
                "Check system status"@,
                "Review recent changes"@,
            ],
        }
    }
}

fn listed(a: &str, b: &str, c: &str, d: &str, n: usize) -> (r: Vec<String>)
    requires
        n == 3 || n == 4,
    ensures
        texts(r@) == if n == 3 {
            seq![a@, b@, c@]
        } else {
            seq![a@, b@, c@, d@]
        },
{
    let mut v: Vec<String> = Vec::new();
    v.push(a.to_string());
    v.push(b.to_string());
    v.push(c.to_string());
    if n == 4 {
        v.push(d.to_string());
        assert(texts(v@) =~= seq![a@, b@, c@, d@]);
    } else {
        assert(texts(v@) =~= seq![a@, b@, c@]);
    }
    v
}

fn diagnosis(category: &str, severity: &str, causes: Vec<String>, checks: Vec<String>) -> (r:
    Diagnosis)
    ensures
        r@ == (DiagnosisView {
            category: category@,
            severity: severity@,
            likely_causes: texts(causes@),
            suggested_checks: texts(checks@),
        }),
{
    Diagnosis {
        category: category.to_string(),
        severity: severity.to_string(),
        likely_causes: causes,
        suggested_checks: checks,
    }
}

/// Diagnoses an issue from its description, by its keywords and letter
/// case aside.
pub fn diagnose_issue(query: &str) -> (r: Diagnosis)
    ensures
        r@ == diagnosis_of(lowered(query@)),
{
    let lower = to_lowercase(query);
    let q = lower.as_str();
    if contains(q, "authentication") || contains(q, "login") || contains(q, "access denied") || contains(q, "401") {
        diagnosis(
            "authentication",
            "high",
            listed(
                "Expired credentials or tokens",
                "Incorrect SSO configuration",
                "User permissions not set correctly",
                "API key revoked or expired",
                4,
            ),
            listed(
                "Verify credentials are correct",
                "Check token expiration",
                "Review user permissions",
                "Test SSO configuration",
                4,
            ),
        )
    } else if contains(q, "timeout") || contains(q, "slow") || contains(q, "performance") {
        diagnosis(
            "performance",
            "medium",
            listed(
                "High system load",
                "Network latency",
                "Large data volumes",
                "Resource constraints",
                4,
            ),
            listed(
                "Check system status page",
                "Monitor network connectivity",
                "Review workflow complexity",
                "Check concurrent user count",
                4,
            ),
        )
    } else if contains(q, "integration") || contains(q, "connection") || contains(q, "api") {
        diagnosis(
            "integration",
            "medium",
            listed(
                "External service unavailable",
                "Credentials expired",
                "API rate limit exceeded",
                "Configuration mismatch",
                4,
            ),
            listed(
                "Verify external service status",
                "Check integration credentials",
                "Review API rate limits",
                "Test connection settings",
                4,
            ),
        )
    } else if contains(q, "skill") || contains(q, "workflow") || contains(q, "failed") {
        diagnosis(
            "execution",
            "medium",
            listed(
                "Invalid input data",
                "Missing required parameters",
                "Skill configuration error",
                "Dependency failure",
                4,
            ),
            listed(
                "Review input data format",
                "Check required parameters",
                "Validate skill configuration",
                "Check execution logs",
                4,
            ),
        )
    } else {
        diagnosis(
            "general",
            "low",
            listed("Configuration issue", "User error", "Temporary system issue", "", 3),
            listed(
                "Describe the issue in more detail",
                "Check system status",
                "Review recent changes",
                "",
                3,
            ),
        )
    }
}

/// A diagnosis as a JSON object.
pub open spec fn diagnosis_json(d: DiagnosisView) -> JsonView {
    JsonView::Object(
        seq![
            ("category"@, JsonView::Text(d.category)),
            ("severity"@, JsonView::Text(d.severity)),
            ("likely_causes"@, text_list(d.likely_causes)),
            ("suggested_checks"@, text_list(d.suggested_checks)),
        ],
    )
}

/// The list of strings under `key`.
pub open spec fn texts_at(j: JsonView, key: Seq<char>) -> Option<Seq<Seq<char>>> {
    match j.field(key) {
        Some(v) => v.text_items(),
        None => None,
    }
}

/// The diagnosis that a JSON value holds: nothing where a member is
/// missing or of the wrong kind.
pub open spec fn diagnosis_from(j: JsonView) -> Option<DiagnosisView> {
    if j.text_at("category"@) is Some && j.text_at("severity"@) is Some && texts_at(
        j,
        "likely_causes"@,
    ) is Some && texts_at(j, "suggested_checks"@) is Some {
        Some(
            DiagnosisView {
                category: j.text_at("category"@)->0,
                severity: j.text_at("severity"@)->0,
                likely_causes: texts_at(j, "likely_causes"@)->0,
                suggested_checks: texts_at(j, "suggested_checks"@)->0,
            },
        )
    } else {
        None
    }
}

fn read_texts(j: &Json, key: &str) -> (r: Option<Vec<String>>)
    ensures
        match r {
            Some(v) => texts_at(j@, key@) == Some(texts(v@)),
            None => texts_at(j@, key@) is None,
        },
{
    match j.get(key) {
        Some(v) => v.as_texts(),
        None => None,
    }
}

impl Diagnosis {
    /// The diagnosis as a JSON object.
    pub fn to_json(&self) -> (r: Json)
        ensures
            r@ == diagnosis_json(self@),
    {
        Json::object4(
            "category",
            Json::text(self.category.as_str()),
            "severity",
            Json::text(self.severity.as_str()),
            "likely_causes",
            Json::texts(&self.likely_causes),
            "suggested_checks",
            Json::texts(&self.suggested_checks),
        )
    }

    /// Reads a diagnosis from a JSON value.
    pub fn from_json(j: &Json) -> (r: Option<Diagnosis>)
        ensures
            match r {
                Some(d) => diagnosis_from(j@) == Some(d@),
                None => diagnosis_from(j@) is None,
            },
    {
        let category = match j.text_at("category") {
            Some(c) => c,
            None => {
                return None;
            },
        };
        let severity = match j.text_at("severity") {
            Some(s) => s,
            None => {
                return None;
            },
        };
        let causes = match read_texts(j, "likely_causes") {
            Some(c) => c,
            None => {
                return None;
            },
        };
        let checks = match read_texts(j, "suggested_checks") {
            Some(c) => c,
            None => {
                return None;
            },
        };
        Some(diagnosis(category, severity, causes, checks))
    }
}

/// A diagnosis that was written as JSON reads back as it was.
pub proof fn lemma_diagnosis_round_trip(d: DiagnosisView)
    ensures
        diagnosis_from(diagnosis_json(d)) == Some(d),
{
    reveal_strlit("category");
    reveal_strlit("severity");
    reveal_strlit("likely_causes");
    reveal_strlit("suggested_checks");
    assert("category"@ != "severity"@) by {
        assert("category"@[0] == 'c' && "severity"@[0] == 's');
    }
    assert("category"@ != "likely_causes"@) by {
        assert("category"@[0] == 'c' && "likely_causes"@[0] == 'l');
    }
    assert("category"@ != "suggested_checks"@) by {
        assert("category"@[0] == 'c' && "suggested_checks"@[0] == 's');
    }
    assert("severity"@ != "likely_causes"@) by {
        assert("severity"@[0] == 's' && "likely_causes"@[0] == 'l');
    }
    assert("severity"@ != "suggested_checks"@) by {
        assert("severity"@[1] == 'e' && "suggested_checks"@[1] == 'u');
    }
    assert("likely_causes"@ != "suggested_checks"@) by {
        assert("likely_causes"@[0] == 'l' && "suggested_checks"@[0] == 's');
    }
    reveal_with_fuel(crate::json::lookup_from, 5);
    lemma_text_list_items(d.likely_causes);
    lemma_text_list_items(d.suggested_checks);
}

/// The node that diagnoses the issue.
pub struct DiagnoseNode {
    pub id: String,
}

impl DiagnoseNode {
    /// A node with the name `id`.
    pub fn new(id: &str) -> (r: DiagnoseNode)
        ensures
            r.id@ == id@,
    {
        DiagnoseNode { id: id.to_string() }
    }
}

/// Stores the diagnosis of the stored query.
pub fn diagnose(state: &mut WxorcaState)
    ensures
        final(state)@ == old(state)@.with_metadata(
            "diagnosis"@,
            diagnosis_json(diagnosis_of(lowered(stored_query(old(state)@)))),
            final(state)@.updated_at,
        ),
{
    let query = original_query(state);
    let found = diagnose_issue(query.as_str());
    state.set_metadata("diagnosis", found.to_json());
}

impl Node for DiagnoseNode {
    open spec fn name(&self) -> Seq<char> {
        self.id@
    }

    fn id(&self) -> (r: &str) {
        self.id.as_str()
    }

    fn description(&self) -> (r: Option<&str>)
        ensures
            r matches Some(d) && d@ == "Diagnoses the issue based on user description"@,
    {
        Some("Diagnoses the issue based on user description")
    }

    fn execute(&self, state: &mut WxorcaState) -> (r: Signal)
        ensures
            r is Continue,
            final(state)@ == old(state)@.with_metadata(
                "diagnosis"@,
                diagnosis_json(diagnosis_of(lowered(stored_query(old(state)@)))),
                final(state)@.updated_at,
            ),
    {
        diagnose(state);
        Signal::Continue
    }
}

/// The diagnosis that the store holds, where it holds one.
pub open spec fn stored_diagnosis(s: StateView) -> Option<DiagnosisView> {
    match s.metadata_at("diagnosis"@) {
        Some(j) => diagnosis_from(j),
        None => None,
    }
}

/// Reads the diagnosis that the store holds.
pub fn read_diagnosis(state: &WxorcaState) -> (r: Option<Diagnosis>)
    ensures
        match r {
            Some(d) => stored_diagnosis(state@) == Some(d@),
            None => stored_diagnosis(state@) is None,
        },
{
    match state.get_metadata("diagnosis") {
        Some(j) => Diagnosis::from_json(j),
        None => None,
    }
}

/// The category of the stored diagnosis, or `general`.
pub open spec fn stored_category(s: StateView) -> Seq<char> {
    match stored_diagnosis(s) {
        Some(d) => d.category,
        None => "general"@,
    }
}

/// The node that searches the troubleshooting documentation.
pub struct TroubleshootSearchNode {
    pub id: String,
    pub system_prompt: String,
}

impl TroubleshootSearchNode {
    /// A node with the name `id`.
    pub fn new(id: &str, system_prompt: String) -> (r: TroubleshootSearchNode)
        ensures
            r.id@ == id@,
            r.system_prompt == system_prompt,
    {
        TroubleshootSearchNode { id: id.to_string(), system_prompt }
    }
}

/// Queues a search of the troubleshooting documentation for the category
/// of the stored diagnosis and the stored query. Nothing is queued where
/// no query is stored.
pub fn search_troubleshooting(state: &mut WxorcaState)
    ensures
        search_step(
            old(state)@,
            "search_wxo_docs"@,
            search_arguments(
                stored_category(old(state)@) + " "@ + stored_query(old(state)@),
                "troubleshooting"@,
            ),
            final(state)@,
        ),
{
    let query = original_query(state);
    let category = match read_diagnosis(state) {
        Some(d) => d.category,
        None => "general".to_string(),
    };
    if query.as_str().is_empty() {
        return ;
    }
    let wanted = join3(category.as_str(), " ", query.as_str());
    queue_docs_search(state, wanted.as_str(), "troubleshooting");
}

impl Node for TroubleshootSearchNode {
    open spec fn name(&self) -> Seq<char> {
        self.id@
    }

    fn id(&self) -> (r: &str) {
        self.id.as_str()
    }

    fn description(&self) -> (r: Option<&str>)
        ensures
            r matches Some(d) && d@ == "Searches troubleshooting documentation"@,
    {
        Some("Searches troubleshooting documentation")
    }

    fn execute(&self, state: &mut WxorcaState) -> (r: Signal)
        ensures
            r is Continue,
            search_step(
                old(state)@,
                "search_wxo_docs"@,
                search_arguments(
                    stored_category(old(state)@) + " "@ + stored_query(old(state)@),
                    "troubleshooting"@,
                ),
                final(state)@,
            ),
    {
        search_troubleshooting(state);
        Signal::Continue
    }
}

/// The node that writes the troubleshooting guidance.
pub struct TroubleshootResponseNode {
    pub id: String,
    pub system_prompt: String,
}

impl TroubleshootResponseNode {
    /// A node with the name `id`.
    pub fn new(id: &str, system_prompt: String) -> (r: TroubleshootResponseNode)
        ensures
            r.id@ == id@,
            r.system_prompt == system_prompt,
    {
        TroubleshootResponseNode { id: id.to_string(), system_prompt }
    }
}

/// The start of the heading, before the category.
pub const TS_HEADING: &'static str =
    "## \u{f0}\u{178}\u{201d} Issue Analysis: ";

/// The label of high severity.
pub const TS_SEVERITY_HIGH: &'static str =
    "\u{f0}\u{178}\u{201d}\u{b4} High";

/// The label of medium severity.
pub const TS_SEVERITY_MEDIUM: &'static str =
    "\u{f0}\u{178}\u{178}\u{a1} Medium";

/// The label of low severity.
pub const TS_SEVERITY_LOW: &'static str =
    "\u{f0}\u{178}\u{178}\u{a2} Low";

/// The quick fixes for authentication issues.
pub const TS_AUTHENTICATION: &'static str =
    "### Quick Fix Attempts\n1. Clear browser cache and cookies\n2. Try logging out and back in\n3. Check if your session has expired\n4. Verify your account is active\n\n**\u{e2}\u{161}\u{a0}\u{ef}\u{b8} If issues persist**, contact your administrator to verify your account permissions.";

/// The quick fixes for performance issues.
pub const TS_PERFORMANCE: &'static str =
    "### Quick Fix Attempts\n1. Refresh the page\n2. Check your internet connection\n3. Try a different browser\n4. Check the WXO status page for outages\n\n**\u{f0}\u{178}\u{2019}\u{a1} Tip**: If working with large datasets, try processing in smaller batches.";

/// The quick fixes for integration issues.
pub const TS_INTEGRATION: &'static str =
    "### Quick Fix Attempts\n1. Test the external service directly\n2. Re-authenticate the integration\n3. Check for API version changes\n4. Review integration logs\n\n**\u{e2}\u{161}\u{a0}\u{ef}\u{b8} Note**: External service issues are outside WXO control.";

/// The quick fixes for execution issues.
pub const TS_EXECUTION: &'static str =
    "### Quick Fix Attempts\n1. Verify input data format\n2. Check for required fields\n3. Review skill/workflow logs\n4. Test with simpler inputs\n\n**\u{f0}\u{178}\u{2019}\u{a1} Tip**: Use the validation tool to check your configuration.";

/// What is asked of the user where the issue is of no kind in particular.
pub const TS_GENERAL: &'static str =
    "### Need More Information\nCould you provide more details about:\n- What exactly happened?\n- Any error messages shown?\n- When did this start?\n- Any recent changes?\n";

/// The closing line.
pub const TS_CLOSING: &'static str =
    "\n\n---\n\n**Still having issues?** I can help you escalate to IBM Support if needed.";

/// The quick fixes for a category.
pub open spec fn advice_for(category: Seq<char>) -> Seq<char> {
    if category == "authentication"@ {
        TS_AUTHENTICATION@
    } else if category == "performance"@ {
        TS_PERFORMANCE@
    } else if category == "integration"@ {
        TS_INTEGRATION@
    } else if category == "execution"@ {
        TS_EXECUTION@
    } else {
        TS_GENERAL@
    }
}

/// The label of a severity.
pub open spec fn severity_label(severity: Seq<char>) -> Seq<char> {
    if severity == "high"@ {
        TS_SEVERITY_HIGH@
    } else if severity == "medium"@ {
        TS_SEVERITY_MEDIUM@
    } else {
        TS_SEVERITY_LOW@
    }
}

/// The first `n` items, each on a line of its own behind a dash.
pub open spec fn bullet_lines(items: Seq<Seq<char>>, n: nat) -> Seq<char>
    decreases n,
{
    if n == 0 || n > items.len() {
        Seq::empty()
    } else {
        bullet_lines(items, (n - 1) as nat) + "- "@ + items[n - 1] + "\n"@
    }
}

/// The first `n` items, each on a line of its own behind its number.
pub open spec fn numbered_lines(items: Seq<Seq<char>>, n: nat) -> Seq<char>
    decreases n,
{
    if n == 0 || n > items.len() {
        Seq::empty()
    } else {
        numbered_lines(items, (n - 1) as nat) + decimal(n) + ". "@ + items[n - 1] + "\n"@
    }
}

/// The guidance for a diagnosis: a heading with the category in capital
/// letters, the severity, the likely causes, the numbered checks, the
/// quick fixes for the category, and a closing line.
pub open spec fn troubleshoot_response(d: DiagnosisView) -> Seq<char> {
    TS_HEADING@ + uppered(d.category) + "\n\n"@ + "**Severity**: "@ + severity_label(d.severity)
        + "\n\n"@ + "### Likely Causes\n"@ + bullet_lines(d.likely_causes, d.likely_causes.len())
        + "\n"@ + "### Troubleshooting Steps\n\n"@ + numbered_lines(
        d.suggested_checks,
        d.suggested_checks.len(),
    ) + "\n"@ + advice_for(d.category) + TS_CLOSING@
}

/// Writes the guidance for a diagnosis.
pub fn generate_troubleshoot_response(_query: &str, diagnosis: &Diagnosis, _system_prompt: &str) -> (r:
    String)
    ensures
        r@ == troubleshoot_response(diagnosis@),
{
    let category = diagnosis.category.as_str();
    let severity = diagnosis.severity.as_str();
    let label = if same_text(severity, "high") {
        TS_SEVERITY_HIGH
    } else if same_text(severity, "medium") {
        TS_SEVERITY_MEDIUM
    } else {
        TS_SEVERITY_LOW
    };
    let mut response = join3(TS_HEADING, to_uppercase(category).as_str(), "\n\n");
    response.append("**Severity**: ");
    response.append(label);
    response.append("\n\n");
    response.append("### Likely Causes\n");
    let ghost head = response@;
    let ghost causes = texts(diagnosis.likely_causes@);
    let mut i: usize = 0;
    while i < diagnosis.likely_causes.len()
        invariant
            i <= diagnosis.likely_causes.len(),
            causes == texts(diagnosis.likely_causes@),
            response@ == head + bullet_lines(causes, i as nat),
        decreases diagnosis.likely_causes.len() - i,
    {
        let ghost before = response@;
        response.append("- ");
        response.append(diagnosis.likely_causes[i].as_str());
        response.append("\n");
        assert(response@ =~= head + bullet_lines(causes, (i + 1) as nat));
        i += 1;
    }
    response.append("\n");
    response.append("### Troubleshooting Steps\n\n");
    let ghost middle = response@;
    let ghost checks = texts(diagnosis.suggested_checks@);
    let mut k: usize = 0;
    while k < diagnosis.suggested_checks.len()
        invariant
            k <= diagnosis.suggested_checks.len(),
            checks == texts(diagnosis.suggested_checks@),
            response@ == middle + numbered_lines(checks, k as nat),
        decreases diagnosis.suggested_checks.len() - k,
    {
        response.append(decimal_string((k + 1) as u64).as_str());
        response.append(". ");
        response.append(diagnosis.suggested_checks[k].as_str());
        response.append("\n");
        assert(response@ =~= middle + numbered_lines(checks, (k + 1) as nat));
        k += 1;
    }
    response.append("\n");
    let advice = if same_text(category, "authentication") {
        TS_AUTHENTICATION
    } else if same_text(category, "performance") {
        TS_PERFORMANCE
    } else if same_text(category, "integration") {
        TS_INTEGRATION
    } else if same_text(category, "execution") {
        TS_EXECUTION
    } else {
        TS_GENERAL
    };
    response.append(advice);
    response.append(TS_CLOSING);
    assert(response@ =~= troubleshoot_response(diagnosis@));
    response
}

/// The diagnosis that a response is written for: the stored one, or a
/// general one of low severity without causes and checks.
pub open spec fn reply_diagnosis(s: StateView) -> DiagnosisView {
    match stored_diagnosis(s) {
        Some(d) => d,
        None => DiagnosisView {
            category: "general"@,
            severity: "low"@,
            likely_causes: Seq::empty(),
            suggested_checks: Seq::empty(),
        },
    }
}

/// The response that the state calls for.
pub open spec fn troubleshoot_reply(s: StateView) -> Seq<char> {
    troubleshoot_response(reply_diagnosis(s))
}

/// Writes the guidance, unless tool calls are pending.
pub fn respond_troubleshoot(state: &mut WxorcaState, system_prompt: &str)
    ensures
        response_step(old(state)@, troubleshoot_reply(old(state)@), final(state)@),
{
    if state.has_pending_tool_calls() {
        return ;
    }
    let query = original_query(state);
    let found = match read_diagnosis(state) {
        Some(d) => d,
        None => {
            let d = diagnosis("general", "low", Vec::new(), Vec::new());
            assert(d@.likely_causes =~= Seq::empty());
            assert(d@.suggested_checks =~= Seq::empty());
            d
        },
    };
    let response = generate_troubleshoot_response(query.as_str(), &found, system_prompt);
    give_response(state, response.as_str());
}

impl Node for TroubleshootResponseNode {
    open spec fn name(&self) -> Seq<char> {
        self.id@
    }

    fn id(&self) -> (r: &str) {
        self.id.as_str()
    }

    fn description(&self) -> (r: Option<&str>)
        ensures
            r matches Some(d) && d@ == "Generates troubleshooting guidance"@,
    {
        Some("Generates troubleshooting guidance")
    }

    fn execute(&self, state: &mut WxorcaState) -> (r: Signal)
        ensures
            r is Finish,
            response_step(old(state)@, troubleshoot_reply(old(state)@), final(state)@),
    {
        respond_troubleshoot(state, self.system_prompt.as_str());
        Signal::Finish
    }
}

} // verus!
