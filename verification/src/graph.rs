//! The workflow graph: nodes, edges and routers, a builder that collects
//! them, and the validated graph that a build gives.

use vstd::prelude::*;
use crate::state::{opt_text, StateView, WxorcaState};
use crate::text::{knows, lemma_position_from, position, position_from, register, same_text};

verus! {

/// The destination that ends a run.
pub const END: &'static str = "__end__";

/// What went wrong inside a node.
#[derive(Debug, Clone, Copy, PartialEq, Eq, Structural)]
pub enum NodeErrorKind {
    /// The shared state could not be read or written.
    StateAccess,
    /// A tool failed in a way that the node could not absorb.
    Tool,
    /// Any other fault.
    Other,
}

/// A node's own unrecoverable fault.
#[derive(Debug, Clone)]
pub struct NodeError {
    pub kind: NodeErrorKind,
    pub message: String,
}

/// The mathematical value of a [`NodeError`].
pub struct NodeErrorView {
    pub kind: NodeErrorKind,
    pub message: Seq<char>,
}

impl View for NodeError {
    type V = NodeErrorView;

    open spec fn view(&self) -> NodeErrorView {
        NodeErrorView { kind: self.kind, message: self.message@ }
    }
}

/// What a node tells the runner when it returns.
#[derive(Debug, Clone)]
pub enum Signal {
    /// Go on along the node's edge.
    Continue,
    /// The node is done; the run ends unless a router sends it on.
    Finish,
    /// The run fails.
    Error(NodeError),
}

/// The mathematical value of a [`Signal`].
pub enum SignalView {
    Continue,
    Finish,
    Error(NodeErrorView),
}

impl View for Signal {
    type V = SignalView;

    open spec fn view(&self) -> SignalView {
        match self {
            Signal::Continue => SignalView::Continue,
            Signal::Finish => SignalView::Finish,
            Signal::Error(e) => SignalView::Error(e@),
        }
    }
}

/// What every node keeps of a state: the session and the agent type stay,
/// the time of creation stays, messages are only appended, and a complete
/// conversation stays complete.
pub open spec fn evolves(before: StateView, after: StateView) -> bool {
    &&& after.session_id == before.session_id
    &&& after.agent_type == before.agent_type
    &&& after.created_at == before.created_at
    &&& before.messages.is_prefix_of(after.messages)
    &&& before.is_complete ==> after.is_complete
}

/// A unit of work in a graph.
pub trait Node {
    /// The node's name. A node that does not say otherwise has a name
    /// of which nothing is known.
    open spec fn name(&self) -> Seq<char> {
        arbitrary()
    }

    /// The name under which the node is registered.
    fn id(&self) -> (r: &str)
        ensures
            r@ == self.name(),
    ;

    /// What the node does, for diagnostics.
    fn description(&self) -> (r: Option<&str>);

    /// What one execution of the node may make of the state `before`, and
    /// with which signal. A node that does not say otherwise may leave any
    /// state that [`evolves`] allows.
    open spec fn effect(&self, before: StateView, after: StateView, signal: SignalView) -> bool {
        true
    }

    /// Does the node's work on the state.
    fn execute(&self, state: &mut WxorcaState) -> (r: Signal)
        ensures
            evolves(old(state)@, final(state)@),
            self.effect(old(state)@, final(state)@, r@),
    ;
}

/// A routing function: it names the next node from the state alone.
pub trait Router {
    /// The destination for a state. A router that does not say otherwise
    /// has a destination of which nothing is known.
    open spec fn target(&self, state: StateView) -> Seq<char> {
        arbitrary()
    }

    /// Computes the destination for a state.
    fn route(&self, state: &WxorcaState) -> (r: String)
        ensures
            r@ == self.target(state@),
    ;
}

/// A node together with the name it was registered under.
pub struct GraphNode<N> {
    pub id: String,
    pub executor: N,
}

/// Where an edge leads.
pub enum EdgeKind<R> {
    /// Always to the named node, or to [`END`].
    Direct(String),
    /// To the node that the router names for the current state.
    Conditional(R),
}

/// An edge out of the node `from`.
pub struct GraphEdge<R> {
    pub from: String,
    pub kind: EdgeKind<R>,
}

/// The shape of an edge: its source and, for a direct edge, its
/// destination. A conditional edge has no fixed destination.
pub struct EdgeShape {
    pub from: Seq<char>,
    pub to: Option<Seq<char>>,
}

impl<R> GraphEdge<R> {
    /// The shape of this edge.
    pub open spec fn shape(self) -> EdgeShape {
        EdgeShape {
            from: self.from@,
            to: match self.kind {
                EdgeKind::Direct(to) => Some(to@),
                EdgeKind::Conditional(_) => None,
            },
        }
    }
}

/// The names of a run of nodes.
pub open spec fn node_ids<N>(nodes: Seq<GraphNode<N>>) -> Seq<Seq<char>> {
    nodes.map_values(|n: GraphNode<N>| n.id@)
}

/// The shapes of a run of edges.
pub open spec fn shapes<R>(edges: Seq<GraphEdge<R>>) -> Seq<EdgeShape> {
    edges.map_values(|e: GraphEdge<R>| e.shape())
}

/// The sources of a run of edges.
pub open spec fn sources(edges: Seq<EdgeShape>) -> Seq<Seq<char>> {
    edges.map_values(|e: EdgeShape| e.from)
}

/// Why a graph could not be built.
#[derive(Debug, Clone)]
pub enum BuildError {
    /// No entry point was set.
    NoEntryPoint,
    /// The entry point or an edge names a node that was never added.
    NodeNotFound(String),
    /// More than one edge leaves the named node.
    AmbiguousEdges(String),
}

/// The mathematical value of a [`BuildError`].
pub enum BuildErrorView {
    NoEntryPoint,
    NodeNotFound(Seq<char>),
    AmbiguousEdges(Seq<char>),
}

impl View for BuildError {
    type V = BuildErrorView;

    open spec fn view(&self) -> BuildErrorView {
        match self {
            BuildError::NoEntryPoint => BuildErrorView::NoEntryPoint,
            BuildError::NodeNotFound(n) => BuildErrorView::NodeNotFound(n@),
            BuildError::AmbiguousEdges(n) => BuildErrorView::AmbiguousEdges(n@),
        }
    }
}

impl BuildError {
    /// The error as a sentence.
    pub fn message(&self) -> (r: String)
        ensures
            r@ == match self@ {
                BuildErrorView::NoEntryPoint => "Graph has no entry point defined"@,
                BuildErrorView::NodeNotFound(n) => "Node not found: "@ + n,
                BuildErrorView::AmbiguousEdges(n) => "More than one edge leaves node: "@ + n,
            },
    {
        match self {
            BuildError::NoEntryPoint => "Graph has no entry point defined".to_string(),
            BuildError::NodeNotFound(n) => crate::text::join2("Node not found: ", n.as_str()),
            BuildError::AmbiguousEdges(n) => crate::text::join2(
                "More than one edge leaves node: ",
                n.as_str(),
            ),
        }
    }
}

/// What a builder has collected: the names of the nodes, the shapes of the
/// edges in the order of their addition, and the entry point.
pub struct GraphPlan {
    pub nodes: Seq<Seq<char>>,
    pub edges: Seq<EdgeShape>,
    pub entry: Option<Seq<char>>,
}

impl GraphPlan {
    /// The plan of a new builder.
    pub open spec fn empty() -> GraphPlan {
        GraphPlan { nodes: Seq::empty(), edges: Seq::empty(), entry: None }
    }

    /// The plan after a node has been added under `id`.
    pub open spec fn with_node(self, id: Seq<char>) -> GraphPlan {
        GraphPlan { nodes: register(self.nodes, id), ..self }
    }

    /// The plan after an edge has been added: a direct edge to `to`, or a
    /// conditional edge where `to` is `None`.
    pub open spec fn with_edge(self, from: Seq<char>, to: Option<Seq<char>>) -> GraphPlan {
        GraphPlan { edges: self.edges.push(EdgeShape { from, to }), ..self }
    }

    /// The plan after the entry point has been set.
    pub open spec fn with_entry(self, id: Seq<char>) -> GraphPlan {
        GraphPlan { entry: Some(id), ..self }
    }

    /// What is wrong with the edge at position `i`, if anything: its
    /// source is unknown, or it leads straight to an unknown node that is
    /// not [`END`], or an earlier edge leaves the same source.
    pub open spec fn edge_violation(self, i: int) -> Option<BuildErrorView> {
        let e = self.edges[i];
        if !knows(self.nodes, e.from) {
            Some(BuildErrorView::NodeNotFound(e.from))
        } else if e.to is Some && e.to->0 != END@ && !knows(self.nodes, e.to->0) {
            Some(BuildErrorView::NodeNotFound(e.to->0))
        } else if position(sources(self.edges), e.from) < i {
            Some(BuildErrorView::AmbiguousEdges(e.from))
        } else {
            None
        }
    }

    /// The first violation among the edges at or after position `from`.
    pub open spec fn first_edge_violation(self, from: int) -> Option<BuildErrorView>
        decreases self.edges.len() - from,
    {
        if from < 0 || from >= self.edges.len() {
            None
        } else if self.edge_violation(from) is Some {
            self.edge_violation(from)
        } else {
            self.first_edge_violation(from + 1)
        }
    }

    /// The first violation that a build finds: a missing entry point, then
    /// an unknown entry point, then the edges in the order of their
    /// addition.
    pub open spec fn first_violation(self) -> Option<BuildErrorView> {
        match self.entry {
            None => Some(BuildErrorView::NoEntryPoint),
            Some(e) => if !knows(self.nodes, e) {
                Some(BuildErrorView::NodeNotFound(e))
            } else {
                self.first_edge_violation(0)
            },
        }
    }

    /// The plan can be built.
    pub open spec fn valid(self) -> bool {
        self.first_violation() is None
    }
}

/// Where an edge is in violation, a violation is found at or before it.
pub proof fn lemma_violation_found(plan: GraphPlan, from: int, k: int)
    requires
        0 <= from <= k < plan.edges.len(),
        plan.edge_violation(k) is Some,
    ensures
        plan.first_edge_violation(from) is Some,
    decreases k - from,
{
    if from < k && plan.edge_violation(from) is None {
        lemma_violation_found(plan, from + 1, k);
    }
}

/// A plan in which two edges leave the same node cannot be built, be they
/// direct or conditional: a node has one edge at most.
pub proof fn lemma_two_edges_rejected(plan: GraphPlan, i: int, j: int)
    requires
        0 <= i < j < plan.edges.len(),
        plan.edges[i].from == plan.edges[j].from,
    ensures
        !plan.valid(),
{
    if plan.entry is Some && knows(plan.nodes, plan.entry->0) {
        lemma_position_from(sources(plan.edges), plan.edges[j].from, 0);
        assert(sources(plan.edges)[i] == plan.edges[j].from);
        assert(plan.edge_violation(j) is Some);
        lemma_violation_found(plan, 0, j);
    }
}

/// Finds the node registered under `id`.
pub fn find_node<N>(nodes: &Vec<GraphNode<N>>, id: &str) -> (r: Option<usize>)
    ensures
        match r {
            Some(i) => i < nodes.len() && i == position(node_ids(nodes@), id@),
            None => !knows(node_ids(nodes@), id@),
        },
{
    let mut i: usize = 0;
    while i < nodes.len()
        invariant
            i <= nodes.len(),
            position(node_ids(nodes@), id@) == position_from(node_ids(nodes@), id@, i as int),
        decreases nodes.len() - i,
    {
        if same_text(nodes[i].id.as_str(), id) {
            return Some(i);
        }
        i += 1;
    }
    None
}

/// Finds the first edge that leaves `from`.
pub fn find_edge<R>(edges: &Vec<GraphEdge<R>>, from: &str) -> (r: Option<usize>)
    ensures
        match r {
            Some(i) => i < edges.len() && i == position(sources(shapes(edges@)), from@),
            None => !knows(sources(shapes(edges@)), from@),
        },
{
    let mut i: usize = 0;
    while i < edges.len()
        invariant
            i <= edges.len(),
            position(sources(shapes(edges@)), from@) == position_from(
                sources(shapes(edges@)),
                from@,
                i as int,
            ),
        decreases edges.len() - i,
    {
        if same_text(edges[i].from.as_str(), from) {
            return Some(i);
        }
        i += 1;
    }
    None
}

/// Collects the nodes, edges and entry point of a graph.
pub struct GraphBuilder<N, R> {
    pub nodes: Vec<GraphNode<N>>,
    pub edges: Vec<GraphEdge<R>>,
    pub entry_point: Option<String>,
    pub name: Option<String>,
    pub description: Option<String>,
}

impl<N, R> View for GraphBuilder<N, R> {
    type V = GraphPlan;

    open spec fn view(&self) -> GraphPlan {
        GraphPlan {
            nodes: node_ids(self.nodes@),
            edges: shapes(self.edges@),
            entry: opt_text(self.entry_point),
        }
    }
}

/// `after` holds the edges of `before` and one more.
pub open spec fn extends<R>(before: Seq<GraphEdge<R>>, after: Seq<GraphEdge<R>>) -> bool {
    after.len() == before.len() + 1 && after.drop_last() == before
}

impl<N: Node, R: Router> GraphBuilder<N, R> {
    /// An empty builder.
    pub fn new() -> (r: GraphBuilder<N, R>)
        ensures
            r@ == GraphPlan::empty(),
            r.edges@.len() == 0,
            r.name is None,
            r.description is None,
    {
        let r = GraphBuilder {
            nodes: Vec::new(),
            edges: Vec::new(),
            entry_point: None,
            name: None,
            description: None,
        };
        assert(r@.nodes =~= Seq::empty());
        assert(r@.edges =~= Seq::empty());
        r
    }

    /// Names the graph.
    pub fn name(self, name: &str) -> (r: GraphBuilder<N, R>)
        ensures
            r.name matches Some(n) && n@ == name@,
            r@ == self@,
            r.nodes == self.nodes,
            r.edges == self.edges,
            r.description == self.description,
    {
        let mut b = self;
        b.name = Some(name.to_string());
        b
    }

    /// Describes the graph.
    pub fn description(self, description: &str) -> (r: GraphBuilder<N, R>)
        ensures
            r.description matches Some(d) && d@ == description@,
            r@ == self@,
            r.nodes == self.nodes,
            r.edges == self.edges,
            r.name == self.name,
    {
        let mut b = self;
        b.description = Some(description.to_string());
        b
    }

    /// Adds a node under its name. A node added earlier under the same
    /// name is replaced and keeps its place.
    pub fn add_node(self, executor: N) -> (r: GraphBuilder<N, R>)
        ensures
            r@ == self@.with_node(executor.name()),
            r.nodes@[position(r@.nodes, executor.name())].executor == executor,
            forall|i: int|
                0 <= i < self.nodes@.len() && self@.nodes[i] != executor.name()
                    ==> #[trigger] r.nodes@[i] == self.nodes@[i],
            r.edges == self.edges,
            r.name == self.name,
            r.description == self.description,
    {
        let mut b = self;
        let id = executor.id().to_string();
        let node = GraphNode { id, executor };
        proof {
            lemma_position_from(node_ids(b.nodes@), node.id@, 0);
        }
        match find_node(&b.nodes, node.id.as_str()) {
            Some(i) => {
                b.nodes.set(i, node);
                assert(node_ids(b.nodes@) =~= node_ids(self.nodes@));
            },
            None => {
                b.nodes.push(node);
                assert(node_ids(b.nodes@) =~= node_ids(self.nodes@).push(executor.name()));
                proof {
                    let names = node_ids(b.nodes@);
                    let before = node_ids(self.nodes@);
                    let p = position(names, executor.name());
                    lemma_position_from(names, executor.name(), 0);
                    assert(names[before.len() as int] == executor.name());
                    if p < before.len() {
                        assert(before[p] == names[p]);
                    }
                }
            },
        }
        b
    }

    /// Adds an edge that always leads from `from` to `to`.
    pub fn add_edge(self, from: &str, to: &str) -> (r: GraphBuilder<N, R>)
        ensures
            r@ == self@.with_edge(from@, Some(to@)),
            extends(self.edges@, r.edges@),
            r.nodes == self.nodes,
            r.name == self.name,
            r.description == self.description,
    {
        let mut b = self;
        b.edges.push(GraphEdge { from: from.to_string(), kind: EdgeKind::Direct(to.to_string()) });
        assert(b.edges@.drop_last() =~= self.edges@);
        assert(shapes(b.edges@) =~= shapes(self.edges@).push(
            EdgeShape { from: from@, to: Some(to@) },
        ));
        b
    }

    /// Adds an edge from `from` to the end of the run.
    pub fn add_edge_to_end(self, from: &str) -> (r: GraphBuilder<N, R>)
        ensures
            r@ == self@.with_edge(from@, Some(END@)),
            extends(self.edges@, r.edges@),
            r.nodes == self.nodes,
            r.name == self.name,
            r.description == self.description,
    {
        self.add_edge(from, END)
    }

    /// Adds an edge from `from` whose destination the router names.
    pub fn add_conditional_edge(self, from: &str, router: R) -> (r: GraphBuilder<N, R>)
        ensures
            r@ == self@.with_edge(from@, None),
            extends(self.edges@, r.edges@),
            r.edges@.last().kind == EdgeKind::Conditional(router),
            r.nodes == self.nodes,
            r.name == self.name,
            r.description == self.description,
    {
        let mut b = self;
        b.edges.push(GraphEdge { from: from.to_string(), kind: EdgeKind::Conditional(router) });
        assert(b.edges@.drop_last() =~= self.edges@);
        assert(shapes(b.edges@) =~= shapes(self.edges@).push(EdgeShape { from: from@, to: None }));
        b
    }

    /// Sets the node at which a run starts.
    pub fn set_entry_point(self, node_id: &str) -> (r: GraphBuilder<N, R>)
        ensures
            r@ == self@.with_entry(node_id@),
            r.nodes == self.nodes,
            r.edges == self.edges,
            r.name == self.name,
            r.description == self.description,
    {
        let mut b = self;
        b.entry_point = Some(node_id.to_string());
        b
    }

    /// Validates the graph and freezes it. The error is the first violation
    /// found: a missing entry point, an unknown entry point, then for each
    /// edge in the order of their addition an unknown source, an unknown
    /// destination, or a source that an earlier edge already leaves.
    pub fn compile(self) -> (r: Result<CompiledGraph<N, R>, BuildError>)
        ensures
            match r {
                Ok(g) => {
                    &&& self@.valid()
                    &&& g.plan() == self@
                    &&& g.nodes() == self.nodes@
                    &&& g.edges() == self.edges@
                    &&& g.name_text() == opt_text(self.name)
                    &&& g.description_text() == opt_text(self.description)
                },
                Err(e) => self@.first_violation() == Some(e@),
            },
    {
        let entry = match &self.entry_point {
            None => {
                return Err(BuildError::NoEntryPoint);
            },
            Some(e) => e.clone(),
        };
        if find_node(&self.nodes, entry.as_str()).is_none() {
            return Err(BuildError::NodeNotFound(entry));
        }
        let mut i: usize = 0;
        while i < self.edges.len()
            invariant
                i <= self.edges.len(),
                self.entry_point matches Some(e) && e@ == entry@,
                knows(node_ids(self.nodes@), entry@),
                self@.first_edge_violation(0) == self@.first_edge_violation(i as int),
            decreases self.edges.len() - i,
        {
            let edge = &self.edges[i];
            assert(self@.edges[i as int] == edge.shape());
            assert(sources(self@.edges)[i as int] == edge.from@);
            if find_node(&self.nodes, edge.from.as_str()).is_none() {
                return Err(BuildError::NodeNotFound(edge.from.clone()));
            }
            match &edge.kind {
                EdgeKind::Direct(to) => {
                    if !same_text(to.as_str(), END) && find_node(
                        &self.nodes,
                        to.as_str(),
                    ).is_none() {
                        return Err(BuildError::NodeNotFound(to.clone()));
                    }
                },
                EdgeKind::Conditional(_) => {},
            }
            match find_edge(&self.edges, edge.from.as_str()) {
                Some(first) => {
                    if first < i {
                        return Err(BuildError::AmbiguousEdges(edge.from.clone()));
                    }
                },
                None => {},
            }
            proof {
                lemma_position_from(sources(self@.edges), edge.from@, 0);
            }
            i += 1;
        }
        Ok(
            CompiledGraph {
                nodes: self.nodes,
                edges: self.edges,
                entry_point: entry,
                name: self.name,
                description: self.description,
            },
        )
    }
}

/// A validated graph, ready to run.
pub struct CompiledGraph<N: Node, R: Router> {
    nodes: Vec<GraphNode<N>>,
    edges: Vec<GraphEdge<R>>,
    entry_point: String,
    name: Option<String>,
    description: Option<String>,
}

/// The first position at or after `from` of an edge that leaves `source`
/// and is conditional or direct as `conditional` says, or the number of
/// edges where there is none.
pub open spec fn edge_index_from<R>(
    edges: Seq<GraphEdge<R>>,
    source: Seq<char>,
    conditional: bool,
    from: int,
) -> int
    decreases edges.len() - from,
{
    if from < 0 || from >= edges.len() {
        edges.len() as int
    } else if edges[from].from@ == source && (edges[from].kind is Conditional) == conditional {
        from
    } else {
        edge_index_from(edges, source, conditional, from + 1)
    }
}

/// [`edge_index_from`] gives the first match: it lies in range, it matches
/// where it is a position, and nothing before it matches.
pub proof fn lemma_edge_index_from<R>(
    edges: Seq<GraphEdge<R>>,
    source: Seq<char>,
    conditional: bool,
    from: int,
)
    requires
        0 <= from <= edges.len(),
    ensures
        from <= edge_index_from(edges, source, conditional, from) <= edges.len(),
        edge_index_from(edges, source, conditional, from) < edges.len() ==> {
            let e = edges[edge_index_from(edges, source, conditional, from)];
            e.from@ == source && (e.kind is Conditional) == conditional
        },
        forall|j: int|
            from <= j < edge_index_from(edges, source, conditional, from) ==> !(edges[j].from@
                == source && (edges[j].kind is Conditional) == conditional),
    decreases edges.len() - from,
{
    if from < edges.len() && !(edges[from].from@ == source && (edges[from].kind is Conditional)
        == conditional) {
        lemma_edge_index_from(edges, source, conditional, from + 1);
    }
}

/// Finds the first edge of the given kind that leaves `source`.
pub fn find_edge_of_kind<R>(edges: &Vec<GraphEdge<R>>, source: &str, conditional: bool) -> (r:
    Option<usize>)
    ensures
        match r {
            Some(i) => i < edges.len() && i == edge_index_from(edges@, source@, conditional, 0),
            None => edge_index_from(edges@, source@, conditional, 0) == edges.len(),
        },
{
    let mut i: usize = 0;
    while i < edges.len()
        invariant
            i <= edges.len(),
            edge_index_from(edges@, source@, conditional, 0) == edge_index_from(
                edges@,
                source@,
                conditional,
                i as int,
            ),
        decreases edges.len() - i,
    {
        let is_conditional = match &edges[i].kind {
            EdgeKind::Conditional(_) => true,
            EdgeKind::Direct(_) => false,
        };
        if is_conditional == conditional && same_text(edges[i].from.as_str(), source) {
            return Some(i);
        }
        i += 1;
    }
    None
}

/// The destination that the routers name after the node `from` for the
/// state `s`: nothing where no conditional edge leaves the node.
pub open spec fn routed<R: Router>(
    edges: Seq<GraphEdge<R>>,
    from: Seq<char>,
    s: StateView,
) -> Option<
    Seq<char>,
> {
    let c = edge_index_from(edges, from, true, 0);
    if c < edges.len() {
        Some(edges[c].kind->Conditional_0.target(s))
    } else {
        None
    }
}

/// The node after `from` for the state `s`. A conditional edge takes
/// precedence; only where none leaves the node does its direct edge count.
pub open spec fn successor<R: Router>(
    edges: Seq<GraphEdge<R>>,
    from: Seq<char>,
    s: StateView,
) -> Option<
    Seq<char>,
> {
    let d = edge_index_from(edges, from, false, 0);
    if routed(edges, from, s) is Some {
        routed(edges, from, s)
    } else if d < edges.len() {
        Some(edges[d].kind->Direct_0@)
    } else {
        None
    }
}

impl<N: Node, R: Router> CompiledGraph<N, R> {
    /// The nodes, in the order of their addition.
    pub closed spec fn nodes(self) -> Seq<GraphNode<N>> {
        self.nodes@
    }

    /// The edges, in the order of their addition.
    pub closed spec fn edges(self) -> Seq<GraphEdge<R>> {
        self.edges@
    }

    /// The name of the entry node.
    pub closed spec fn entry(self) -> Seq<char> {
        self.entry_point@
    }

    /// The node registered under `id`.
    pub open spec fn node_named(self, id: Seq<char>) -> N
        recommends
            knows(node_ids(self.nodes()), id),
    {
        self.nodes()[position(node_ids(self.nodes()), id)].executor
    }

    /// The plan from which the graph was built.
    pub open spec fn plan(self) -> GraphPlan {
        GraphPlan {
            nodes: node_ids(self.nodes()),
            edges: shapes(self.edges()),
            entry: Some(self.entry()),
        }
    }

    /// The graph's name.
    pub closed spec fn name_text(self) -> Option<Seq<char>> {
        opt_text(self.name)
    }

    /// The graph's description.
    pub closed spec fn description_text(self) -> Option<Seq<char>> {
        opt_text(self.description)
    }

    #[verifier::type_invariant]
    closed spec fn holds(self) -> bool {
        self.plan().valid()
    }

    /// The name of the entry node.
    pub fn entry_point(&self) -> (r: &str)
        ensures
            r@ == self.entry(),
            knows(node_ids(self.nodes()), self.entry()),
    {
        proof {
            use_type_invariant(self);
        }
        self.entry_point.as_str()
    }

    /// The graph's name.
    pub fn name(&self) -> (r: Option<&str>)
        ensures
            match r {
                Some(n) => self.name_text() == Some(n@),
                None => self.name_text() is None,
            },
    {
        match &self.name {
            Some(n) => Some(n.as_str()),
            None => None,
        }
    }

    /// The graph's description.
    pub fn description(&self) -> (r: Option<&str>)
        ensures
            match r {
                Some(n) => self.description_text() == Some(n@),
                None => self.description_text() is None,
            },
    {
        match &self.description {
            Some(n) => Some(n.as_str()),
            None => None,
        }
    }

    /// The node registered under `id`.
    pub fn get_node(&self, id: &str) -> (r: Option<&GraphNode<N>>)
        ensures
            match r {
                Some(n) => knows(node_ids(self.nodes()), id@) && *n == self.nodes()[position(
                    node_ids(self.nodes()),
                    id@,
                )],
                None => !knows(node_ids(self.nodes()), id@),
            },
    {
        match find_node(&self.nodes, id) {
            Some(i) => Some(&self.nodes[i]),
            None => None,
        }
    }

    /// The destination that the router at `from` names for the state;
    /// `None` where no conditional edge leaves the node.
    pub fn get_routed_node(&self, from: &str, state: &WxorcaState) -> (r: Option<String>)
        ensures
            opt_text(r) == routed(self.edges(), from@, state@),
    {
        proof {
            lemma_edge_index_from(self.edges@, from@, true, 0);
        }
        match find_edge_of_kind(&self.edges, from, true) {
            Some(i) => match &self.edges[i].kind {
                EdgeKind::Conditional(router) => Some(router.route(state)),
                EdgeKind::Direct(_) => None,
            },
            None => None,
        }
    }

    /// The node after `from` for the state; `None` where no edge leaves the
    /// node.
    pub fn get_next_node(&self, from: &str, state: &WxorcaState) -> (r: Option<String>)
        ensures
            opt_text(r) == successor(self.edges(), from@, state@),
    {
        proof {
            lemma_edge_index_from(self.edges@, from@, false, 0);
        }
        match self.get_routed_node(from, state) {
            Some(t) => Some(t),
            None => match find_edge_of_kind(&self.edges, from, false) {
                Some(i) => match &self.edges[i].kind {
                    EdgeKind::Direct(to) => Some(to.clone()),
                    EdgeKind::Conditional(_) => None,
                },
                None => None,
            },
        }
    }
}

} // verus!
