use wxorca_agents::graph::{
    BuildError, GraphBuilder, Node, NodeError, NodeErrorKind, Router, Signal, END,
};
use wxorca_agents::json::Json;
use wxorca_agents::runner::{next_phase, GraphRunner, Phase, RunError, RunnerConfig};
use wxorca_agents::state::{AgentType, WxorcaState};

/// A node that appends its name to the conversation and returns a fixed
/// signal.
struct Scripted {
    id: String,
    signal: u8,
}

impl Scripted {
    fn continues(id: &str) -> Scripted {
        Scripted { id: id.to_string(), signal: 0 }
    }

    fn finishes(id: &str) -> Scripted {
        Scripted { id: id.to_string(), signal: 1 }
    }

    fn fails(id: &str) -> Scripted {
        Scripted { id: id.to_string(), signal: 2 }
    }

    fn loses_state(id: &str) -> Scripted {
        Scripted { id: id.to_string(), signal: 3 }
    }
}

impl Node for Scripted {
    fn id(&self) -> &str {
        &self.id
    }

    fn description(&self) -> Option<&str> {
        None
    }

    fn execute(&self, state: &mut WxorcaState) -> Signal {
        state.add_assistant_message(&self.id);
        match self.signal {
            0 => Signal::Continue,
            1 => Signal::Finish,
            2 => Signal::Error(NodeError {
                kind: NodeErrorKind::Other,
                message: "broken".to_string(),
            }),
            _ => Signal::Error(NodeError {
                kind: NodeErrorKind::StateAccess,
                message: "lock poisoned".to_string(),
            }),
        }
    }
}

/// A router that names a fixed destination, or one for a state with
/// pending calls and another without.
struct Fixed {
    pending: String,
    idle: String,
}

impl Fixed {
    fn always(to: &str) -> Fixed {
        Fixed { pending: to.to_string(), idle: to.to_string() }
    }

    fn by_pending(pending: &str, idle: &str) -> Fixed {
        Fixed { pending: pending.to_string(), idle: idle.to_string() }
    }
}

impl Router for Fixed {
    fn route(&self, state: &WxorcaState) -> String {
        if state.has_pending_tool_calls() {
            self.pending.clone()
        } else {
            self.idle.clone()
        }
    }
}

fn builder() -> GraphBuilder<Scripted, Fixed> {
    GraphBuilder::new()
}

fn fresh() -> WxorcaState {
    WxorcaState::with_session_id(AgentType::AdminSetup, "test")
}

fn names(state: &WxorcaState) -> Vec<String> {
    state.messages.iter().map(|m| m.content.clone()).collect()
}

#[test]
fn run_stops_at_the_ceiling_of_a_self_loop() {
    let graph = builder()
        .add_node(Scripted::continues("spin"))
        .set_entry_point("spin")
        .add_conditional_edge("spin", Fixed::always("spin"))
        .compile()
        .unwrap();
    let runner = GraphRunner::new(graph, RunnerConfig::default().max_iterations(7));
    let mut state = fresh();
    let report = runner.run(&mut state);
    assert!(matches!(report.outcome, Err(RunError::Exhausted(7))));
    assert_eq!(report.executed, 7);
    assert_eq!(state.messages.len(), 7);
    assert_eq!(state.iteration, 7);
    assert!(matches!(runner.invoke(fresh()), Err(RunError::Exhausted(7))));
}

#[test]
fn run_with_default_ceiling_stops_after_ten() {
    let graph = builder()
        .add_node(Scripted::finishes("spin"))
        .set_entry_point("spin")
        .add_conditional_edge("spin", Fixed::always("spin"))
        .compile()
        .unwrap();
    let runner = GraphRunner::with_defaults(graph);
    assert_eq!(runner.config().max_iterations, 10);
    let mut state = fresh();
    let report = runner.run(&mut state);
    assert!(matches!(report.outcome, Err(RunError::Exhausted(10))));
    assert_eq!(report.executed, 10);
}

#[test]
fn run_with_ceiling_zero_executes_nothing() {
    let graph = builder()
        .add_node(Scripted::finishes("only"))
        .set_entry_point("only")
        .compile()
        .unwrap();
    let runner = GraphRunner::new(graph, RunnerConfig::new().max_iterations(0));
    let mut state = fresh();
    let report = runner.run(&mut state);
    assert!(matches!(report.outcome, Err(RunError::Exhausted(0))));
    assert_eq!(report.executed, 0);
    assert!(state.messages.is_empty());
}

#[test]
fn run_that_needs_exactly_the_ceiling_finishes() {
    let graph = builder()
        .add_node(Scripted::continues("a"))
        .add_node(Scripted::continues("b"))
        .add_node(Scripted::finishes("c"))
        .set_entry_point("a")
        .add_edge("a", "b")
        .add_edge("b", "c")
        .compile()
        .unwrap();
    let runner = GraphRunner::new(graph, RunnerConfig::default().max_iterations(3));
    let mut state = fresh();
    let report = runner.run(&mut state);
    assert!(report.outcome.is_ok());
    assert_eq!(report.executed, 3);
    assert_eq!(names(&state), vec!["a", "b", "c"]);
}

#[test]
fn conditional_and_direct_edge_from_one_node_are_rejected() {
    let result = builder()
        .add_node(Scripted::continues("a"))
        .add_node(Scripted::continues("b"))
        .set_entry_point("a")
        .add_conditional_edge("a", Fixed::always("b"))
        .add_edge("a", "b")
        .compile();
    match result {
        Err(BuildError::AmbiguousEdges(node)) => assert_eq!(node, "a"),
        _ => panic!("the build must fail"),
    }
    let result = builder()
        .add_node(Scripted::continues("a"))
        .add_node(Scripted::continues("b"))
        .set_entry_point("a")
        .add_edge("a", "b")
        .add_conditional_edge("a", Fixed::always("b"))
        .compile();
    assert!(matches!(result, Err(BuildError::AmbiguousEdges(_))));
}

#[test]
fn two_direct_edges_from_one_node_are_rejected() {
    let result = builder()
        .add_node(Scripted::continues("a"))
        .add_node(Scripted::continues("b"))
        .add_node(Scripted::continues("c"))
        .set_entry_point("a")
        .add_edge("a", "b")
        .add_edge("b", "c")
        .add_edge("a", "c")
        .compile();
    match result {
        Err(e) => {
            assert!(matches!(e, BuildError::AmbiguousEdges(_)));
            assert_eq!(e.message(), "More than one edge leaves node: a");
        }
        Ok(_) => panic!("the build must fail"),
    }
}

#[test]
fn build_without_entry_point_fails() {
    let result = builder().add_node(Scripted::continues("a")).compile();
    match result {
        Err(e) => {
            assert!(matches!(e, BuildError::NoEntryPoint));
            assert_eq!(e.message(), "Graph has no entry point defined");
        }
        Ok(_) => panic!("the build must fail"),
    }
}

#[test]
fn build_with_unknown_nodes_fails() {
    let result = builder().set_entry_point("nonexistent").compile();
    match result {
        Err(BuildError::NodeNotFound(n)) => assert_eq!(n, "nonexistent"),
        _ => panic!("the build must fail"),
    }
    let result = builder()
        .add_node(Scripted::continues("a"))
        .set_entry_point("a")
        .add_edge("a", "ghost")
        .compile();
    match result {
        Err(e) => assert_eq!(e.message(), "Node not found: ghost"),
        Ok(_) => panic!("the build must fail"),
    }
    let result = builder()
        .add_node(Scripted::continues("a"))
        .set_entry_point("a")
        .add_conditional_edge("ghost", Fixed::always("a"))
        .compile();
    assert!(matches!(result, Err(BuildError::NodeNotFound(_))));
}

#[test]
fn first_violation_is_reported() {
    // The unknown destination of the first edge comes before the second
    // edge out of `a`.
    let result = builder()
        .add_node(Scripted::continues("a"))
        .set_entry_point("a")
        .add_edge("a", "ghost")
        .add_edge("a", "a")
        .compile();
    match result {
        Err(BuildError::NodeNotFound(n)) => assert_eq!(n, "ghost"),
        _ => panic!("the build must fail on the first edge"),
    }
}

#[test]
fn compiled_graph_keeps_what_was_built() {
    let graph = builder()
        .name("test_graph")
        .description("two nodes")
        .add_node(Scripted::continues("node1"))
        .add_node(Scripted::finishes("node2"))
        .set_entry_point("node1")
        .add_edge("node1", "node2")
        .add_edge_to_end("node2")
        .compile()
        .unwrap();
    assert_eq!(graph.entry_point(), "node1");
    assert_eq!(graph.name(), Some("test_graph"));
    assert_eq!(graph.description(), Some("two nodes"));
    assert!(graph.get_node("node1").is_some());
    assert_eq!(graph.get_node("node2").unwrap().id, "node2");
    assert!(graph.get_node("node3").is_none());
    assert!(graph.get_node(END).is_none());
    let state = fresh();
    assert_eq!(graph.get_next_node("node1", &state), Some("node2".to_string()));
    assert_eq!(graph.get_next_node("node2", &state), Some(END.to_string()));
    assert_eq!(graph.get_routed_node("node1", &state), None);
    assert_eq!(graph.get_next_node("nowhere", &state), None);
}

#[test]
fn a_node_added_twice_is_replaced() {
    let graph = builder()
        .add_node(Scripted::continues("a"))
        .add_node(Scripted::finishes("b"))
        .add_node(Scripted::fails("a"))
        .set_entry_point("a")
        .add_edge("a", "b")
        .compile()
        .unwrap();
    let runner = GraphRunner::with_defaults(graph);
    let result = runner.invoke(fresh());
    match result {
        Err(RunError::NodeFailed { node_id, error }) => {
            assert_eq!(node_id, "a");
            assert_eq!(error.message, "broken");
        }
        _ => panic!("the replaced node must run"),
    }
}

#[test]
fn router_decides_on_the_current_state() {
    let graph = builder()
        .add_node(Scripted::continues("start"))
        .add_node(Scripted::finishes("busy"))
        .add_node(Scripted::finishes("idle"))
        .set_entry_point("start")
        .add_conditional_edge("start", Fixed::by_pending("busy", "idle"))
        .compile()
        .unwrap();
    let mut state = fresh();
    assert_eq!(graph.get_routed_node("start", &state), Some("idle".to_string()));
    state.add_tool_call("c1", "tool", Json::Null);
    assert_eq!(graph.get_routed_node("start", &state), Some("busy".to_string()));
    assert_eq!(graph.get_next_node("start", &state), Some("busy".to_string()));
    let runner = GraphRunner::with_defaults(graph);
    let done = runner.invoke(state).unwrap();
    assert_eq!(names(&done), vec!["start", "busy"]);
}

#[test]
fn finish_ends_the_run_unless_a_router_sends_it_on() {
    let graph = builder()
        .add_node(Scripted::finishes("respond"))
        .add_node(Scripted::continues("tools"))
        .set_entry_point("respond")
        .add_conditional_edge("respond", Fixed::by_pending("tools", END))
        .compile()
        .unwrap();
    let idle = fresh();
    assert!(matches!(
        next_phase(&graph, "respond", Signal::Finish, &idle),
        Phase::Finished
    ));
    let mut busy = fresh();
    busy.add_tool_call("c1", "tool", Json::Null);
    match next_phase(&graph, "respond", Signal::Finish, &busy) {
        Phase::Running(next) => assert_eq!(next, "tools"),
        _ => panic!("the run must go on to the tools"),
    }
    // A node without a router ends the run on `Finish`, whatever its edge.
    let graph = builder()
        .add_node(Scripted::finishes("a"))
        .add_node(Scripted::finishes("b"))
        .set_entry_point("a")
        .add_edge("a", "b")
        .compile()
        .unwrap();
    assert!(matches!(next_phase(&graph, "a", Signal::Finish, &idle), Phase::Finished));
    match next_phase(&graph, "a", Signal::Continue, &idle) {
        Phase::Running(next) => assert_eq!(next, "b"),
        _ => panic!("the run must go on along the edge"),
    }
    // A node without any edge ends the run on `Continue`.
    assert!(matches!(next_phase(&graph, "b", Signal::Continue, &idle), Phase::Finished));
    let done = GraphRunner::with_defaults(graph).invoke(fresh()).unwrap();
    assert_eq!(names(&done), vec!["a"]);
}

#[test]
fn a_node_error_fails_the_run_at_once() {
    let graph = builder()
        .add_node(Scripted::continues("a"))
        .add_node(Scripted::fails("b"))
        .add_node(Scripted::finishes("c"))
        .set_entry_point("a")
        .add_edge("a", "b")
        .add_edge("b", "c")
        .compile()
        .unwrap();
    let runner = GraphRunner::with_defaults(graph);
    let mut state = fresh();
    let report = runner.run(&mut state);
    assert_eq!(report.executed, 2);
    match report.outcome {
        Err(e) => {
            assert_eq!(e.message(), "Node 'b' failed: broken");
            assert!(matches!(e, RunError::NodeFailed { .. }));
        }
        Ok(()) => panic!("the run must fail"),
    }
    // The partial state stays open to inspection.
    assert_eq!(names(&state), vec!["a", "b"]);
}

#[test]
fn a_state_access_error_is_a_run_failure_of_its_own() {
    let graph = builder()
        .add_node(Scripted::loses_state("a"))
        .set_entry_point("a")
        .compile()
        .unwrap();
    match GraphRunner::with_defaults(graph).invoke(fresh()) {
        Err(e) => {
            assert!(matches!(e, RunError::StateAccess(_)));
            assert_eq!(e.message(), "State access failed: lock poisoned");
        }
        Ok(_) => panic!("the run must fail"),
    }
}

#[test]
fn a_route_to_an_unknown_node_fails_the_run() {
    let graph = builder()
        .add_node(Scripted::continues("a"))
        .set_entry_point("a")
        .add_conditional_edge("a", Fixed::always("nowhere"))
        .compile()
        .unwrap();
    let runner = GraphRunner::with_defaults(graph);
    let mut state = fresh();
    let report = runner.run(&mut state);
    assert_eq!(report.executed, 1);
    match report.outcome {
        Err(e) => assert_eq!(e.message(), "Node not found: nowhere"),
        Ok(()) => panic!("the run must fail"),
    }
}

#[test]
fn exhaustion_message_names_the_ceiling() {
    assert_eq!(
        RunError::Exhausted(10).message(),
        "Iteration limit reached: 10 iterations"
    );
    assert_eq!(RunError::Exhausted(0).message(), "Iteration limit reached: 0 iterations");
    assert_eq!(
        RunError::Exhausted(4294967295).message(),
        "Iteration limit reached: 4294967295 iterations"
    );
}

#[test]
fn step_counts_one_execution() {
    let graph = builder()
        .add_node(Scripted::continues("a"))
        .add_node(Scripted::finishes("b"))
        .set_entry_point("a")
        .add_edge("a", "b")
        .compile()
        .unwrap();
    let runner = GraphRunner::new(graph, RunnerConfig::default().max_iterations(2).verbose(true));
    assert!(runner.config().verbose);
    assert_eq!(runner.graph().entry_point(), "a");
    let mut state = fresh();
    let mut executed: u32 = 0;
    match runner.step("a", &mut executed, &mut state) {
        Phase::Running(next) => assert_eq!(next, "b"),
        _ => panic!("the run must go on"),
    }
    assert_eq!(executed, 1);
    assert!(matches!(runner.step("b", &mut executed, &mut state), Phase::Finished));
    assert_eq!(executed, 2);
    // At the ceiling no node runs.
    assert!(matches!(
        runner.step("a", &mut executed, &mut state),
        Phase::Failed(RunError::Exhausted(2))
    ));
    assert_eq!(executed, 2);
    assert_eq!(state.messages.len(), 2);
    // An unknown node is not executed either.
    let mut none: u32 = 0;
    assert!(matches!(
        runner.step("ghost", &mut none, &mut state),
        Phase::Failed(RunError::NodeNotFound(_))
    ));
    assert_eq!(none, 0);
}

#[test]
fn a_tool_fault_of_a_node_is_a_node_failure() {
    struct Broken;

    impl Node for Broken {
        fn id(&self) -> &str {
            "broken"
        }

        fn description(&self) -> Option<&str> {
            Some("Fails on every execution")
        }

        fn execute(&self, _state: &mut WxorcaState) -> Signal {
            Signal::Error(NodeError { kind: NodeErrorKind::Tool, message: "no tools".to_string() })
        }
    }

    let graph = GraphBuilder::<Broken, Fixed>::new()
        .add_node(Broken)
        .set_entry_point("broken")
        .compile()
        .unwrap();
    match GraphRunner::with_defaults(graph).invoke(fresh()) {
        Err(RunError::NodeFailed { node_id, error }) => {
            assert_eq!(node_id, "broken");
            assert_eq!(error.kind, NodeErrorKind::Tool);
            assert_eq!(error.message, "no tools");
        }
        _ => panic!("the run must fail"),
    }
}
