//! The execution engine: a state machine over node names that runs a
//! compiled graph under an iteration ceiling.

use vstd::prelude::*;
use crate::graph::{
    evolves, node_ids, routed, successor, CompiledGraph, END, Node, NodeError, NodeErrorKind,
    NodeErrorView, Router, Signal, SignalView,
};
use crate::state::{now_millis, StateView, WxorcaState};
use crate::text::{decimal, decimal_string, join2, knows, same_text};
use vstd::string::StringExecFns;

verus! {

/// The ceiling used where none is configured.
pub const DEFAULT_MAX_ITERATIONS: u32 = 10;

/// How a run is bounded.
#[derive(Debug, Clone, Copy, PartialEq, Eq, Structural)]
pub struct RunnerConfig {
    /// The most node executions that one run may make.
    pub max_iterations: u32,
    /// Whether the caller wants detailed logging.
    pub verbose: bool,
}

impl Default for RunnerConfig {
    fn default() -> (r: RunnerConfig)
        ensures
            r == (RunnerConfig { max_iterations: DEFAULT_MAX_ITERATIONS, verbose: false }),
    {
        RunnerConfig { max_iterations: DEFAULT_MAX_ITERATIONS, verbose: false }
    }
}

impl RunnerConfig {
    /// The default configuration.
    pub fn new() -> (r: RunnerConfig)
        ensures
            r == (RunnerConfig { max_iterations: DEFAULT_MAX_ITERATIONS, verbose: false }),
    {
        RunnerConfig { max_iterations: DEFAULT_MAX_ITERATIONS, verbose: false }
    }

    /// The same configuration with another ceiling.
    pub fn max_iterations(self, max: u32) -> (r: RunnerConfig)
        ensures
            r == (RunnerConfig { max_iterations: max, verbose: self.verbose }),
    {
        RunnerConfig { max_iterations: max, verbose: self.verbose }
    }

    /// The same configuration with logging switched on or off.
    pub fn verbose(self, verbose: bool) -> (r: RunnerConfig)
        ensures
            r == (RunnerConfig { max_iterations: self.max_iterations, verbose }),
    {
        RunnerConfig { max_iterations: self.max_iterations, verbose }
    }
}

/// Why a run failed.
#[derive(Debug, Clone)]
pub enum RunError {
    /// The iteration ceiling was reached before the run ended.
    Exhausted(u32),
    /// The run was sent to a node that the graph does not hold.
    NodeNotFound(String),
    /// A node could not read or write the shared state.
    StateAccess(String),
    /// A node signalled its own fault.
    NodeFailed { node_id: String, error: NodeError },
}

/// The mathematical value of a [`RunError`].
pub enum RunErrorView {
    Exhausted(nat),
    NodeNotFound(Seq<char>),
    StateAccess(Seq<char>),
    NodeFailed { node_id: Seq<char>, error: NodeErrorView },
}

impl View for RunError {
    type V = RunErrorView;

    open spec fn view(&self) -> RunErrorView {
        match self {
            RunError::Exhausted(n) => RunErrorView::Exhausted(*n as nat),
            RunError::NodeNotFound(n) => RunErrorView::NodeNotFound(n@),
            RunError::StateAccess(m) => RunErrorView::StateAccess(m@),
            RunError::NodeFailed { node_id, error } => RunErrorView::NodeFailed {
                node_id: node_id@,
                error: error@,
            },
        }
    }
}

impl RunErrorView {
    /// The error as a sentence.
    pub open spec fn message(self) -> Seq<char> {
        match self {
            RunErrorView::Exhausted(n) => "Iteration limit reached: "@ + decimal(n)
                + " iterations"@,
            RunErrorView::NodeNotFound(n) => "Node not found: "@ + n,
            RunErrorView::StateAccess(m) => "State access failed: "@ + m,
            RunErrorView::NodeFailed { node_id, error } => "Node '"@ + node_id + "' failed: "@
                + error.message,
        }
    }
}

impl RunError {
    /// The error as a sentence.
    pub fn message(&self) -> (r: String)
        ensures
            r@ == self@.message(),
    {
        match self {
            RunError::Exhausted(n) => {
                let mut r = join2("Iteration limit reached: ", decimal_string(*n as u64).as_str());
                r.append(" iterations");
                r
            },
            RunError::NodeNotFound(n) => join2("Node not found: ", n.as_str()),
            RunError::StateAccess(m) => join2("State access failed: ", m.as_str()),
            RunError::NodeFailed { node_id, error } => {
                let mut r = join2("Node '", node_id.as_str());
                r.append("' failed: ");
                r.append(error.message.as_str());
                r
            },
        }
    }
}

/// Where a run stands.
#[derive(Debug, Clone)]
pub enum Phase {
    /// The named node is the next to execute.
    Running(String),
    /// The run has ended.
    Finished,
    /// The run has failed.
    Failed(RunError),
}

/// The mathematical value of a [`Phase`].
pub enum PhaseView {
    Running(Seq<char>),
    Finished,
    Failed(RunErrorView),
}

impl View for Phase {
    type V = PhaseView;

    open spec fn view(&self) -> PhaseView {
        match self {
            Phase::Running(n) => PhaseView::Running(n@),
            Phase::Finished => PhaseView::Finished,
            Phase::Failed(e) => PhaseView::Failed(e@),
        }
    }
}

/// The phase that a destination stands for: the end of the run for
/// [`END`] and for no destination at all, else the named node.
pub open spec fn arrival(destination: Option<Seq<char>>) -> PhaseView {
    match destination {
        Some(t) => if t == END@ {
            PhaseView::Finished
        } else {
            PhaseView::Running(t)
        },
        None => PhaseView::Finished,
    }
}

/// The failure that a node's error stands for.
pub open spec fn failure(node_id: Seq<char>, error: NodeErrorView) -> RunErrorView {
    if error.kind == NodeErrorKind::StateAccess {
        RunErrorView::StateAccess(error.message)
    } else {
        RunErrorView::NodeFailed { node_id, error }
    }
}

/// The phase after the node `from` has returned `signal` and left the
/// state `s`. An error fails the run. After `Finish` only a router can
/// send the run on; after `Continue` the node's edge is followed, a router
/// taking precedence. A node without an edge ends the run.
pub open spec fn transition<N: Node, R: Router>(
    graph: CompiledGraph<N, R>,
    from: Seq<char>,
    signal: SignalView,
    s: StateView,
) -> PhaseView {
    match signal {
        SignalView::Error(e) => PhaseView::Failed(failure(from, e)),
        SignalView::Finish => arrival(routed(graph.edges(), from, s)),
        SignalView::Continue => arrival(successor(graph.edges(), from, s)),
    }
}

/// The state after one more execution has been counted in `reached`: the
/// counter is one higher, unless it stood at its limit.
pub open spec fn counted(reached: StateView, after: StateView) -> bool {
    if reached.iteration < usize::MAX {
        after == reached.advanced(after.updated_at)
    } else {
        after == reached
    }
}

/// One move of the state machine that executes the node `current`: the
/// node makes `reached` of `before` and returns `signal`, the execution is
/// counted, which gives `after`, and the phase `next` is the transition
/// for the signal and the state.
pub open spec fn executed_once<N: Node, R: Router>(
    graph: CompiledGraph<N, R>,
    current: Seq<char>,
    before: StateView,
    reached: StateView,
    signal: SignalView,
    after: StateView,
    next: PhaseView,
) -> bool {
    &&& graph.node_named(current).effect(before, reached, signal)
    &&& evolves(before, reached)
    &&& counted(reached, after)
    &&& next == transition(graph, current, signal, after)
}

/// One move of a run, as the state machine made it.
pub struct Move {
    /// The node that executed.
    pub node: Seq<char>,
    /// The state before the move.
    pub before: StateView,
    /// The state as the node left it.
    pub reached: StateView,
    /// The signal that the node returned.
    pub signal: SignalView,
    /// The state after the execution was counted.
    pub after: StateView,
    /// The phase after the move.
    pub next: PhaseView,
}

/// The phase after the given moves: the entry node is to run where no move
/// was made, else what the last move arrived at.
pub open spec fn phase_after<N: Node, R: Router>(
    graph: CompiledGraph<N, R>,
    moves: Seq<Move>,
) -> PhaseView {
    if moves.len() == 0 {
        PhaseView::Running(graph.entry())
    } else {
        moves.last().next
    }
}

/// The state after the given moves from the state `start`.
pub open spec fn state_after(moves: Seq<Move>, start: StateView) -> StateView {
    if moves.len() == 0 {
        start
    } else {
        moves.last().after
    }
}

/// The moves are a run of the graph from the state `start`: the first
/// executes the entry node on `start`, each one executes a node of the
/// graph as [`executed_once`] says, and each but the first executes the
/// node that the move before arrived at, on the state that it left.
#[verifier::opaque]
pub open spec fn is_run<N: Node, R: Router>(
    graph: CompiledGraph<N, R>,
    moves: Seq<Move>,
    start: StateView,
) -> bool {
    forall|i: int|
        0 <= i < moves.len() ==> {
            let m = #[trigger] moves[i];
            &&& knows(node_ids(graph.nodes()), m.node)
            &&& executed_once(graph, m.node, m.before, m.reached, m.signal, m.after, m.next)
            &&& phase_after(graph, moves.take(i)) == PhaseView::Running(m.node)
            &&& state_after(moves.take(i), start) == m.before
        }
}

/// How a run ends after the given moves under the ceiling `max`. A run
/// that arrived at the end or at a failure ends there. A run that is to
/// execute another node fails: by exhaustion where the ceiling is reached,
/// else because the graph does not hold the node.
#[verifier::opaque]
pub open spec fn ending<N: Node, R: Router>(
    graph: CompiledGraph<N, R>,
    max: nat,
    moves: Seq<Move>,
) -> Option<Result<(), RunErrorView>> {
    match phase_after(graph, moves) {
        PhaseView::Finished => Some(Ok(())),
        PhaseView::Failed(e) => Some(Err(e)),
        PhaseView::Running(n) => if moves.len() >= max {
            Some(Err(RunErrorView::Exhausted(max)))
        } else if !knows(node_ids(graph.nodes()), n) {
            Some(Err(RunErrorView::NodeNotFound(n)))
        } else {
            None
        },
    }
}

/// The mathematical value of a run's outcome.
pub open spec fn outcome_view(outcome: Result<(), RunError>) -> Result<(), RunErrorView> {
    match outcome {
        Ok(()) => Ok(()),
        Err(e) => Err(e@),
    }
}

/// A run of the graph from the state `start` under the ceiling `max`
/// makes `executed` moves, leaves the state `end` and ends as `outcome`
/// says.
pub open spec fn runs_to<N: Node, R: Router>(
    graph: CompiledGraph<N, R>,
    max: nat,
    start: StateView,
    executed: nat,
    end: StateView,
    outcome: Result<(), RunErrorView>,
) -> bool {
    exists|moves: Seq<Move>|
        {
            &&& #[trigger] is_run(graph, moves, start)
            &&& moves.len() == executed
            &&& end == state_after(moves, start)
            &&& ending(graph, max, moves) == Some(outcome)
        }
}

/// The phase in which the state machine stands after the given moves:
/// the phase that the moves arrived at, or the failure in which the run
/// ends where no further node can execute.
pub open spec fn stands<N: Node, R: Router>(
    graph: CompiledGraph<N, R>,
    max: nat,
    moves: Seq<Move>,
    phase: PhaseView,
) -> bool {
    if phase is Running {
        phase == phase_after(graph, moves)
    } else {
        ending(graph, max, moves) == Some(
            match phase {
                PhaseView::Failed(e) => Err::<(), RunErrorView>(e),
                _ => Ok::<(), RunErrorView>(()),
            },
        )
    }
}

fn arrive(destination: Option<String>) -> (r: Phase)
    ensures
        r@ == arrival(crate::state::opt_text(destination)),
{
    match destination {
        Some(t) => if same_text(t.as_str(), END) {
            Phase::Finished
        } else {
            Phase::Running(t)
        },
        None => Phase::Finished,
    }
}

/// Decides where a run stands after the node `from` has returned `signal`.
pub fn next_phase<N: Node, R: Router>(
    graph: &CompiledGraph<N, R>,
    from: &str,
    signal: Signal,
    state: &WxorcaState,
) -> (r: Phase)
    ensures
        r@ == transition(*graph, from@, signal@, state@),
{
    match signal {
        Signal::Error(e) => {
            if e.kind == NodeErrorKind::StateAccess {
                Phase::Failed(RunError::StateAccess(e.message))
            } else {
                Phase::Failed(RunError::NodeFailed { node_id: from.to_string(), error: e })
            }
        },
        Signal::Finish => arrive(graph.get_routed_node(from, state)),
        Signal::Continue => arrive(graph.get_next_node(from, state)),
    }
}

/// The outcome is a failure by exhaustion.
pub open spec fn exhausted(outcome: Result<(), RunError>) -> bool {
    outcome is Err && outcome->Err_0 is Exhausted
}

/// How a run ended, and how many nodes it executed.
#[derive(Debug)]
pub struct RunReport {
    /// `Ok` where the run finished, else the failure.
    pub outcome: Result<(), RunError>,
    /// The number of node executions.
    pub executed: u32,
}

/// Runs a compiled graph.
pub struct GraphRunner<N: Node, R: Router> {
    graph: CompiledGraph<N, R>,
    config: RunnerConfig,
}

impl<N: Node, R: Router> GraphRunner<N, R> {
    /// The graph that this runner runs.
    pub closed spec fn graph_spec(self) -> CompiledGraph<N, R> {
        self.graph
    }

    /// The configuration of this runner.
    pub closed spec fn config_spec(self) -> RunnerConfig {
        self.config
    }

    /// A runner for the graph with the given configuration.
    pub fn new(graph: CompiledGraph<N, R>, config: RunnerConfig) -> (r: GraphRunner<N, R>)
        ensures
            r.graph_spec() == graph,
            r.config_spec() == config,
    {
        GraphRunner { graph, config }
    }

    /// A runner for the graph with the default configuration.
    pub fn with_defaults(graph: CompiledGraph<N, R>) -> (r: GraphRunner<N, R>)
        ensures
            r.graph_spec() == graph,
            r.config_spec() == (RunnerConfig {
                max_iterations: DEFAULT_MAX_ITERATIONS,
                verbose: false,
            }),
    {
        GraphRunner { graph, config: RunnerConfig::new() }
    }

    /// The graph that this runner runs.
    pub fn graph(&self) -> (r: &CompiledGraph<N, R>)
        ensures
            *r == self.graph_spec(),
    {
        &self.graph
    }

    /// The configuration of this runner.
    pub fn config(&self) -> (r: &RunnerConfig)
        ensures
            *r == self.config_spec(),
    {
        &self.config
    }

    /// Makes one move of the state machine from `Running(current)`, with
    /// `executed` counting the node executions so far. At the ceiling the
    /// run fails with `Exhausted`, and an unknown node fails it with
    /// `NodeNotFound`; in both cases no node runs, and the state and the
    /// count stay as they are. Otherwise the node executes once, the
    /// execution is counted, and the next phase is the [`transition`] for
    /// the signal that the node returned.
    pub fn step(&self, current: &str, executed: &mut u32, state: &mut WxorcaState) -> (r: Phase)
        ensures
            *old(executed) >= self.config_spec().max_iterations ==> {
                &&& r@ == PhaseView::Failed(
                    RunErrorView::Exhausted(self.config_spec().max_iterations as nat),
                )
                &&& *final(state) == *old(state)
                &&& *final(executed) == *old(executed)
            },
            *old(executed) < self.config_spec().max_iterations && !knows(
                node_ids(self.graph_spec().nodes()),
                current@,
            ) ==> {
                &&& r@ == PhaseView::Failed(RunErrorView::NodeNotFound(current@))
                &&& *final(state) == *old(state)
                &&& *final(executed) == *old(executed)
            },
            *old(executed) < self.config_spec().max_iterations && knows(
                node_ids(self.graph_spec().nodes()),
                current@,
            ) ==> {
                &&& *final(executed) == *old(executed) + 1
                &&& evolves(old(state)@, final(state)@)
                &&& exists|reached: StateView, signal: SignalView| #[trigger]
                    executed_once(
                        self.graph_spec(),
                        current@,
                        old(state)@,
                        reached,
                        signal,
                        final(state)@,
                        r@,
                    )
            },
    {
        if *executed >= self.config.max_iterations {
            return Phase::Failed(RunError::Exhausted(self.config.max_iterations));
        }
        match self.graph.get_node(current) {
            None => Phase::Failed(RunError::NodeNotFound(current.to_string())),
            Some(node) => {
                let signal = node.executor.execute(state);
                let ghost reached = state@;
                *executed = *executed + 1;
                if state.iteration < usize::MAX {
                    state.increment_iteration_at(now_millis());
                }
                let r = next_phase(&self.graph, current, signal, state);
                assert(executed_once(
                    self.graph_spec(),
                    current@,
                    old(state)@,
                    reached,
                    signal@,
                    state@,
                    r@,
                ));
                r
            },
        }
    }

    /// Runs the graph on the state from the entry node until the run has
    /// finished or failed. What comes out is what the moves of the state
    /// machine lead to: there is a run of the graph from the state given
    /// that makes as many moves as nodes were executed, leaves the state
    /// that is returned, and ends as the outcome says. No more than the
    /// configured number of nodes execute; a run that would need more
    /// fails with `Exhausted` and the configured ceiling. Under a ceiling
    /// above zero the entry node executes.
    pub fn run(&self, state: &mut WxorcaState) -> (r: RunReport)
        ensures
            r.executed <= self.config_spec().max_iterations,
            evolves(old(state)@, final(state)@),
            runs_to(
                self.graph_spec(),
                self.config_spec().max_iterations as nat,
                old(state)@,
                r.executed as nat,
                final(state)@,
                outcome_view(r.outcome),
            ),
            exhausted(r.outcome) ==> r.outcome == Err::<(), RunError>(
                RunError::Exhausted(self.config_spec().max_iterations),
            ) && r.executed == self.config_spec().max_iterations,
            self.config_spec().max_iterations == 0 ==> exhausted(r.outcome) && *final(state)
                == *old(state),
            self.config_spec().max_iterations > 0 ==> r.executed >= 1,
    {
        let mut phase = Phase::Running(self.graph.entry_point().to_string());
        let mut executed: u32 = 0;
        let ghost mut moves: Seq<Move> = Seq::empty();
        let ghost max = self.config_spec().max_iterations as nat;
        proof {
            reveal(is_run);
            reveal(ending);
        }
        loop
            invariant
                executed <= self.config_spec().max_iterations,
                max == self.config_spec().max_iterations,
                evolves(old(state)@, state@),
                phase is Failed && phase->Failed_0 is Exhausted ==> phase == Phase::Failed(
                    RunError::Exhausted(self.config_spec().max_iterations),
                ) && executed == self.config_spec().max_iterations,
                executed == 0 ==> *state == *old(state),
                self.config_spec().max_iterations == 0 ==> phase is Running || (phase is Failed
                    && phase->Failed_0 is Exhausted),
                knows(node_ids(self.graph_spec().nodes()), self.graph_spec().entry()),
                executed == 0 && self.config_spec().max_iterations > 0 ==> phase is Running
                    && phase->Running_0@ == self.graph_spec().entry(),
                is_run(self.graph_spec(), moves, old(state)@),
                moves.len() == executed,
                state@ == state_after(moves, old(state)@),
                stands(self.graph_spec(), max, moves, phase@),
            decreases
                    (if phase is Running {
                        1 + self.config_spec().max_iterations - executed
                    } else {
                        0
                    }),
        {
            match phase {
                Phase::Finished => {
                    proof {
                        reveal(ending);
                    }
                    return RunReport { outcome: Ok(()), executed };
                },
                Phase::Failed(e) => {
                    proof {
                        reveal(ending);
                    }
                    return RunReport { outcome: Err(e), executed };
                },
                Phase::Running(current) => {
                    let ghost before = state@;
                    let ghost count = executed;
                    let next = self.step(current.as_str(), &mut executed, state);
                    proof {
                        reveal(is_run);
                        reveal(ending);
                        if count < max && knows(node_ids(self.graph_spec().nodes()), current@) {
                            let (reached, signal) = choose|reached: StateView, signal: SignalView|
                                executed_once(
                                    self.graph_spec(),
                                    current@,
                                    before,
                                    reached,
                                    signal,
                                    state@,
                                    next@,
                                );
                            let m = Move {
                                node: current@,
                                before,
                                reached,
                                signal,
                                after: state@,
                                next: next@,
                            };
                            let longer = moves.push(m);
                            assert forall|i: int| 0 <= i < longer.len() implies {
                                let x = #[trigger] longer[i];
                                &&& knows(node_ids(self.graph_spec().nodes()), x.node)
                                &&& executed_once(
                                    self.graph_spec(),
                                    x.node,
                                    x.before,
                                    x.reached,
                                    x.signal,
                                    x.after,
                                    x.next,
                                )
                                &&& phase_after(self.graph_spec(), longer.take(i))
                                    == PhaseView::Running(x.node)
                                &&& state_after(longer.take(i), old(state)@) == x.before
                            } by {
                                if i < moves.len() {
                                    assert(longer[i] == moves[i]);
                                    assert(longer.take(i) =~= moves.take(i));
                                } else {
                                    assert(longer.take(i) =~= moves);
                                }
                            }
                            moves = longer;
                        }
                    }
                    phase = next;
                },
            }
        }
    }

    /// Runs the graph on an initial state and gives the final state, or the
    /// failure. The final state is the one that a run of the graph from
    /// the initial state leaves, and the failure is the one in which such
    /// a run ends.
    pub fn invoke(&self, initial: WxorcaState) -> (r: Result<WxorcaState, RunError>)
        ensures
            match r {
                Ok(s) => evolves(initial@, s@) && exists|executed: nat|
                    executed <= self.config_spec().max_iterations && #[trigger] runs_to(
                        self.graph_spec(),
                        self.config_spec().max_iterations as nat,
                        initial@,
                        executed,
                        s@,
                        Ok(()),
                    ),
                Err(e) => exists|executed: nat, end: StateView|
                    executed <= self.config_spec().max_iterations && #[trigger] runs_to(
                        self.graph_spec(),
                        self.config_spec().max_iterations as nat,
                        initial@,
                        executed,
                        end,
                        Err(e@),
                    ),
            },
            r is Err && r->Err_0 is Exhausted ==> r->Err_0 == RunError::Exhausted(
                self.config_spec().max_iterations,
            ),
            self.config_spec().max_iterations == 0 ==> r is Err && r->Err_0 is Exhausted,
    {
        let mut state = initial;
        let report = self.run(&mut state);
        match report.outcome {
            Ok(()) => {
                assert(runs_to(
                    self.graph_spec(),
                    self.config_spec().max_iterations as nat,
                    initial@,
                    report.executed as nat,
                    state@,
                    Ok(()),
                ));
                Ok(state)
            },
            Err(e) => {
                assert(runs_to(
                    self.graph_spec(),
                    self.config_spec().max_iterations as nat,
                    initial@,
                    report.executed as nat,
                    state@,
                    Err(e@),
                ));
                Err(e)
            },
        }
    }

}

/// The first `k + 1` moves of a run arrive where the move at position
/// `k` arrives, and leave the state that it leaves.
pub proof fn lemma_after_move<N: Node, R: Router>(
    graph: CompiledGraph<N, R>,
    moves: Seq<Move>,
    start: StateView,
    k: int,
)
    requires
        0 <= k < moves.len(),
    ensures
        phase_after(graph, moves.take(k + 1)) == moves[k].next,
        state_after(moves.take(k + 1), start) == moves[k].after,
{
    assert(moves.take(k + 1).last() == moves[k]);
}

/// A run that has ended goes on where its first `k` moves arrive at a
/// node of the graph below the ceiling: it makes a move at position `k`,
/// which executes that node on the state that the first `k` moves leave.
pub proof fn lemma_next_move<N: Node, R: Router>(
    graph: CompiledGraph<N, R>,
    max: nat,
    moves: Seq<Move>,
    start: StateView,
    outcome: Result<(), RunErrorView>,
    k: int,
    node: Seq<char>,
)
    requires
        is_run(graph, moves, start),
        ending(graph, max, moves) == Some(outcome),
        0 <= k <= moves.len(),
        k < max,
        phase_after(graph, moves.take(k)) == PhaseView::Running(node),
        knows(node_ids(graph.nodes()), node),
    ensures
        k < moves.len(),
        moves[k].node == node,
        moves[k].before == state_after(moves.take(k), start),
        executed_once(
            graph,
            node,
            moves[k].before,
            moves[k].reached,
            moves[k].signal,
            moves[k].after,
            moves[k].next,
        ),
{
    reveal(is_run);
    reveal(ending);
    if k == moves.len() {
        assert(moves.take(k) =~= moves);
    }
}

/// A run whose first `k` moves arrive at the end has no further move and
/// ends well.
pub proof fn lemma_run_ends<N: Node, R: Router>(
    graph: CompiledGraph<N, R>,
    max: nat,
    moves: Seq<Move>,
    start: StateView,
    outcome: Result<(), RunErrorView>,
    k: int,
)
    requires
        is_run(graph, moves, start),
        ending(graph, max, moves) == Some(outcome),
        0 <= k <= moves.len(),
        phase_after(graph, moves.take(k)) == PhaseView::Finished,
    ensures
        moves.len() == k,
        outcome == Ok::<(), RunErrorView>(()),
{
    reveal(is_run);
    reveal(ending);
    if k < moves.len() {
        let m = moves[k];
        assert(phase_after(graph, moves.take(k)) == PhaseView::Running(m.node));
    }
    assert(moves.take(k) =~= moves);
}

} // verus!
