//! The graph executor: named nodes that work on a shared state, joined by
//! plain and conditional edges. A run starts at the start node, runs the
//! current node and then takes the first edge, in the order in which the
//! edges were added, that is plain or whose condition holds of the state.
//! The topology is kept in a `petgraph` graph; the nodes and the conditions
//! stand in arenas beside it.
use petgraph::graph::Graph;
use petgraph::visit::EdgeRef;
use petgraph::Directed;
use vstd::prelude::*;

verus! {

/// `petgraph::graph::Graph`; what it holds has the names `topology_nodes`
/// and `topology_edges`.
#[verifier::external_type_specification]
#[verifier::external_body]
#[verifier::reject_recursive_types(N)]
#[verifier::reject_recursive_types(E)]
#[verifier::reject_recursive_types(Ty)]
#[verifier::reject_recursive_types(Ix)]
pub struct ExGraph<N, E, Ty, Ix>(Graph<N, E, Ty, Ix>);

/// `petgraph::Directed`, the marker of graphs with directed edges.
#[verifier::external_type_specification]
#[verifier::external_body]
pub struct ExDirected(Directed);

/// The number of nodes of a topology.
pub uninterp spec fn topology_nodes(g: Graph<(), usize, Directed, u32>) -> nat;

/// The edges of a topology in the order in which they were added, each with
/// its source, its target and its weight. The place of an edge in this list
/// is its index in the graph.
pub uninterp spec fn topology_edges(g: Graph<(), usize, Directed, u32>) -> Seq<(nat, nat, nat)>;

/// Whether `out` lists the edges that leave `from`, each with its index, its
/// target and its weight, the edge that was added last first.
pub open spec fn lists_out_edges(
    edges: Seq<(nat, nat, nat)>,
    from: nat,
    out: Seq<(usize, usize, usize)>,
) -> bool {
    &&& forall|k: int|
        0 <= k < out.len() ==> (#[trigger] out[k]).0 < edges.len() && edges[out[k].0 as int] == (
            from,
            out[k].1 as nat,
            out[k].2 as nat,
        )
    &&& forall|j: int, k: int| 0 <= j < k < out.len() ==> (#[trigger] out[j]).0 > (#[trigger] out[k]).0
    &&& forall|i: int|
        0 <= i < edges.len() && (#[trigger] edges[i]).0 == from ==> exists|k: int|
            0 <= k < out.len() && (#[trigger] out[k]).0 == i
}

/// `Graph::new`: a directed graph without nodes and edges.
#[verifier::external_body]
fn topology_new() -> (g: Graph<(), usize, Directed, u32>)
    ensures
        topology_nodes(g) == 0,
        topology_edges(g) == Seq::<(nat, nat, nat)>::empty(),
{
    Graph::new()
}

/// `Graph::add_node`: the new node gets the next index and the edges stay.
/// The graph panics at its node limit, so the call is for fewer nodes only.
#[verifier::external_body]
fn topology_add_node(g: &mut Graph<(), usize, Directed, u32>) -> (index: usize)
    requires
        topology_nodes(*old(g)) < u32::MAX,
    ensures
        index == topology_nodes(*old(g)),
        topology_nodes(*final(g)) == topology_nodes(*old(g)) + 1,
        topology_edges(*final(g)) == topology_edges(*old(g)),
{
    g.add_node(()).index()
}

/// `Graph::add_edge`: the new edge goes to the end of the edges and the
/// nodes stay. The graph panics where a node does not exist and at its edge
/// limit, so the call is for existing nodes and fewer edges only.
#[verifier::external_body]
fn topology_add_edge(g: &mut Graph<(), usize, Directed, u32>, from: usize, to: usize, weight: usize)
    requires
        from < topology_nodes(*old(g)),
        to < topology_nodes(*old(g)),
        topology_nodes(*old(g)) <= u32::MAX,
        topology_edges(*old(g)).len() < u32::MAX,
    ensures
        topology_nodes(*final(g)) == topology_nodes(*old(g)),
        topology_edges(*final(g)) == topology_edges(*old(g)).push(
            (from as nat, to as nat, weight as nat),
        ),
{
    g.add_edge(petgraph::graph::NodeIndex::new(from), petgraph::graph::NodeIndex::new(to), weight);
}

/// `Graph::edges` of a directed graph: the edges that leave `from`, the most
/// recently added first, each as its index, its target and its weight.
#[verifier::external_body]
fn topology_out_edges(g: &Graph<(), usize, Directed, u32>, from: usize) -> (out: Vec<
    (usize, usize, usize),
>)
    requires
        from < topology_nodes(*g),
        topology_nodes(*g) <= u32::MAX,
    ensures
        lists_out_edges(topology_edges(*g), from as nat, out@),
{
    g.edges(petgraph::graph::NodeIndex::new(from)).map(
        |e| (e.id().index(), e.target().index(), *e.weight()),
    ).collect()
}

/// A state that a graph can work on.
pub trait FunState {

}

/// A state of two texts.
#[derive(Debug, Clone, PartialEq)]
pub struct State {
    pub name: String,
    pub value: String,
}

impl FunState for State {

}

/// A unit of work on the state.
pub trait FunNode<S: FunState> {
    /// What a run may make of the state: `after` is a state that a run on
    /// `before` may leave.
    spec fn effect(&self, before: S, after: S) -> bool;

    /// The name of the node.
    spec fn named(&self) -> &'static str;

    /// The name of the node.
    fn get_name(&self) -> (name: &'static str)
        ensures
            name@ == self.named()@,
    ;

    /// Works on the state. A node takes care of its own faults: the executor
    /// has no channel for errors.
    fn run(&self, state: &mut S)
        ensures
            self.effect(*old(state), *final(state)),
    ;
}

/// The node at which every run starts. It leaves the state as it is.
pub struct StartFunNode;

/// The node at which a run ends. It leaves the state as it is.
pub struct EndFunNode;

impl<S: FunState> FunNode<S> for StartFunNode {
    open spec fn effect(&self, before: S, after: S) -> bool {
        after == before
    }

    open spec fn named(&self) -> &'static str {
        "Start"
    }

    fn get_name(&self) -> &'static str {
        "Start"
    }

    fn run(&self, state: &mut S) {
    }
}

impl<S: FunState> FunNode<S> for EndFunNode {
    open spec fn effect(&self, before: S, after: S) -> bool {
        after == before
    }

    open spec fn named(&self) -> &'static str {
        "End"
    }

    fn get_name(&self) -> &'static str {
        "End"
    }

    fn run(&self, state: &mut S) {
    }
}

/// The guard of a conditional edge: a pure and total test of the state.
pub trait ConditionalEdge<S: FunState> {
    /// Whether the edge may be taken in `state`.
    spec fn holds(&self, state: S) -> bool;

    /// Whether the edge may be taken in `state`.
    fn check(&self, state: &S) -> (taken: bool)
        ensures
            taken == self.holds(*state),
    ;
}

/// The kind of an edge.
#[derive(Debug, Clone, Copy, PartialEq, Eq)]
pub enum FunEdgeType {
    /// Always taken.
    Edge,
    /// Taken where its condition holds of the state.
    ConditionalEdge,
}

/// The handle of a node of a graph.
#[derive(Debug, Clone, Copy, PartialEq, Eq, Hash)]
pub struct NodeIndex {
    index: usize,
}

impl View for NodeIndex {
    type V = nat;

    closed spec fn view(&self) -> nat {
        self.index as nat
    }
}

impl NodeIndex {
    /// The handle of the node at place `index`.
    pub fn new(index: usize) -> (handle: NodeIndex)
        ensures
            handle@ == index,
    {
        NodeIndex { index }
    }

    /// The place of the node.
    pub fn index(&self) -> (index: usize)
        ensures
            index == self@,
    {
        self.index
    }
}

impl<S: FunState, T: FunNode<S> + ?Sized> FunNode<S> for Box<T> {
    open spec fn effect(&self, before: S, after: S) -> bool {
        (**self).effect(before, after)
    }

    open spec fn named(&self) -> &'static str {
        (**self).named()
    }

    fn get_name(&self) -> &'static str {
        (**self).get_name()
    }

    fn run(&self, state: &mut S) {
        (**self).run(state)
    }
}

impl<S: FunState, C: ConditionalEdge<S> + ?Sized> ConditionalEdge<S> for Box<C> {
    open spec fn holds(&self, state: S) -> bool {
        (**self).holds(state)
    }

    fn check(&self, state: &S) -> (taken: bool) {
        (**self).check(state)
    }
}

/// A node of a graph: the start node, the end node, or a node that was added.
pub enum GraphNode<N> {
    Start(StartFunNode),
    End(EndFunNode),
    Node(N),
}

/// A graph over the state `S` with nodes of type `N` and conditions of type
/// `C`. A graph of nodes of several types takes an enum of them, or boxed
/// trait objects, as `N`.
pub struct FunGraph<S: FunState, N: FunNode<S>, C: ConditionalEdge<S>> {
    graph: Graph<(), usize, Directed, u32>,
    nodes: Vec<GraphNode<N>>,
    conditions: Vec<C>,
    start_node_index: NodeIndex,
    end_node_index: NodeIndex,
    state: core::marker::PhantomData<S>,
}

/// One edge of a graph: where it leaves, where it leads, and the place of its
/// condition among the conditions of the graph if it has one.
pub struct EdgeView {
    pub from: nat,
    pub to: nat,
    pub guard: Option<nat>,
}

impl EdgeView {
    /// The kind of the edge.
    pub open spec fn kind(self) -> FunEdgeType {
        match self.guard {
            None => FunEdgeType::Edge,
            Some(_) => FunEdgeType::ConditionalEdge,
        }
    }
}

/// Why a run halted.
#[derive(Debug, Clone, Copy, PartialEq, Eq)]
pub enum Halt {
    /// The end node was run.
    ReachedEnd,
    /// The node that was run is not the end node and has no edge that can be
    /// taken. This is no error, but it is told apart from `ReachedEnd`.
    DeadEnd,
    /// The limit of steps was reached before the run came to a halt.
    StepLimit,
}

/// What a run leaves.
#[derive(Debug)]
pub struct RunReport<S> {
    /// The state after the last node that was run.
    pub state: S,
    pub halt: Halt,
    /// The node that was run last; at the step limit, the node that would
    /// have been run next.
    pub node: NodeIndex,
    /// The number of nodes that were run.
    pub steps: usize,
}

/// The most nodes and the most edges that a graph can hold.
pub const GRAPH_LIMIT: usize = 0xffff_fffe;

impl<S: FunState, N: FunNode<S>, C: ConditionalEdge<S>> FunGraph<S, N, C> {
    /// The number of nodes.
    pub closed spec fn node_count(&self) -> nat {
        topology_nodes(self.graph)
    }

    /// The number of conditions.
    pub closed spec fn condition_count(&self) -> nat {
        self.conditions@.len()
    }

    /// The edges in the order in which they were added.
    pub closed spec fn edges(&self) -> Seq<EdgeView> {
        Seq::new(
            topology_edges(self.graph).len(),
            |i: int|
                EdgeView {
                    from: topology_edges(self.graph)[i].0,
                    to: topology_edges(self.graph)[i].1,
                    guard: if topology_edges(self.graph)[i].2 == 0 {
                        None
                    } else {
                        Some((topology_edges(self.graph)[i].2 - 1) as nat)
                    },
                },
        )
    }

    /// The start node.
    pub closed spec fn start(&self) -> nat {
        self.start_node_index@
    }

    /// The end node.
    pub closed spec fn end(&self) -> nat {
        self.end_node_index@
    }

    /// Whether the condition at place `guard` holds of `state`.
    pub closed spec fn condition_holds(&self, guard: nat, state: S) -> bool {
        self.conditions@[guard as int].holds(state)
    }

    /// The name of the node `at`.
    pub closed spec fn node_named(&self, at: nat) -> Seq<char> {
        match self.nodes@[at as int] {
            GraphNode::Start(_) => "Start"@,
            GraphNode::End(_) => "End"@,
            GraphNode::Node(node) => node.named()@,
        }
    }

    /// Whether a run of the node `at` may turn `before` into `after`.
    pub closed spec fn node_effect(&self, at: nat, before: S, after: S) -> bool {
        match self.nodes@[at as int] {
            GraphNode::Start(_) => after == before,
            GraphNode::End(_) => after == before,
            GraphNode::Node(node) => node.effect(before, after),
        }
    }

    /// The invariant of a graph: the start node and the end node are its
    /// first two nodes, every edge joins nodes of the graph, no edge leaves
    /// the end node, and every guard is a condition of the graph.
    pub closed spec fn well_formed(&self) -> bool {
        &&& self.nodes@.len() == topology_nodes(self.graph)
        &&& 2 <= topology_nodes(self.graph) <= u32::MAX
        &&& topology_edges(self.graph).len() <= u32::MAX
        &&& self.start_node_index@ == 0
        &&& self.end_node_index@ == 1
        &&& self.nodes@[0] is Start
        &&& self.nodes@[1] is End
        &&& forall|i: int|
            0 <= i < topology_edges(self.graph).len() ==> {
                &&& (#[trigger] topology_edges(self.graph)[i]).0 < topology_nodes(self.graph)
                &&& topology_edges(self.graph)[i].0 != 1
                &&& topology_edges(self.graph)[i].1 < topology_nodes(self.graph)
                &&& topology_edges(self.graph)[i].2 <= self.conditions@.len()
            }
    }

    /// Whether the edge `edge` can be taken in `state`.
    pub open spec fn enabled(&self, edge: EdgeView, state: S) -> bool {
        match edge.guard {
            None => true,
            Some(guard) => self.condition_holds(guard, state),
        }
    }

    /// The target of the first edge from place `lo` on that leaves `at` and
    /// can be taken in `state`.
    pub open spec fn first_enabled(&self, at: nat, state: S, lo: int) -> Option<nat>
        decreases self.edges().len() - lo,
    {
        if lo < 0 || lo >= self.edges().len() {
            None
        } else if self.edges()[lo].from == at && self.enabled(self.edges()[lo], state) {
            Some(self.edges()[lo].to)
        } else {
            self.first_enabled(at, state, lo + 1)
        }
    }

    /// The node that follows `at` when a run of `at` has left `state`: the
    /// target of the first edge, in the order in which the edges were added,
    /// that leaves `at` and is plain or has a condition that holds.
    pub open spec fn next_node(&self, at: nat, state: S) -> Option<nat> {
        self.first_enabled(at, state, 0)
    }

    /// Whether `path` and `states` are a run from `initial`: `path` lists
    /// the nodes that are run, from the start node on; `states` lists the
    /// state before the first node and after each; each node leaves a state
    /// that it may leave; no node but the last is the end node; and each node
    /// but the first is the one that follows the node before it.
    pub open spec fn is_run(&self, initial: S, path: Seq<nat>, states: Seq<S>) -> bool {
        &&& states.len() == path.len() + 1
        &&& states[0] == initial
        &&& path.len() > 0 ==> path[0] == self.start()
        &&& forall|i: int|
            0 <= i < path.len() ==> (#[trigger] path[i]) < self.node_count() && self.node_effect(
                path[i],
                states[i],
                states[i + 1],
            )
        &&& forall|i: int|
            0 <= i < path.len() - 1 ==> (#[trigger] path[i]) != self.end() && self.next_node(
                path[i],
                states[i + 1],
            ) == Some(path[i + 1])
    }

    /// The node that a run is at after `path`: the node that follows the
    /// last one, or the start node where nothing was run yet.
    pub open spec fn run_position(&self, path: Seq<nat>, states: Seq<S>) -> Option<nat> {
        if path.len() == 0 {
            Some(self.start())
        } else if path.last() == self.end() {
            None
        } else {
            self.next_node(path.last(), states.last())
        }
    }

    /// Whether a run that has come as far as `path` and `states` halts with
    /// `halt` at `node`.
    pub open spec fn halts_at(&self, path: Seq<nat>, states: Seq<S>, halt: Halt, node: nat) -> bool {
        match halt {
            Halt::ReachedEnd => path.len() > 0 && path.last() == self.end() && node == self.end(),
            Halt::DeadEnd => path.len() > 0 && path.last() != self.end() && node == path.last()
                && self.next_node(path.last(), states.last()) is None,
            Halt::StepLimit => self.run_position(path, states) == Some(node),
        }
    }

    /// Whether `report` is what a run from `initial` with at most
    /// `max_steps` steps may leave.
    pub open spec fn is_report(&self, initial: S, max_steps: usize, report: RunReport<S>) -> bool {
        exists|path: Seq<nat>, states: Seq<S>|
            {
                &&& #[trigger] self.is_run(initial, path, states)
                &&& path.len() == report.steps
                &&& states.last() == report.state
                &&& self.halts_at(path, states, report.halt, report.node@)
                &&& report.steps <= max_steps
                &&& report.halt is StepLimit ==> report.steps == max_steps
            }
    }

    /// A graph that holds the start node and the end node, and no edge.
    pub fn new() -> (graph: FunGraph<S, N, C>)
        ensures
            graph.well_formed(),
            graph.node_count() == 2,
            graph.edges() == Seq::<EdgeView>::empty(),
            graph.condition_count() == 0,
            graph.start() == 0,
            graph.end() == 1,
    {
        let mut topology = topology_new();
        let start = topology_add_node(&mut topology);
        let end = topology_add_node(&mut topology);
        let mut nodes: Vec<GraphNode<N>> = Vec::new();
        nodes.push(GraphNode::Start(StartFunNode));
        nodes.push(GraphNode::End(EndFunNode));
        let graph = FunGraph {
            graph: topology,
            nodes,
            conditions: Vec::new(),
            start_node_index: NodeIndex::new(start),
            end_node_index: NodeIndex::new(end),
            state: core::marker::PhantomData,
        };
        assert(graph.edges() =~= Seq::<EdgeView>::empty());
        graph
    }

    /// The number of nodes, the start node and the end node included.
    pub fn count_nodes(&self) -> (count: usize)
        requires
            self.well_formed(),
        ensures
            count == self.node_count(),
    {
        self.nodes.len()
    }

    /// The name of the node `index`.
    pub fn node_name(&self, index: NodeIndex) -> (name: &'static str)
        requires
            self.well_formed(),
            index@ < self.node_count(),
        ensures
            name@ == self.node_named(index@),
            index@ == self.start() ==> name@ == "Start"@,
            index@ == self.end() ==> name@ == "End"@,
    {
        match &self.nodes[index.index()] {
            GraphNode::Start(_) => "Start",
            GraphNode::End(_) => "End",
            GraphNode::Node(node) => node.get_name(),
        }
    }

    /// Adds a node and returns its handle.
    pub fn add_node(&mut self, node: N) -> (index: NodeIndex)
        requires
            old(self).well_formed(),
            old(self).node_count() < GRAPH_LIMIT,
        ensures
            final(self).well_formed(),
            index@ == old(self).node_count(),
            final(self).node_count() == old(self).node_count() + 1,
            final(self).edges() == old(self).edges(),
            final(self).start() == old(self).start(),
            final(self).end() == old(self).end(),
            final(self).condition_count() == old(self).condition_count(),
            forall|guard: nat, state: S|
                guard < old(self).condition_count() ==> final(self).condition_holds(guard, state)
                    == old(self).condition_holds(guard, state),
            forall|at: nat, before: S, after: S|
                at < old(self).node_count() ==> final(self).node_effect(at, before, after) == old(
                    self,
                ).node_effect(at, before, after),
            forall|before: S, after: S|
                final(self).node_effect(index@, before, after) == node.effect(before, after),
            forall|at: nat|
                at < old(self).node_count() ==> final(self).node_named(at) == old(self).node_named(
                    at,
                ),
            final(self).node_named(index@) == node.named()@,
    {
        let index = topology_add_node(&mut self.graph);
        self.nodes.push(GraphNode::Node(node));
        assert(self.edges() =~= old(self).edges());
        NodeIndex::new(index)
    }

    /// Adds an edge with the weight `weight` to the topology.
    fn add_raw_edge(&mut self, from: NodeIndex, to: NodeIndex, weight: usize)
        requires
            old(self).well_formed(),
            from@ < old(self).node_count(),
            to@ < old(self).node_count(),
            from@ != old(self).end(),
            old(self).edges().len() < GRAPH_LIMIT,
            weight <= old(self).condition_count(),
        ensures
            final(self).well_formed(),
            final(self).node_count() == old(self).node_count(),
            final(self).edges() == old(self).edges().push(
                EdgeView {
                    from: from@,
                    to: to@,
                    guard: if weight == 0 {
                        None
                    } else {
                        Some((weight - 1) as nat)
                    },
                },
            ),
            final(self).start() == old(self).start(),
            final(self).end() == old(self).end(),
            final(self).nodes == old(self).nodes,
            final(self).conditions == old(self).conditions,
    {
        topology_add_edge(&mut self.graph, from.index(), to.index(), weight);
        assert(self.edges() =~= old(self).edges().push(
            EdgeView {
                from: from@,
                to: to@,
                guard: if weight == 0 {
                    None
                } else {
                    Some((weight - 1) as nat)
                },
            },
        ));
    }

    /// Adds a plain edge from `from` to `to`.
    pub fn add_edge(&mut self, from: NodeIndex, to: NodeIndex)
        requires
            old(self).well_formed(),
            from@ < old(self).node_count(),
            to@ < old(self).node_count(),
            from@ != old(self).end(),
            old(self).edges().len() < GRAPH_LIMIT,
        ensures
            final(self).well_formed(),
            final(self).node_count() == old(self).node_count(),
            final(self).edges() == old(self).edges().push(
                EdgeView { from: from@, to: to@, guard: None },
            ),
            final(self).start() == old(self).start(),
            final(self).end() == old(self).end(),
            final(self).condition_count() == old(self).condition_count(),
            forall|guard: nat, state: S|
                final(self).condition_holds(guard, state) == old(self).condition_holds(
                    guard,
                    state,
                ),
            forall|at: nat, before: S, after: S|
                final(self).node_effect(at, before, after) == old(self).node_effect(
                    at,
                    before,
                    after,
                ),
    {
        self.add_raw_edge(from, to, 0);
    }

    /// Adds a plain edge from the start node to `to`.
    pub fn add_start_edge(&mut self, to: NodeIndex)
        requires
            old(self).well_formed(),
            to@ < old(self).node_count(),
            old(self).edges().len() < GRAPH_LIMIT,
        ensures
            final(self).well_formed(),
            final(self).node_count() == old(self).node_count(),
            final(self).edges() == old(self).edges().push(
                EdgeView { from: old(self).start(), to: to@, guard: None },
            ),
            final(self).start() == old(self).start(),
            final(self).end() == old(self).end(),
            final(self).condition_count() == old(self).condition_count(),
            forall|guard: nat, state: S|
                final(self).condition_holds(guard, state) == old(self).condition_holds(
                    guard,
                    state,
                ),
            forall|at: nat, before: S, after: S|
                final(self).node_effect(at, before, after) == old(self).node_effect(
                    at,
                    before,
                    after,
                ),
    {
        let start = self.start_node_index;
        self.add_raw_edge(start, to, 0);
    }

    /// Adds a plain edge from `from` to the end node.
    pub fn add_end_edge(&mut self, from: NodeIndex)
        requires
            old(self).well_formed(),
            from@ < old(self).node_count(),
            from@ != old(self).end(),
            old(self).edges().len() < GRAPH_LIMIT,
        ensures
            final(self).well_formed(),
            final(self).node_count() == old(self).node_count(),
            final(self).edges() == old(self).edges().push(
                EdgeView { from: from@, to: old(self).end(), guard: None },
            ),
            final(self).start() == old(self).start(),
            final(self).end() == old(self).end(),
            final(self).condition_count() == old(self).condition_count(),
            forall|guard: nat, state: S|
                final(self).condition_holds(guard, state) == old(self).condition_holds(
                    guard,
                    state,
                ),
            forall|at: nat, before: S, after: S|
                final(self).node_effect(at, before, after) == old(self).node_effect(
                    at,
                    before,
                    after,
                ),
    {
        let end = self.end_node_index;
        self.add_raw_edge(from, end, 0);
    }

    /// Adds an edge from `from` to `to` that is taken where `condition`
    /// holds of the state.
    pub fn add_conditional_edge(
        &mut self,
        from: NodeIndex,
        to: NodeIndex,
        condition: C,
    )
        requires
            old(self).well_formed(),
            from@ < old(self).node_count(),
            to@ < old(self).node_count(),
            from@ != old(self).end(),
            old(self).edges().len() < GRAPH_LIMIT,
            old(self).condition_count() < GRAPH_LIMIT,
        ensures
            final(self).well_formed(),
            final(self).node_count() == old(self).node_count(),
            final(self).edges() == old(self).edges().push(
                EdgeView { from: from@, to: to@, guard: Some(old(self).condition_count()) },
            ),
            final(self).start() == old(self).start(),
            final(self).end() == old(self).end(),
            final(self).condition_count() == old(self).condition_count() + 1,
            forall|guard: nat, state: S|
                guard < old(self).condition_count() ==> final(self).condition_holds(guard, state)
                    == old(self).condition_holds(guard, state),
            forall|state: S|
                final(self).condition_holds(old(self).condition_count(), state)
                    == condition.holds(state),
            forall|at: nat, before: S, after: S|
                final(self).node_effect(at, before, after) == old(self).node_effect(
                    at,
                    before,
                    after,
                ),
    {
        self.conditions.push(condition);
        let weight = self.conditions.len();
        assert(self.edges() =~= old(self).edges());
        self.add_raw_edge(from, to, weight);
    }

    /// Adds an edge from `from` to the end node that is taken where
    /// `condition` holds of the state.
    pub fn add_conditional_end_edge(
        &mut self,
        from: NodeIndex,
        condition: C,
    )
        requires
            old(self).well_formed(),
            from@ < old(self).node_count(),
            from@ != old(self).end(),
            old(self).edges().len() < GRAPH_LIMIT,
            old(self).condition_count() < GRAPH_LIMIT,
        ensures
            final(self).well_formed(),
            final(self).node_count() == old(self).node_count(),
            final(self).edges() == old(self).edges().push(
                EdgeView {
                    from: from@,
                    to: old(self).end(),
                    guard: Some(old(self).condition_count()),
                },
            ),
            final(self).start() == old(self).start(),
            final(self).end() == old(self).end(),
            final(self).condition_count() == old(self).condition_count() + 1,
            forall|guard: nat, state: S|
                guard < old(self).condition_count() ==> final(self).condition_holds(guard, state)
                    == old(self).condition_holds(guard, state),
            forall|state: S|
                final(self).condition_holds(old(self).condition_count(), state)
                    == condition.holds(state),
            forall|at: nat, before: S, after: S|
                final(self).node_effect(at, before, after) == old(self).node_effect(
                    at,
                    before,
                    after,
                ),
    {
        let end = self.end_node_index;
        self.add_conditional_edge(from, end, condition);
    }

    /// The handle of the start node.
    pub fn get_start_node_index(&self) -> (index: NodeIndex)
        ensures
            index@ == self.start(),
    {
        self.start_node_index
    }

    /// Whether `node_index` is the end node.
    pub fn is_end_node(&self, node_index: NodeIndex) -> (yes: bool)
        ensures
            yes == (node_index@ == self.end()),
    {
        node_index.index() == self.end_node_index.index()
    }

    /// Where no edge from place `lo` on leaves `at` and can be taken, no
    /// node follows from there.
    pub proof fn lemma_no_enabled_edge(&self, at: nat, state: S, lo: int)
        requires
            0 <= lo,
            forall|i: int|
                lo <= i < self.edges().len() ==> !((#[trigger] self.edges()[i]).from == at
                    && self.enabled(self.edges()[i], state)),
        ensures
            self.first_enabled(at, state, lo) is None,
        decreases self.edges().len() - lo,
    {
        if lo < self.edges().len() {
            self.lemma_no_enabled_edge(at, state, lo + 1);
        }
    }

    /// The first edge that leaves a node and can be taken is the edge that
    /// is taken, whatever edges were added after it.
    pub proof fn lemma_first_enabled_edge_is_taken(&self, at: nat, state: S, lo: int, place: int)
        requires
            0 <= lo <= place < self.edges().len(),
            self.edges()[place].from == at,
            self.enabled(self.edges()[place], state),
            forall|i: int|
                lo <= i < place ==> !((#[trigger] self.edges()[i]).from == at && self.enabled(
                    self.edges()[i],
                    state,
                )),
        ensures
            self.first_enabled(at, state, lo) == Some(self.edges()[place].to),
        decreases place - lo,
    {
        if lo < place {
            self.lemma_first_enabled_edge_is_taken(at, state, lo + 1, place);
        }
    }

    /// A plain edge is taken before every edge that was added after it for
    /// the same node: where no edge before it can be taken, a run goes along
    /// the plain edge, whatever the conditions of the later edges say.
    pub proof fn lemma_plain_edge_has_priority(&self, at: nat, state: S, place: int)
        requires
            0 <= place < self.edges().len(),
            self.edges()[place].from == at,
            self.edges()[place].guard is None,
            forall|i: int|
                0 <= i < place ==> !((#[trigger] self.edges()[i]).from == at && self.enabled(
                    self.edges()[i],
                    state,
                )),
        ensures
            self.next_node(at, state) == Some(self.edges()[place].to),
    {
        self.lemma_first_enabled_edge_is_taken(at, state, 0, place);
    }

    /// The node that follows `current_node` in `state`: the target of the
    /// first edge, in the order in which the edges were added, that leaves it
    /// and is plain or has a condition that holds of `state`.
    pub fn get_next_node_index(&self, current_node: NodeIndex, state: &S) -> (next: Option<
        NodeIndex,
    >)
        requires
            self.well_formed(),
            current_node@ < self.node_count(),
        ensures
            match next {
                Some(node) => self.next_node(current_node@, *state) == Some(node@) && node@
                    < self.node_count(),
                None => self.next_node(current_node@, *state) is None,
            },
    {
        let out = topology_out_edges(&self.graph, current_node.index());
        let ghost raw = topology_edges(self.graph);
        let ghost at = current_node@;
        let mut k: usize = out.len();
        while k > 0
            invariant
                self.well_formed(),
                k <= out.len(),
                raw == topology_edges(self.graph),
                at == current_node@,
                lists_out_edges(raw, at, out@),
                forall|j: int|
                    k <= j < out.len() ==> !self.enabled(
                        self.edges()[(#[trigger] out@[j]).0 as int],
                        *state,
                    ),
            decreases k,
        {
            k -= 1;
            let (place, target, weight) = out[k];
            assert(out@[k as int] == (place, target, weight));
            assert(raw[place as int] == (at, target as nat, weight as nat));
            let ghost edge = self.edges()[place as int];
            assert(edge.from == at && edge.to == target);
            let taken = if weight == 0 {
                true
            } else {
                self.conditions[weight - 1].check(state)
            };
            assert(taken == self.enabled(edge, *state));
            if taken {
                proof {
                    assert forall|i: int| 0 <= i < place implies !((#[trigger] self.edges()[i]).from
                        == at && self.enabled(self.edges()[i], *state)) by {
                        if self.edges()[i].from == at {
                            assert(raw[i].0 == at);
                            let j = choose|j: int| 0 <= j < out@.len() && (#[trigger] out@[j]).0 == i;
                            if j <= k {
                                if j < k {
                                    assert(out@[j].0 > out@[k as int].0);
                                }
                            }
                            assert(j > k);
                        }
                    }
                    self.lemma_first_enabled_edge_is_taken(at, *state, 0, place as int);
                }
                return Some(NodeIndex::new(target));
            }
        }
        proof {
            assert forall|i: int| 0 <= i < self.edges().len() implies !((#[trigger] self.edges()[i]).from
                == at && self.enabled(self.edges()[i], *state)) by {
                if self.edges()[i].from == at {
                    assert(raw[i].0 == at);
                    let j = choose|j: int| 0 <= j < out@.len() && (#[trigger] out@[j]).0 == i;
                    assert(!self.enabled(self.edges()[out@[j].0 as int], *state));
                }
            }
            self.lemma_no_enabled_edge(at, *state, 0);
        }
        None
    }

    /// Runs the node `at` on `state`.
    fn run_node(&self, at: NodeIndex, state: &mut S)
        requires
            self.well_formed(),
            at@ < self.node_count(),
        ensures
            self.node_effect(at@, *old(state), *final(state)),
    {
        match &self.nodes[at.index()] {
            GraphNode::Start(node) => node.run(state),
            GraphNode::End(node) => node.run(state),
            GraphNode::Node(node) => node.run(state),
        }
    }

    /// One step of a run: runs `current_node` on `state` and says which node
    /// follows, if one does.
    pub fn run_step(&self, current_node: NodeIndex, state: S) -> (step: (Option<NodeIndex>, S))
        requires
            self.well_formed(),
            current_node@ < self.node_count(),
        ensures
            self.node_effect(current_node@, state, step.1),
            match step.0 {
                Some(node) => self.next_node(current_node@, step.1) == Some(node@) && node@
                    < self.node_count(),
                None => self.next_node(current_node@, step.1) is None,
            },
    {
        let mut state = state;
        self.run_node(current_node, &mut state);
        let next = self.get_next_node_index(current_node, &state);
        (next, state)
    }

    /// Runs the graph on `state` for at most `max_steps` steps. The run
    /// starts at the start node. It halts when the end node has been run, or
    /// when the node that has been run has no edge that can be taken; the
    /// state is then the one that this node left.
    pub fn run_with_limit(&self, state: S, max_steps: usize) -> (report: RunReport<S>)
        requires
            self.well_formed(),
        ensures
            self.is_report(state, max_steps, report),
    {
        let mut current = self.start_node_index;
        let mut current_state = state;
        let mut steps: usize = 0;
        let ghost mut path: Seq<nat> = Seq::empty();
        let ghost mut states: Seq<S> = seq![state];
        while steps < max_steps
            invariant
                self.well_formed(),
                self.is_run(state, path, states),
                path.len() == steps,
                states.last() == current_state,
                self.run_position(path, states) == Some(current@),
                current@ < self.node_count(),
                steps <= max_steps,
            decreases max_steps - steps,
        {
            let ghost before = current_state;
            let ghost old_path = path;
            let ghost old_states = states;
            self.run_node(current, &mut current_state);
            proof {
                path = path.push(current@);
                states = states.push(current_state);
                assert(forall|i: int| 0 <= i < old_path.len() ==> path[i] == old_path[i]);
                assert(forall|i: int| 0 <= i < old_states.len() ==> states[i] == old_states[i]);
                assert(self.is_run(state, path, states));
            }
            steps += 1;
            if self.is_end_node(current) {
                let report = RunReport {
                    state: current_state,
                    halt: Halt::ReachedEnd,
                    node: current,
                    steps,
                };
                assert(self.halts_at(path, states, report.halt, report.node@));
                return report;
            }
            match self.get_next_node_index(current, &current_state) {
                Some(node) => {
                    current = node;
                },
                None => {
                    let report = RunReport {
                        state: current_state,
                        halt: Halt::DeadEnd,
                        node: current,
                        steps,
                    };
                    assert(self.halts_at(path, states, report.halt, report.node@));
                    return report;
                },
            }
        }
        let report = RunReport { state: current_state, halt: Halt::StepLimit, node: current, steps };
        assert(self.halts_at(path, states, report.halt, report.node@));
        report
    }

    /// Runs the graph on `state` until it halts and returns the state that
    /// the run leaves. A run that does not come to a halt is cut off after
    /// `usize::MAX` steps. The state alone does not tell a run that reached
    /// the end node from one that came to a dead end: `run_with_limit` does.
    pub fn run(&self, state: S) -> (last: S)
        requires
            self.well_formed(),
        ensures
            exists|report: RunReport<S>|
                #[trigger] self.is_report(state, usize::MAX, report) && report.state == last,
    {
        let report = self.run_with_limit(state, usize::MAX);
        report.state
    }
}

/// A graph in the making: nodes, and edges with a label each.
pub struct FunGraphBuilder<N> {
    graph: Graph<(), usize, Directed, u32>,
    nodes: Vec<N>,
    labels: Vec<String>,
}

impl<N> FunGraphBuilder<N> {
    /// The nodes, in the order in which they were added.
    pub closed spec fn nodes(&self) -> Seq<N> {
        self.nodes@
    }

    /// The edges in the order in which they were added, each with its
    /// source, its target and its label.
    pub closed spec fn edges(&self) -> Seq<(nat, nat, Seq<char>)> {
        Seq::new(
            topology_edges(self.graph).len(),
            |i: int|
                (
                    topology_edges(self.graph)[i].0,
                    topology_edges(self.graph)[i].1,
                    self.labels@[i]@,
                ),
        )
    }

    /// The invariant of a builder: every edge joins nodes of the graph and
    /// has its label.
    pub closed spec fn well_formed(&self) -> bool {
        &&& self.nodes@.len() == topology_nodes(self.graph)
        &&& topology_nodes(self.graph) <= u32::MAX
        &&& self.labels@.len() == topology_edges(self.graph).len()
        &&& topology_edges(self.graph).len() <= u32::MAX
    }

    /// A builder without nodes and edges.
    pub fn new() -> (builder: FunGraphBuilder<N>)
        ensures
            builder.well_formed(),
            builder.nodes() == Seq::<N>::empty(),
            builder.edges() == Seq::<(nat, nat, Seq<char>)>::empty(),
    {
        let builder = FunGraphBuilder { graph: topology_new(), nodes: Vec::new(), labels: Vec::new() };
        assert(builder.edges() =~= Seq::<(nat, nat, Seq<char>)>::empty());
        builder
    }

    /// Adds a node and returns its handle.
    pub fn add_node(&mut self, node: N) -> (index: NodeIndex)
        requires
            old(self).well_formed(),
            old(self).nodes().len() < GRAPH_LIMIT,
        ensures
            final(self).well_formed(),
            index@ == old(self).nodes().len(),
            final(self).nodes() == old(self).nodes().push(node),
            final(self).edges() == old(self).edges(),
    {
        let index = topology_add_node(&mut self.graph);
        self.nodes.push(node);
        assert(self.edges() =~= old(self).edges());
        NodeIndex::new(index)
    }

    /// Adds an edge from `from` to `to` with the label `edge`.
    pub fn add_edge(&mut self, from: NodeIndex, to: NodeIndex, edge: String)
        requires
            old(self).well_formed(),
            from@ < old(self).nodes().len(),
            to@ < old(self).nodes().len(),
            old(self).edges().len() < GRAPH_LIMIT,
        ensures
            final(self).well_formed(),
            final(self).nodes() == old(self).nodes(),
            final(self).edges() == old(self).edges().push((from@, to@, edge@)),
    {
        topology_add_edge(&mut self.graph, from.index(), to.index(), 0);
        self.labels.push(edge);
        assert(self.edges() =~= old(self).edges().push((from@, to@, edge@)));
    }

    /// The number of nodes.
    pub fn count_nodes(&self) -> (count: usize)
        ensures
            count == self.nodes().len(),
    {
        self.nodes.len()
    }

    /// The number of edges.
    pub fn count_edges(&self) -> (count: usize)
        ensures
            self.well_formed() ==> count == self.edges().len(),
    {
        self.labels.len()
    }
}

} // verus!
