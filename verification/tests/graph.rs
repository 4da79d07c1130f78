use fungraph::node::{
    ConditionalEdge, EndFunNode, FunGraph, FunNode, FunState, Halt, NodeIndex, StartFunNode, State,
};

#[derive(Debug)]
struct MyState {}

impl FunState for MyState {}

struct Never;

impl ConditionalEdge<MyState> for Never {
    fn holds(&self, state: MyState) -> bool {
        self.check(&state)
    }

    fn check(&self, _state: &MyState) -> bool {
        false
    }
}

struct Always;

impl ConditionalEdge<MyState> for Always {
    fn holds(&self, state: MyState) -> bool {
        self.check(&state)
    }

    fn check(&self, _state: &MyState) -> bool {
        true
    }
}

#[test]
fn test_loop_graph() {
    let node1 = StartFunNode {};
    let node2 = StartFunNode {};
    let mut graph: FunGraph<MyState, StartFunNode, Box<dyn ConditionalEdge<MyState>>> =
        FunGraph::new();
    let i_1 = graph.add_node(node1);
    let i_2 = graph.add_node(node2);
    graph.add_start_edge(i_1);
    graph.add_conditional_edge(i_1, i_2, Box::new(Never));
    graph.add_edge(i_2, i_1);
    graph.add_conditional_end_edge(i_1, Box::new(Always));

    graph.run(MyState {});
    assert_eq!(graph.count_nodes(), 4);
}

struct SetValue {
    value: &'static str,
}

impl FunNode<State> for SetValue {
    fn effect(&self, _before: State, after: State) -> bool {
        after.value == self.value
    }

    fn named(&self) -> &'static str {
        self.get_name()
    }

    fn get_name(&self) -> &'static str {
        "A"
    }

    fn run(&self, state: &mut State) {
        state.value = self.value.to_string();
    }
}

struct ValueIs {
    wanted: &'static str,
}

impl ConditionalEdge<State> for ValueIs {
    fn holds(&self, state: State) -> bool {
        self.check(&state)
    }

    fn check(&self, state: &State) -> bool {
        state.value == self.wanted
    }
}

fn blank() -> State {
    State {
        name: "s".to_string(),
        value: String::new(),
    }
}

#[test]
fn a_single_node_sets_the_value() {
    let mut graph: FunGraph<State, SetValue, ValueIs> = FunGraph::new();
    let a = graph.add_node(SetValue { value: "x" });
    graph.add_start_edge(a);
    graph.add_end_edge(a);
    let out = graph.run(blank());
    assert_eq!(out.value, "x");
    assert_eq!(out.name, "s");
    let report = graph.run_with_limit(blank(), 10);
    assert_eq!(report.halt, Halt::ReachedEnd);
    assert_eq!(report.steps, 3);
    assert_eq!(report.state.value, "x");
    assert!(graph.is_end_node(report.node));
}

struct Append {
    piece: &'static str,
}

impl FunNode<State> for Append {
    fn effect(&self, before: State, after: State) -> bool {
        after.value == format!("{}{}", before.value, self.piece)
    }

    fn named(&self) -> &'static str {
        self.get_name()
    }

    fn get_name(&self) -> &'static str {
        "Append"
    }

    fn run(&self, state: &mut State) {
        state.value.push_str(self.piece);
    }
}

struct LongerThan {
    len: usize,
}

impl ConditionalEdge<State> for LongerThan {
    fn holds(&self, state: State) -> bool {
        self.check(&state)
    }

    fn check(&self, state: &State) -> bool {
        state.value.len() > self.len
    }
}

struct Not<C> {
    inner: C,
}

impl<C: ConditionalEdge<State>> ConditionalEdge<State> for Not<C> {
    fn holds(&self, state: State) -> bool {
        self.check(&state)
    }

    fn check(&self, state: &State) -> bool {
        !self.inner.check(state)
    }
}

#[test]
fn a_loop_runs_until_the_condition_holds() {
    let mut graph: FunGraph<State, Append, Box<dyn ConditionalEdge<State>>> = FunGraph::new();
    let a = graph.add_node(Append { piece: "a" });
    let b = graph.add_node(Append { piece: "" });
    graph.add_start_edge(a);
    graph.add_conditional_edge(a, b, Box::new(Not { inner: LongerThan { len: 2 } }));
    graph.add_conditional_end_edge(a, Box::new(LongerThan { len: 2 }));
    graph.add_edge(b, a);
    let report = graph.run_with_limit(blank(), 100);
    assert_eq!(report.halt, Halt::ReachedEnd);
    assert_eq!(report.state.value, "aaa");
    // start, then A B A B A, then end
    assert_eq!(report.steps, 7);
}

#[test]
fn plain_edge_wins_over_a_later_conditional_edge() {
    let mut graph: FunGraph<State, SetValue, ValueIs> = FunGraph::new();
    let a = graph.add_node(SetValue { value: "x" });
    let plain = graph.add_node(SetValue { value: "plain" });
    let guarded = graph.add_node(SetValue { value: "guarded" });
    graph.add_start_edge(a);
    graph.add_edge(a, plain);
    graph.add_conditional_edge(a, guarded, ValueIs { wanted: "x" });
    graph.add_end_edge(plain);
    graph.add_end_edge(guarded);
    let state = State {
        name: String::new(),
        value: "x".to_string(),
    };
    assert_eq!(graph.get_next_node_index(a, &state), Some(plain));
    assert_eq!(graph.run(blank()).value, "plain");
}

#[test]
fn edges_are_tried_in_the_order_in_which_they_were_added() {
    let mut graph: FunGraph<State, SetValue, ValueIs> = FunGraph::new();
    let a = graph.add_node(SetValue { value: "x" });
    let first = graph.add_node(SetValue { value: "first" });
    let second = graph.add_node(SetValue { value: "second" });
    graph.add_start_edge(a);
    graph.add_conditional_edge(a, first, ValueIs { wanted: "x" });
    graph.add_conditional_edge(a, second, ValueIs { wanted: "x" });
    graph.add_edge(a, second);
    let matching = State {
        name: String::new(),
        value: "x".to_string(),
    };
    let other = State {
        name: String::new(),
        value: "y".to_string(),
    };
    assert_eq!(graph.get_next_node_index(a, &matching), Some(first));
    assert_eq!(graph.get_next_node_index(a, &other), Some(second));
}

#[test]
fn a_node_without_an_enabled_edge_halts_with_its_state() {
    let mut graph: FunGraph<State, SetValue, ValueIs> = FunGraph::new();
    let a = graph.add_node(SetValue { value: "x" });
    let b = graph.add_node(SetValue { value: "never" });
    graph.add_start_edge(a);
    graph.add_conditional_edge(a, b, ValueIs { wanted: "other" });
    let report = graph.run_with_limit(blank(), 10);
    assert_eq!(report.halt, Halt::DeadEnd);
    assert_eq!(report.node, a);
    assert_eq!(report.steps, 2);
    assert_eq!(report.state.value, "x");
    assert_eq!(graph.get_next_node_index(a, &report.state), None);
}

#[test]
fn a_run_is_cut_off_at_the_step_limit() {
    let mut graph: FunGraph<State, Append, LongerThan> = FunGraph::new();
    let a = graph.add_node(Append { piece: "a" });
    graph.add_start_edge(a);
    graph.add_edge(a, a);
    let report = graph.run_with_limit(blank(), 5);
    assert_eq!(report.halt, Halt::StepLimit);
    assert_eq!(report.steps, 5);
    assert_eq!(report.node, a);
    assert_eq!(report.state.value, "aaaa");
    let report = graph.run_with_limit(blank(), 0);
    assert_eq!(report.halt, Halt::StepLimit);
    assert_eq!(report.steps, 0);
    assert_eq!(report.node, graph.get_start_node_index());
    assert_eq!(report.state.value, "");
}

#[test]
fn an_empty_graph_halts_at_the_start_node() {
    let graph: FunGraph<State, SetValue, ValueIs> = FunGraph::new();
    assert_eq!(graph.count_nodes(), 2);
    let start = graph.get_start_node_index();
    assert_eq!(start, NodeIndex::new(0));
    assert!(!graph.is_end_node(start));
    assert!(graph.is_end_node(NodeIndex::new(1)));
    assert_eq!(graph.node_name(start), "Start");
    assert_eq!(graph.node_name(NodeIndex::new(1)), "End");
    let report = graph.run_with_limit(blank(), 10);
    assert_eq!(report.halt, Halt::DeadEnd);
    assert_eq!(report.steps, 1);
}

#[test]
fn run_step_runs_the_node_and_names_the_next() {
    let mut graph: FunGraph<State, SetValue, ValueIs> = FunGraph::new();
    let a = graph.add_node(SetValue { value: "x" });
    graph.add_start_edge(a);
    graph.add_end_edge(a);
    let (next, state) = graph.run_step(graph.get_start_node_index(), blank());
    assert_eq!(next, Some(a));
    assert_eq!(state.value, "");
    let (next, state) = graph.run_step(a, state);
    assert_eq!(state.value, "x");
    assert!(graph.is_end_node(next.unwrap()));
    assert_eq!(graph.node_name(a), "A");
}

#[test]
fn start_and_end_nodes_leave_the_state() {
    let mut state = blank();
    FunNode::<State>::run(&StartFunNode, &mut state);
    FunNode::<State>::run(&EndFunNode, &mut state);
    assert_eq!(state, blank());
    assert_eq!(FunNode::<State>::get_name(&StartFunNode), "Start");
    assert_eq!(FunNode::<State>::get_name(&EndFunNode), "End");
}

#[test]
fn a_builder_collects_nodes_and_labelled_edges() {
    let mut builder: fungraph::node::FunGraphBuilder<SetValue> =
        fungraph::node::FunGraphBuilder::new();
    assert_eq!(builder.count_nodes(), 0);
    let a = builder.add_node(SetValue { value: "a" });
    let b = builder.add_node(SetValue { value: "b" });
    assert_eq!(a, NodeIndex::new(0));
    assert_eq!(b, NodeIndex::new(1));
    builder.add_edge(a, b, "Edge AB".to_string());
    builder.add_edge(b, a, "Edge BA".to_string());
    assert_eq!(builder.count_nodes(), 2);
    assert_eq!(builder.count_edges(), 2);
}
