//! Tools that a provider may call, and the table that an agent keeps of them.
use crate::json::Json;
use crate::openai::{FunctionDescription, Tool, ToolType, ToolView};
use crate::schema::Parameters;
use vstd::prelude::*;

verus! {

/// A type that describes the parameters of a tool.
pub trait ToolParameters {
    /// The schema of the parameters.
    fn parameters() -> Parameters;
}

/// A function that a provider may call. The name, the description and the
/// parameters of a tool do not change.
pub trait FunTool {
    /// The tool as it describes itself: its name, its description and its
    /// parameters.
    spec fn described(&self) -> Tool;

    /// The name under which the provider calls the tool.
    fn name(&self) -> (name: String)
        ensures
            name@ == self.described().function.name@,
    ;

    /// What the provider is told of the tool.
    fn description(&self) -> (description: String)
        ensures
            description@ == self.described().function.description@,
    ;

    /// The schema of the arguments.
    fn parameters(&self) -> (parameters: Parameters)
        ensures
            parameters.deep_view() == self.described().function.parameters.deep_view(),
    ;

    /// Runs the tool on the parsed arguments and returns its answer, or the
    /// report of its failure.
    fn call(&self, input: Json) -> Result<String, String>;

    /// The tool as it is advertised to a provider.
    fn to_openai_tool(&self) -> (tool: Tool)
        ensures
            tool.deep_view() == advertised(self.described()),
    {
        Tool {
            kind: ToolType::Function,
            function: FunctionDescription {
                name: self.name(),
                description: self.description(),
                parameters: self.parameters(),
            },
        }
    }
}

/// A function tool as it is advertised to a provider.
pub open spec fn advertised(tool: Tool) -> ToolView {
    ToolView { kind: ToolType::Function, function: tool.function.deep_view() }
}

/// The name of a tool.
pub open spec fn tool_name<F: FunTool>(tool: F) -> Seq<char> {
    tool.described().function.name@
}

/// Whether `place` is the first place among `tools` of a tool named `name`.
pub open spec fn is_tool_place<F: FunTool>(tools: Seq<F>, name: Seq<char>, place: int) -> bool {
    &&& 0 <= place < tools.len()
    &&& tool_name(tools[place]) == name
    &&& forall|k: int| 0 <= k < place ==> tool_name(#[trigger] tools[k]) != name
}

/// The place among `tools` of the tool named `name`, if there is one.
pub open spec fn tool_place<F: FunTool>(tools: Seq<F>, name: Seq<char>) -> Option<int> {
    if exists|place: int| is_tool_place(tools, name, place) {
        Some(choose|place: int| is_tool_place(tools, name, place))
    } else {
        None
    }
}

/// The first place of a tool is the place that `tool_place` names.
pub proof fn lemma_tool_place<F: FunTool>(tools: Seq<F>, name: Seq<char>)
    ensures
        match tool_place(tools, name) {
            Some(place) => is_tool_place(tools, name, place),
            None => forall|k: int| 0 <= k < tools.len() ==> tool_name(#[trigger] tools[k]) != name,
        },
        forall|place: int| is_tool_place(tools, name, place) ==> tool_place(tools, name) == Some(place),
{
    if tool_place(tools, name) is None {
        assert forall|k: int| 0 <= k < tools.len() implies tool_name(#[trigger] tools[k])
            != name by {
            if tool_name(tools[k]) == name {
                lemma_first_tool(tools, name, k);
            }
        }
    }
}

/// If a tool of that name stands at some place, one stands at a first place.
proof fn lemma_first_tool<F: FunTool>(tools: Seq<F>, name: Seq<char>, k: int)
    requires
        0 <= k < tools.len(),
        tool_name(tools[k]) == name,
    ensures
        exists|place: int| is_tool_place(tools, name, place),
    decreases k,
{
    if exists|j: int| 0 <= j < k && tool_name(#[trigger] tools[j]) == name {
        let j = choose|j: int| 0 <= j < k && tool_name(#[trigger] tools[j]) == name;
        lemma_first_tool(tools, name, j);
    } else {
        assert(is_tool_place(tools, name, k));
    }
}

/// The tools as they are advertised to a provider, in order.
pub open spec fn advertised_tools<F: FunTool>(tools: Seq<F>) -> Seq<ToolView> {
    Seq::new(
        tools.len(),
        |i: int| advertised(tools[i].described()),
    )
}

/// A table of tools by name, in the order in which their names first came.
pub struct ToolSet<F: FunTool> {
    tools: Vec<F>,
}

impl<F: FunTool> View for ToolSet<F> {
    type V = Seq<F>;

    closed spec fn view(&self) -> Seq<F> {
        self.tools@
    }
}

impl<F: FunTool> ToolSet<F> {
    /// An empty table.
    pub fn new() -> (set: ToolSet<F>)
        ensures
            set@ == Seq::<F>::empty(),
    {
        ToolSet { tools: Vec::new() }
    }

    /// The number of tools.
    pub fn len(&self) -> (n: usize)
        ensures
            n == self@.len(),
    {
        self.tools.len()
    }

    /// The place of the tool named `name`, if the table holds one.
    pub fn find(&self, name: &str) -> (found: Option<usize>)
        ensures
            match found {
                Some(place) => tool_place(self@, name@) == Some(place as int) && place < self@.len(),
                None => tool_place(self@, name@) is None,
            },
    {
        let wanted = name.to_owned();
        let mut i: usize = 0;
        while i < self.tools.len()
            invariant
                i <= self.tools.len(),
                wanted@ == name@,
                forall|k: int| 0 <= k < i ==> tool_name(#[trigger] self@[k]) != name@,
            decreases self.tools.len() - i,
        {
            if self.tools[i].name() == wanted {
                proof {
                    assert(is_tool_place(self@, name@, i as int));
                    lemma_tool_place(self@, name@);
                }
                return Some(i);
            }
            i += 1;
        }
        proof {
            lemma_tool_place(self@, name@);
        }
        None
    }

    /// Puts `tool` into the table. A tool of the same name leaves, and the
    /// new one takes its place; a tool with a new name goes to the end.
    pub fn add_tool(&mut self, tool: F)
        ensures
            final(self)@ == match tool_place(old(self)@, tool_name(tool)) {
                Some(place) => old(self)@.update(place, tool),
                None => old(self)@.push(tool),
            },
    {
        let name = tool.name();
        match self.find(name.as_str()) {
            Some(place) => {
                let mut tool = tool;
                std::mem::swap(&mut self.tools[place], &mut tool);
            },
            None => {
                self.tools.push(tool);
            },
        }
    }

    /// The tool named `name`, if the table holds one.
    pub fn get_tool(&self, name: &str) -> (found: Option<&F>)
        ensures
            match found {
                Some(tool) => tool_place(self@, name@) is Some && *tool == self@[tool_place(
                    self@,
                    name@,
                )->0],
                None => tool_place(self@, name@) is None,
            },
    {
        match self.find(name) {
            Some(place) => Some(&self.tools[place]),
            None => None,
        }
    }

    /// The tool at place `place`.
    pub fn get(&self, place: usize) -> (tool: &F)
        requires
            place < self@.len(),
        ensures
            *tool == self@[place as int],
    {
        &self.tools[place]
    }

    /// The tools of the table, in order.
    pub fn tools(&self) -> (tools: &Vec<F>)
        ensures
            tools@ == self@,
    {
        &self.tools
    }

    /// The tools as they are advertised to a provider, in order.
    pub fn to_openai_tools(&self) -> (tools: Vec<Tool>)
        ensures
            tools.deep_view() == advertised_tools(self@),
    {
        let mut tools: Vec<Tool> = Vec::new();
        let mut i: usize = 0;
        while i < self.tools.len()
            invariant
                i <= self.tools.len(),
                tools.len() == i,
                forall|k: int|
                    0 <= k < i ==> tools@[k].deep_view() == advertised(self@[k].described()),
            decreases self.tools.len() - i,
        {
            tools.push(self.tools[i].to_openai_tool());
            i += 1;
        }
        assert(tools.deep_view() =~= advertised_tools(self@));
        tools
    }
}

} // verus!
