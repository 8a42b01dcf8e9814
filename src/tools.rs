use vstd::prelude::*;
use crate::json::{
    json_entries, json_from_items, json_from_map, json_from_string, json_map_insert, json_map_new,
    json_object_of, json_str_of, json_array_of,
};
use crate::text::same_text;

verus! {

/// A capability that the agent can call: its unique name, what it does, and
/// the JSON schema of its arguments.
pub struct ToolDescriptor {
    pub name: String,
    pub description: String,
    pub parameters: serde_json::Value,
}

pub struct ToolDescriptorView {
    pub name: Seq<char>,
    pub description: Seq<char>,
    pub parameters: serde_json::Value,
}

impl View for ToolDescriptor {
    type V = ToolDescriptorView;

    open spec fn view(&self) -> ToolDescriptorView {
        ToolDescriptorView {
            name: self.name@,
            description: self.description@,
            parameters: self.parameters,
        }
    }
}

/// Registration refused.
pub enum RegistryError {
    /// A tool of that name is registered already.
    DuplicateTool(String),
}

/// A tool call that could not be carried out.
pub enum DispatchError {
    /// No tool of that name is registered.
    NotFound(String),
    /// The tool ran and failed, with this detail.
    ExecutionFailed(String),
}

/// What the model reads when it names a tool that is not registered.
pub open spec fn not_found_text(name: Seq<char>) -> Seq<char> {
    "Tool not found: "@ + name
}

pub open spec fn dispatch_error_text(e: DispatchError) -> Seq<char> {
    match e {
        DispatchError::NotFound(name) => not_found_text(name@),
        DispatchError::ExecutionFailed(detail) => detail@,
    }
}

impl DispatchError {
    /// The error as the model reads it.
    pub fn message(&self) -> (r: String)
        ensures
            r@ == dispatch_error_text(*self),
    {
        match self {
            DispatchError::NotFound(name) => {
                let mut s = String::from_str("Tool not found: ");
                s.append(name.as_str());
                s
            },
            DispatchError::ExecutionFailed(detail) => detail.clone(),
        }
    }
}

/// Whether some tool of the sequence has this name.
pub open spec fn has_tool(tools: Seq<ToolDescriptorView>, name: Seq<char>) -> bool {
    exists|i: int| 0 <= i < tools.len() && #[trigger] tools[i].name == name
}

/// No two tools share a name.
pub open spec fn names_unique(tools: Seq<ToolDescriptorView>) -> bool {
    forall|i: int, j: int|
        0 <= i < tools.len() && 0 <= j < tools.len() && i != j ==> #[trigger] tools[i].name
            != #[trigger] tools[j].name
}

/// The JSON value that announces one tool to the model:
/// `{"type": "function", "function": {"name", "description", "parameters"}}`.
pub open spec fn announces(v: serde_json::Value, d: ToolDescriptorView) -> bool {
    match json_object_of(v) {
        Some(outer) => {
            let e = json_entries(outer);
            &&& e.dom() =~= set!["type"@, "function"@]
            &&& json_str_of(e["type"@]) == Some("function"@)
            &&& match json_object_of(e["function"@]) {
                Some(inner) => {
                    let f = json_entries(inner);
                    &&& f.dom() =~= set!["name"@, "description"@, "parameters"@]
                    &&& json_str_of(f["name"@]) == Some(d.name)
                    &&& json_str_of(f["description"@]) == Some(d.description)
                    &&& f["parameters"@] == d.parameters
                },
                None => false,
            }
        },
        None => false,
    }
}

/// The registry of tools, in the order of registration.
pub struct ToolDispatcher {
    tools: Vec<ToolDescriptor>,
}

impl View for ToolDispatcher {
    type V = Seq<ToolDescriptorView>;

    closed spec fn view(&self) -> Seq<ToolDescriptorView> {
        self.tools@.map_values(|t: ToolDescriptor| t@)
    }
}

impl ToolDispatcher {
    pub open spec fn wf(&self) -> bool {
        names_unique(self@)
    }

    pub fn new() -> (r: ToolDispatcher)
        ensures
            r.wf(),
            r@ == Seq::<ToolDescriptorView>::empty(),
    {
        let r = ToolDispatcher { tools: Vec::new() };
        assert(r@ =~= Seq::<ToolDescriptorView>::empty());
        r
    }

    /// The number of registered tools.
    pub fn len(&self) -> (r: usize)
        ensures
            r == self@.len(),
    {
        self.tools.len()
    }

    /// Where the tool of this name stands, if it is registered.
    pub fn position(&self, name: &str) -> (r: Option<usize>)
        ensures
            match r {
                Some(i) => i < self@.len() && self@[i as int].name == name@,
                None => !has_tool(self@, name@),
            },
    {
        let mut i: usize = 0;
        while i < self.tools.len()
            invariant
                i <= self.tools@.len(),
                forall|k: int| 0 <= k < i ==> #[trigger] self@[k].name != name@,
            decreases self.tools.len() - i,
        {
            if same_text(self.tools[i].name.as_str(), name) {
                return Some(i);
            }
            i = i + 1;
        }
        None
    }

    /// Adds a tool; a second tool of the same name is refused and leaves the registry as it was.
    pub fn register(&mut self, tool: ToolDescriptor) -> (r: Result<(), RegistryError>)
        requires
            old(self).wf(),
        ensures
            final(self).wf(),
            has_tool(old(self)@, tool@.name) ==> (match r {
                Err(RegistryError::DuplicateTool(n)) => n@ == tool@.name,
                Ok(_) => false,
            }) && final(self)@ == old(self)@,
            !has_tool(old(self)@, tool@.name) ==> r is Ok && final(self)@ == old(self)@.push(tool@),
    {
        match self.position(tool.name.as_str()) {
            Some(_) => Err(RegistryError::DuplicateTool(tool.name)),
            None => {
                let ghost before = self@;
                self.tools.push(tool);
                assert(self@ =~= before.push(tool@));
                Ok(())
            },
        }
    }

    /// Whether a tool of this name is registered.
    pub fn has(&self, name: &str) -> (r: bool)
        ensures
            r == has_tool(self@, name@),
    {
        self.position(name).is_some()
    }

    /// Checks that a call can be dispatched: `NotFound` when no tool has the name.
    pub fn resolve(&self, name: &str) -> (r: Result<usize, DispatchError>)
        ensures
            match r {
                Ok(i) => i < self@.len() && self@[i as int].name == name@,
                Err(DispatchError::NotFound(n)) => n@ == name@ && !has_tool(self@, name@),
                Err(DispatchError::ExecutionFailed(_)) => false,
            },
    {
        match self.position(name) {
            Some(i) => Ok(i),
            None => Err(DispatchError::NotFound(String::from_str(name))),
        }
    }

    /// The schema document: one announcement per tool, in the order of registration.
    pub fn get_tools_schema(&self) -> (r: serde_json::Value)
        ensures
            match json_array_of(r) {
                Some(items) => items.len() == self@.len() && forall|i: int|
                    0 <= i < items.len() ==> announces(#[trigger] items[i], self@[i]),
                None => false,
            },
    {
        let mut items: Vec<serde_json::Value> = Vec::new();
        let mut i: usize = 0;
        while i < self.tools.len()
            invariant
                i <= self.tools@.len(),
                items@.len() == i,
                forall|k: int| 0 <= k < i ==> announces(#[trigger] items@[k], self@[k]),
            decreases self.tools.len() - i,
        {
            items.push(announcement(&self.tools[i]));
            i = i + 1;
        }
        json_from_items(items)
    }
}

/// The announcement of one tool.
pub fn announcement(tool: &ToolDescriptor) -> (r: serde_json::Value)
    ensures
        announces(r, tool@),
{
    proof {
        reveal_strlit("name");
        reveal_strlit("description");
        reveal_strlit("parameters");
        reveal_strlit("type");
        reveal_strlit("function");
    }
    let name_v = json_from_string(tool.name.clone());
    let desc_v = json_from_string(tool.description.clone());
    let params_v = tool.parameters.clone();
    let mut inner = json_map_new();
    json_map_insert(&mut inner, String::from_str("name"), name_v);
    json_map_insert(&mut inner, String::from_str("description"), desc_v);
    json_map_insert(&mut inner, String::from_str("parameters"), params_v);
    let ghost f = json_entries(inner);
    assert("name"@ != "description"@ && "name"@ != "parameters"@ && "description"@ != "parameters"@) by {
        assert("name"@.len() != "description"@.len());
        assert("name"@.len() != "parameters"@.len());
        assert("description"@[0] != "parameters"@[0]);
    }
    assert(f.dom() =~= set!["name"@, "description"@, "parameters"@]);
    assert(f["name"@] == name_v);
    assert(f["description"@] == desc_v);
    let kind_v = json_from_string(String::from_str("function"));
    let inner_v = json_from_map(inner);
    let mut outer = json_map_new();
    json_map_insert(&mut outer, String::from_str("type"), kind_v);
    json_map_insert(&mut outer, String::from_str("function"), inner_v);
    let ghost e = json_entries(outer);
    assert("type"@ != "function"@) by {
        assert("type"@.len() != "function"@.len());
    }
    assert(e.dom() =~= set!["type"@, "function"@]);
    assert(e["type"@] == kind_v);
    json_from_map(outer)
}

} // verus!
