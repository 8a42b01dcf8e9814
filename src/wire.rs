use vstd::prelude::*;
use crate::json::{
    json_entries, json_map_get, json_map_len, json_object, json_object_of, json_str,
    json_str_of, parse_json, parsed_json,
};

verus! {

/// A request by the model to run a tool.
pub struct ToolCall {
    pub name: String,
    pub args: serde_json::Value,
}

pub open spec fn call_view(c: Option<ToolCall>) -> Option<(Seq<char>, serde_json::Value)> {
    match c {
        Some(c) => Some((c.name@, c.args)),
        None => None,
    }
}

/// The tool call that a JSON value spells, if it is exactly an object with the
/// two members `tool` (a string) and `args` (an object).
pub open spec fn tool_call_in(parsed: Option<serde_json::Value>) -> Option<(Seq<char>, serde_json::Value)> {
    match parsed {
        Some(v) => match json_object_of(v) {
            Some(m) => {
                let e = json_entries(m);
                if e.dom().len() == 2 && e.contains_key("tool"@) && e.contains_key("args"@)
                    && json_str_of(e["tool"@]).is_some() && json_object_of(e["args"@]).is_some() {
                    Some((json_str_of(e["tool"@]).unwrap(), e["args"@]))
                } else {
                    None
                }
            },
            None => None,
        },
        None => None,
    }
}

/// The tool call that a response of the model is, if it is one; any other
/// text is conversation.
pub open spec fn tool_call_of(raw: Seq<char>) -> Option<(Seq<char>, serde_json::Value)> {
    tool_call_in(parsed_json(raw))
}

/// Reads a tool call out of a parsed response.
pub fn read_tool_call(parsed: Option<serde_json::Value>) -> (r: Option<ToolCall>)
    ensures
        call_view(r) == tool_call_in(parsed),
{
    let v = match parsed {
        Some(v) => v,
        None => return None,
    };
    let m = match json_object(&v) {
        Some(m) => m,
        None => return None,
    };
    if json_map_len(&m) != 2 {
        return None;
    }
    let tool = match json_map_get(&m, "tool") {
        Some(t) => t,
        None => return None,
    };
    let args = match json_map_get(&m, "args") {
        Some(a) => a,
        None => return None,
    };
    let name = match json_str(&tool) {
        Some(n) => n,
        None => return None,
    };
    match json_object(&args) {
        Some(_) => Some(ToolCall { name, args }),
        None => None,
    }
}

/// Classifies a response of the model: a tool call, or `None` for conversation.
pub fn detect_tool_call(raw: &str) -> (r: Option<ToolCall>)
    ensures
        call_view(r) == tool_call_of(raw@),
{
    read_tool_call(parse_json(raw))
}

} // verus!
