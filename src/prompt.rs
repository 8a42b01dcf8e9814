use vstd::prelude::*;
use crate::json::{json_array_of, json_text, render_json};
use crate::message::{Message, MessageView, views};
use crate::persona::Persona;
use crate::text::same_text;
use crate::tools::{ToolDispatcher, announces};

verus! {

pub const TOOLS_INTRO: &'static str = "\nYou have access to the following tools: ";

pub const TOOLS_RULES: &'static str = "\n\nTo use a tool, respond with a JSON object in this format ONLY:\n{ \"tool\": \"tool_name\", \"args\": { ... } }\nIf you use a tool, do not write anything else.";

/// The instructions on tools that follow the persona's own text.
pub open spec fn tools_addendum(schema_text: Seq<char>) -> Seq<char> {
    TOOLS_INTRO@ + schema_text + TOOLS_RULES@
}

/// Whether a JSON value is the schema document of these tools.
pub open spec fn is_schema_of(v: serde_json::Value, tools: Seq<crate::tools::ToolDescriptorView>) -> bool {
    match json_array_of(v) {
        Some(items) => items.len() == tools.len() && forall|i: int|
            0 <= i < items.len() ==> announces(#[trigger] items[i], tools[i]),
        None => false,
    }
}

/// The system prompt: the persona's text, then the tool instructions around the schema's JSON text.
pub fn system_prompt_with(persona_prompt: &str, schema: &serde_json::Value) -> (r: String)
    ensures
        r@ == persona_prompt@ + tools_addendum(json_text(*schema)),
{
    let mut s = String::from_str(persona_prompt);
    s.append(TOOLS_INTRO);
    let text = render_json(schema);
    s.append(text.as_str());
    s.append(TOOLS_RULES);
    s
}

/// The system prompt of a persona with the registered tools.
pub fn full_system_prompt(persona: &Persona, tools: &ToolDispatcher) -> (r: String)
    ensures
        exists|v: serde_json::Value|
            is_schema_of(v, tools@) && r@ == persona.system_prompt@ + tools_addendum(json_text(v)),
{
    let schema = tools.get_tools_schema();
    let r = system_prompt_with(persona.system_prompt.as_str(), &schema);
    assert(is_schema_of(schema, tools@));
    r
}

/// Whether a role is one that the chat template knows.
pub open spec fn known_role(role: Seq<char>) -> bool {
    role == "system"@ || role == "user"@ || role == "assistant"@
}

/// One message in the chat template; a message of another role leaves no trace.
pub open spec fn chatml_entry(m: MessageView) -> Seq<char> {
    if known_role(m.role) {
        "<|im_start|>"@ + m.role + "\n"@ + m.content + "<|im_end|>\n"@
    } else {
        Seq::empty()
    }
}

pub open spec fn chatml_body(ms: Seq<MessageView>) -> Seq<char>
    decreases ms.len(),
{
    if ms.len() == 0 {
        Seq::empty()
    } else {
        chatml_body(ms.drop_last()) + chatml_entry(ms.last())
    }
}

/// A conversation in the chat template, ending with an open assistant turn.
pub open spec fn chatml(ms: Seq<MessageView>) -> Seq<char> {
    chatml_body(ms) + "<|im_start|>assistant\n"@
}

/// Writes the messages as one prompt in the chat template.
pub fn format_prompt(messages: &Vec<Message>) -> (r: String)
    ensures
        r@ == chatml(views(messages@)),
{
    let mut prompt = String::new();
    let mut i: usize = 0;
    while i < messages.len()
        invariant
            i <= messages@.len(),
            prompt@ == chatml_body(views(messages@.subrange(0, i as int))),
        decreases messages.len() - i,
    {
        let m = &messages[i];
        let ghost before = prompt@;
        let role = m.role.as_str();
        if same_text(role, "system") || same_text(role, "user") || same_text(role, "assistant") {
            prompt.append("<|im_start|>");
            prompt.append(role);
            prompt.append("\n");
            prompt.append(m.content.as_str());
            prompt.append("<|im_end|>\n");
        }
        proof {
            let sub = views(messages@.subrange(0, i + 1));
            assert(sub.drop_last() =~= views(messages@.subrange(0, i as int)));
            assert(sub.last() == m@);
            assert(prompt@ =~= before + chatml_entry(m@));
        }
        i = i + 1;
    }
    assert(messages@.subrange(0, messages@.len() as int) =~= messages@);
    prompt.append("<|im_start|>assistant\n");
    prompt
}

} // verus!
