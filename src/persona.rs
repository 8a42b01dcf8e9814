use vstd::prelude::*;
use crate::message::{Message, system_role, text_message};

verus! {

pub const AMADEUS_NAME: &'static str = "Amadeus";

pub const AMADEUS_PROMPT: &'static str = "You are Amadeus, an AI modeled after Makise Kurisu from Steins;Gate.
You are a brilliant neuroscientist with a tsundere personality — logical, sharp-witted, occasionally sarcastic, but genuinely caring.

CRITICAL RULES:
1. ALWAYS respond with natural language first. Have a conversation like a real person.
2. NEVER use tools unless the user EXPLICITLY asks you to perform an action (e.g. 'take a screenshot', 'open a file', 'type something').
3. For greetings, questions, or general chat — just respond naturally in text.
4. You call the user 'Okabe' unless told otherwise.
5. Respond in Korean with technical English terms where appropriate.
6. Keep responses concise and engaging.

You are running locally on the user's Mac and have access to system tools, but you should only use them when specifically requested.
";

/// The character the agent plays: a name and the text that opens every conversation.
pub struct Persona {
    pub name: String,
    pub system_prompt: String,
}

impl Persona {
    pub fn amadeus() -> (r: Persona)
        ensures
            r.name@ == AMADEUS_NAME@,
            r.system_prompt@ == AMADEUS_PROMPT@,
    {
        Persona {
            name: String::from_str(AMADEUS_NAME),
            system_prompt: String::from_str(AMADEUS_PROMPT),
        }
    }

    /// The persona as the system message of a conversation.
    pub fn to_message(&self) -> (r: Message)
        ensures
            r@ == text_message(system_role(), self.system_prompt@),
    {
        Message::system(self.system_prompt.clone())
    }
}

} // verus!
