use vstd::prelude::*;
use crate::message::Message;

verus! {

pub const OLLAMA_API_BASE: &'static str = "http://localhost:11434/api";

pub const NO_MESSAGE: &'static str = "No message in Ollama response";

/// A chat request to an Ollama server.
pub struct ChatRequest {
    pub model: String,
    pub messages: Vec<Message>,
    pub stream: bool,
}

/// The message part of an Ollama reply.
pub struct MessageRes {
    pub role: String,
    pub content: String,
}

/// One reply, or one line of a streamed reply, of an Ollama server.
pub struct ChatResponse {
    pub model: Option<String>,
    pub created_at: Option<String>,
    pub message: Option<MessageRes>,
    pub done: Option<bool>,
}

impl ChatResponse {
    /// The text of the reply; an error when it holds no message.
    pub fn into_reply(self) -> (r: Result<String, String>)
        ensures
            match self.message {
                Some(m) => r == Ok::<String, String>(m.content),
                None => r matches Err(e) && e@ == NO_MESSAGE@,
            },
    {
        match self.message {
            Some(m) => Ok(m.content),
            None => Err(String::from_str(NO_MESSAGE)),
        }
    }
}

/// The text of a streamed reply: the message text of its lines, in order.
pub open spec fn streamed_text(lines: Seq<Option<ChatResponse>>) -> Seq<char>
    decreases lines.len(),
{
    if lines.len() == 0 {
        Seq::empty()
    } else {
        streamed_text(lines.drop_last()) + match lines.last() {
            Some(ChatResponse { message: Some(m), .. }) => m.content@,
            _ => Seq::empty(),
        }
    }
}

/// Joins the lines of a streamed reply; a line that could not be read counts for nothing.
pub fn join_stream(lines: Vec<Option<ChatResponse>>) -> (r: String)
    ensures
        r@ == streamed_text(lines@),
{
    let mut out = String::new();
    let mut i: usize = 0;
    while i < lines.len()
        invariant
            i <= lines@.len(),
            out@ == streamed_text(lines@.subrange(0, i as int)),
        decreases lines.len() - i,
    {
        let ghost sub = lines@.subrange(0, i + 1);
        assert(sub.drop_last() =~= lines@.subrange(0, i as int));
        match &lines[i] {
            Some(ChatResponse { message: Some(m), .. }) => out.append(m.content.as_str()),
            _ => {},
        }
        i = i + 1;
    }
    assert(lines@.subrange(0, lines@.len() as int) =~= lines@);
    out
}

} // verus!
