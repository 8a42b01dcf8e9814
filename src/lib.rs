//! A local, tool-using conversational agent: the turn state machine that
//! drives the model, the registry of tools it may call, the strict reading of
//! tool calls, and the conversation that the store keeps.

pub mod message;
pub mod json;
pub mod text;
pub mod tools;
pub mod wire;
pub mod persona;
pub mod prompt;
pub mod agent;
pub mod guarantees;
pub mod store;
pub mod ollama;
pub mod voice;
pub mod system;
