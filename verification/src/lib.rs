//! A workflow engine for conversational agents: a graph executor over a
//! user-defined state, a provider-agnostic chat-completion client model with
//! its streaming response assembler, and a bounded tool-call resolution loop.
pub mod agent;
pub mod derive;
pub mod gemini;
pub mod json;
pub mod llm;
pub mod mcp;
pub mod messages;
pub mod node;
pub mod openai;
pub mod schema;
pub mod stream;
pub mod text;
pub mod tools;
pub mod wire;
