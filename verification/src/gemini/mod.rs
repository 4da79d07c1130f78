//! The Gemini provider, reached through its chat-completion interface.
pub mod config;
pub mod llm;
pub mod schema;
