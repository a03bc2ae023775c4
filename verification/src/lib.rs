//! Core of a note-keeping chat assistant: prompt construction, markdown
//! escaping, model-output parsing and the message-lifecycle decisions, all
//! verified. The network transports (the chat framework and the model
//! provider) live outside this crate and exchange plain values with it.

pub mod coordinator;
pub mod help;
pub mod llm;
pub mod tags;
pub mod task;
pub mod markdown;
pub mod template;
pub mod text;
