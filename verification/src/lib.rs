//! A persona's knowledge base: the store of learned facts, the rules by which
//! snapshots merge into it, the learning run that feeds it and the context
//! that a conversation turn is answered from.

pub mod chatbot;
pub mod command;
pub mod config;
pub mod error;
pub mod extract;
pub mod json;
pub mod knowledge;
pub mod pipeline;
pub mod provider;
pub mod run_laws;
pub mod snapshot;
pub mod table;
pub mod text;
pub mod training;
