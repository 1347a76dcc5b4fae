//! Core runtime pieces of a tool-calling agent: conversation messages and
//! history trimming, the brain strategies and the state machine of an
//! agentic turn, registries of tools, providers, memory backends and
//! plugins, and session transcripts.

pub mod text;
pub mod messages;
pub mod history;
pub mod brain;
pub mod turn;
pub mod tools;
pub mod providers;
pub mod memory;
pub mod plugins;
pub mod session;
pub mod jsonl;
