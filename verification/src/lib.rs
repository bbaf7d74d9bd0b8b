//! Chronos core: the budget accounting, tier escalation, request and
//! response handling, and the small text formats of the Chronos knowledge
//! vault, with their contracts.

pub mod budget;
pub mod text;
pub mod config;
pub mod http;
pub mod client;
pub mod gemini;
pub mod router;
pub mod lines;
pub mod settings;
pub mod clock;
pub mod embed;
pub mod encryption;
pub mod qdrant;
pub mod sync;
pub mod kuzu;
pub mod lance;
pub mod pipeline;
pub mod ipc;
