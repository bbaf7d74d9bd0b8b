//! What the desktop front end's commands compute. The commands themselves
//! are registered by the application.

pub mod graph;
pub mod health;
pub mod insights;
pub mod pipeline;
pub mod settings;
pub mod vault;
