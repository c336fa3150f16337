//! The server side: open documents, each with a queue of commands of its own.

pub mod calls;
pub mod editor;
pub mod handle;
pub mod laws;
pub mod manager;
pub mod manager_laws;
pub mod queue;
pub mod request_laws;
