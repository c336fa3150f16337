//! The client side: one web socket for each open document, with a task for the messages that
//! come in and one for those that go out.

pub mod editor;
pub mod editor_laws;
pub mod signals;
pub mod sink;
pub mod sink_laws;
pub mod stream;
pub mod stream_laws;
