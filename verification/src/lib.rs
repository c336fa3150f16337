//! Synchronisation of documents between clients and a server.
//!
//! A client keeps one web socket for each open document (`web_socket`), and the server one
//! queue of commands (`server`). What has to wait for something else is cut where it waits:
//! one piece says what is to be done, and the next takes what came of it.

pub mod channels;
pub mod entities;
pub mod errors;
pub mod payload;
pub mod registry;
pub mod server;
pub mod web_socket;
