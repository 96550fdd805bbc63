//! What passes between the server and its websocket clients.

pub mod connection;
pub mod scheme;
