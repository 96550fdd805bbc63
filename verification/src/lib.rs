//! The logic of a camera tethering server: what it answers to its websocket clients, how
//! it drives a camera, and how it talks to a post-processing server.
//!
//! The modules decide; the program around them does the input and output. Each state
//! machine says what to do next and is told how that went.

pub mod camera;
pub mod text;
pub mod websocket;
