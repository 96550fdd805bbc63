//! Driving one camera.

pub mod camera_config;
pub mod capture;
pub mod config_update;
pub mod connection;
pub mod events;
pub mod framing;
pub mod post_processing;
pub mod post_processing_link;
pub mod tls;
pub mod worker;
pub mod worker_laws;
pub mod worker_steps;
