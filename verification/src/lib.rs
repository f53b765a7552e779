//! The decision logic of a CI job runner that talks to its server over a
//! websocket and runs the steps of a job in a container.
//!
//! The library holds what the runner decides and computes: the messages it
//! answers, the plan it derives from a job (container, image, commands), the
//! arguments of container and image requests, and the defaults table read
//! from its configuration. Talking to the network, to Docker and to LXC is
//! left to the program around it.

pub mod backends;
pub mod cli;
pub mod config;
pub mod docker;
pub mod events;
pub mod jobs;
pub mod runner;
pub mod text;
pub mod websocket;
