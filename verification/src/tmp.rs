//! The endpoint that clients connect to.

pub mod server;
