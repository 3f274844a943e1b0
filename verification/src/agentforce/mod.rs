//! Agentforce: access tokens, and the three calls of its API.

pub mod auth;
pub mod client;
