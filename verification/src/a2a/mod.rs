//! The A2A 0.3.0 protocol: its data objects, the conversion to and from
//! Agentforce, and the methods.

pub mod mapping;
pub mod methods;
pub mod types;
