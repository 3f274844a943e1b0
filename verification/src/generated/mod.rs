//! The configuration in the shape in which the gateway hands it over.

pub mod config;
