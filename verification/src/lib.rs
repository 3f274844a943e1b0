//! A policy that lets agents that speak A2A talk to a Salesforce Agentforce agent.
//!
//! [`gateway`] handles a request in the two phases of the gateway. It tells
//! requests apart with [`router`], serves the card of [`agent_card`], and answers
//! the calls of [`jsonrpc`] with the methods of [`a2a`], which use the API of
//! [`agentforce`] and the tasks of [`store`]. [`config`] checks the configuration
//! that [`generated`] describes, and [`exchange`] publishes the card.
//!
//! What depends on the outside is an operation over a record of answers, as
//! [`effects`] says; tokens are got with [`oauth`] and kept as [`cache`] has it.
//! [`json`], [`spans`] and [`decode`] read and write documents, and [`text`],
//! [`encoding`] and [`clock`] work on plain values.
//!
//! [`laws`] states what holds of it all, in terms of what goes in and what comes out.

use vstd::prelude::*;

pub mod a2a;
pub mod agent_card;
pub mod agentforce;
pub mod cache;
pub mod clock;
pub mod config;
pub mod decode;
pub mod effects;
pub mod encoding;
pub mod exchange;
pub mod gateway;
pub mod generated;
pub mod json;
pub mod jsonrpc;
pub mod laws;
pub mod oauth;
pub mod router;
pub mod spans;
pub mod store;
pub mod text;

verus! {

} // verus!
