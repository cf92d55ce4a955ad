//! Verified core of an A2A (agent-to-agent) protocol library: the domain
//! model, its wire (protocol buffer) model, the conversions between the two,
//! and the routing decisions of the JSON-RPC request processor.
use vstd::prelude::*;

pub mod json;
pub mod domain;
pub mod proto;
pub mod encoding;
pub mod convert;
pub mod laws;
pub mod field_laws;
pub mod decision_laws;
pub mod processor;
pub mod client;
pub mod ids;
pub mod demo;
pub mod server;

verus! {
} // verus!
