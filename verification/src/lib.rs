//! Resource coordination for a peer in a compute and storage sharing network:
//! the command taxonomy and its wire encoding, the node's capacity ledger with
//! its admission rules, and the decisions of the command processor, the
//! advertisement scheduler and the operator console.

pub mod codec;
pub mod command;
pub mod config;
pub mod console;
pub mod idset;
pub mod json;
pub mod ledger;
pub mod node;
pub mod peers;
pub mod processor;
pub mod scheduler;
