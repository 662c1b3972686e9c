//! Deterministic multi-signature wallet addresses, deployment and
//! transaction forwarding, with the decisions of each request proved.
pub mod error;
pub mod token;
pub mod chain;
pub mod packed;
pub mod wallet;
pub mod exec;
pub mod flow;
pub mod laws;
