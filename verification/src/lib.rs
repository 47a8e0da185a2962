//! Messages exchanged between the services of a Farcaster swap node, with
//! the rules that build, parse and render them.
pub mod cli;
pub mod rpc;
pub mod text;
pub mod trusted;
