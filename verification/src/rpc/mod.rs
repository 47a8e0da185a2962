//! Remote procedure call messages.
pub mod funding;
pub mod msg;
pub mod request;
