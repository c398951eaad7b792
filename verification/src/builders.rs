//! Builders for outgoing messages.

pub mod message;
