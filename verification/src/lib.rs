//! Helpers for contracts on the Vara network: a fluent builder that frames and
//! dispatches actor-to-actor messages, and era/block arithmetic utilities.

pub mod builders;
pub mod chain;
pub mod codec;
pub mod consts;
pub mod era;
pub mod funcs;
pub mod utils;
