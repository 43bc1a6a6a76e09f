//! State-transition core of a minimal yes/no polling contract.
//!
//! The library holds the verified transition logic: a singleton
//! configuration set once at initialization, a store of polls keyed by
//! their question text, and handlers that validate incoming messages and
//! apply state changes. The surrounding runtime (storage engine, address
//! format, message codecs) stays outside and hands the handlers plain
//! values.

pub mod contract;
mod error;
pub mod msg;
mod response;
pub mod state;

pub use crate::error::ContractError;
