//! An atomic, multi-step cross-chain execution protocol.
//!
//! A sender submits an ordered batch of actions over an IBC channel; the
//! receiving chain executes the actions strictly in order, accumulating one
//! result per action, and answers with a single acknowledgement that either
//! carries every result or reports that the whole batch failed.  The sender
//! is then notified of the outcome (acknowledged or timed out) through a
//! callback to the original submitter.

pub mod controller;
pub mod demo;
pub mod error;
pub mod handler;
pub mod host;
pub mod ics999;
pub mod querier;
pub mod response;
pub mod router;
pub mod state;
pub mod utils;
pub mod zk;

pub use error::ContractError;
