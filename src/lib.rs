//! Verifies a signed agent bundle, runs it under a policy, and reads back the
//! receipt of the run, stopping at the first step that fails.
//!
//! The request is checked before anything runs; the two subcommands and the
//! reading of the receipt go through a `CommandRunner` that the caller
//! supplies. `session` holds the decisions as a state machine, `adapter`
//! drives it, and `laws` states what holds of every call.

pub mod adapter;
pub mod args;
pub mod error;
pub mod laws;
pub mod receipt;
pub mod request;
pub mod session;

pub use adapter::{CommandRunner, ProvenactExecutionAdapter};
pub use error::AdapterError;
pub use receipt::Receipt;
pub use request::{AgentExecutionRequest, InvalidReason, KeysDigest, RequestField};
pub use session::{AgentExecutionOutput, ExecutionSession, Stage, Step};
