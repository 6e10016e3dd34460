//! Composable error recovery strategies for LLM agent tool calls.
//!
//! Tool failures are classified into an [`ErrorClass`]; a [`RecoveryPolicy`]
//! maps each class to a [`RecoveryAction`], escalates once the attempt limit is
//! reached, and keeps a log of every decision it made.
pub mod action;
pub mod backoff;
pub mod error_class;
pub mod policy;
mod table;

pub use action::RecoveryAction;
pub use error_class::ErrorClass;
pub use policy::{EventView, PolicyView, RecoveryEvent, RecoveryPolicy};
