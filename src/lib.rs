//! An in-process registry that routes named action envelopes to handlers
//! and folds each handler's outcome back into the envelope.

pub mod action;
pub mod error;
pub mod manager;
