//! The participant side of two-phase commit against the storage engine.

pub mod dispatcher;
pub mod xact_controller;
