//! A minimal container launcher: one freshly isolated execution context,
//! one reshaped mount table, one command.
//!
//! The crate holds the decision core of the launcher. Everything the
//! operating system is asked to do — creating the namespaced context,
//! mounting, changing the hostname and working directory, replacing the
//! process image — is driven from the plans and state machines defined
//! here, so that the ordering rules of the isolation sequence are proved
//! rather than implied by control flow.

pub mod config;
pub mod isolation;
pub mod launcher;
pub mod model;
pub mod plan;
pub mod report;
