//! Keeps a project's encrypted secrets in step with a pinned commit of a
//! separate secrets repository.
//!
//! The crate holds the decisions of the four operations (apply, update, init,
//! validate) as a state machine: a [`workflow::Workflow`] names the next
//! [`protocol::Action`] for the caller to perform and consumes the
//! [`protocol::Event`] that reports how it went. Talking to git, to the key
//! store, to the terminal and to the file system is the caller's part.

pub mod backup;
pub mod clock;
pub mod configuration;
pub mod error;
pub mod numerals;
pub mod path;
pub mod prompts;
pub mod protocol;
pub mod repository;
pub mod runs;
pub mod workflow;
