//! The operations as one state machine.
//!
//! An operation starts with [`apply_configuration`], [`update_configuration`],
//! [`setup_configuration`] or [`validate_configuration`], each of which hands
//! back a [`Workflow`] and the first [`Action`](crate::protocol::Action). The
//! caller performs the action and passes what came of it to
//! [`Workflow::step`], until the action is `Finish`.

pub mod branch;
pub mod distance;
pub mod files;
pub mod setup;
pub mod state;
pub mod step;
pub mod update;

pub use files::apply_configuration;
pub use setup::setup_configuration;
pub use state::{Operation, Phase, Workflow, WorkflowView};
pub use step::validate_configuration;
pub use update::update_configuration;
