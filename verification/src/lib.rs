//! Verified core of a small GPIO control service.
//!
//! The library models the state of a fixed set of GPIO pins, validates
//! startup configurations, and runs the level-change request pipeline:
//! load the pin record, enforce transition legality, apply the change to
//! a mutually exclusive hardware handle, and commit the updated record.

pub mod allowed;
mod clock;
pub mod errors;
pub mod hardware;
pub mod models;
pub mod pinmap;
pub mod pipeline;
pub mod settings;
pub mod setup;
pub mod store;
pub mod tokens;
pub mod validation;
