//! Data attached to entities.

pub mod actor;
