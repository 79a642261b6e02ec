//! The systems that run every frame.

pub mod collision;
pub mod net;
pub mod player;
