//! Game-state logic of a small networked arena game: actor movement flags,
//! collision candidate selection, menu decisions and the decision core of the
//! UDP network system.

pub mod components;
pub mod states;
pub mod systems;
