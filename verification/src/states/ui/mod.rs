//! Menu states: what they keep of the user interface and how they answer
//! its events.

pub mod new_game;
pub mod notify;

use vstd::prelude::*;

verus! {

/// An entity of the user interface: its index and generation.
#[derive(Clone, Copy, Debug, PartialEq, Eq, Hash, Structural)]
pub struct EntityRef {
    pub id: u32,
    pub generation: i32,
}

/// An event that a menu state receives.
#[derive(Clone, Copy, Debug, PartialEq, Eq, Structural)]
pub enum UiInput {
    /// The escape key went down.
    Escape,
    /// The user clicked this entity.
    Click(EntityRef),
    /// Any other event.
    Other,
}

/// What showing or hiding a menu does to the user interface.
#[derive(Clone, Copy, Debug, PartialEq, Eq, Structural)]
pub struct VisibilityUpdate {
    /// The root entity of the menu, whose visibility is set.
    pub root: Option<EntityRef>,
    /// The visibility that the root entity is given.
    pub visible: bool,
    /// Whether the cursor is made visible; it is left as it is otherwise.
    pub show_cursor: bool,
}

/// The update that gives the menu rooted at `root` the visibility `visible`.
pub open spec fn visibility_of(root: Option<EntityRef>, visible: bool) -> VisibilityUpdate {
    VisibilityUpdate { root, visible, show_cursor: visible }
}

/// A menu state with a root entity.
pub trait UiState {
    /// The root entity of the menu, once it was found.
    spec fn root(&self) -> Option<EntityRef>;

    /// The root entity of the menu, once it was found.
    fn get_root(&self) -> (r: Option<EntityRef>)
        ensures
            r == self.root(),
    ;

    /// Gives the root entity, where there is one, the visibility
    /// `is_visible`, and shows the cursor when the menu becomes visible.
    fn set_visibility(&self, is_visible: bool) -> (r: VisibilityUpdate)
        ensures
            r == visibility_of(self.root(), is_visible),
    {
        VisibilityUpdate { root: self.get_root(), visible: is_visible, show_cursor: is_visible }
    }
}

} // verus!
