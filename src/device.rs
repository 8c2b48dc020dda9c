//! Interfaces of a device, named independently of its model.
use vstd::prelude::*;

verus! {

/// The role of a device node: the primary interface carries reports, the
/// events interface carries key events.
#[derive(Clone, Copy, Debug, PartialEq, Eq)]
pub enum Interface {
    Primary,
    Events,
}

impl Interface {
    /// The keyboard's interface with this role.
    pub fn to_ryosmkfx(self) -> (r: crate::ryosmkfx::Interface)
        ensures
            (self == Interface::Primary) == (r == crate::ryosmkfx::Interface::Primary),
    {
        match self {
            Interface::Primary => crate::ryosmkfx::Interface::Primary,
            Interface::Events => crate::ryosmkfx::Interface::Events,
        }
    }

    /// The mouse's interface with this role.
    pub fn to_tyon(self) -> (r: crate::tyon::Interface)
        ensures
            (self == Interface::Primary) == (r == crate::tyon::Interface::Primary),
    {
        match self {
            Interface::Primary => crate::tyon::Interface::Primary,
            Interface::Events => crate::tyon::Interface::Events,
        }
    }
}

} // verus!
