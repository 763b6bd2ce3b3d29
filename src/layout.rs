//! The custom actions that layers bind to keys, and the transitions of
//! them that the layout engine reports once per tick.
use vstd::prelude::*;
use crate::mouse::MAction;

verus! {

/// An action outside the keycode set.
#[derive(Clone, Copy, Debug, PartialEq, Eq, Structural)]
pub enum CustomAction {
    /// A mouse action.
    M(MAction),
    /// Hands the host connection to the other half.
    USB,
}

/// The custom-action transition of one tick, if any.
#[derive(Clone, Copy, Debug, PartialEq, Eq, Structural)]
pub enum CustomEvent {
    NoEvent,
    Press(CustomAction),
    Release(CustomAction),
}

} // verus!
