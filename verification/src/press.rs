//! What a press of the primary button does.

use vstd::prelude::*;
use crate::edge::{Edge, Outside};

verus! {

/// What the window does with a press.
#[derive(Clone, Copy, Debug, PartialEq, Eq, Structural)]
pub enum PressAction {
    /// The press is an ordinary click: no resize starts.
    Ignore,
    /// The window system takes over and resizes the window from `edge`. The
    /// button and the time are those of the press.
    BeginResize { edge: Edge, button: i32, time: u32 },
}

/// The action for a press over `edge`.
pub open spec fn press_action(edge: Option<Edge>, button: i32, time: u32) -> PressAction {
    match edge {
        None => PressAction::Ignore,
        Some(edge) => (PressAction::BeginResize { edge, button, time }),
    }
}

/// Decides what a press of `button` at `time` does, for a pointer at a place
/// described by `outside`: over a resize zone it starts a resize from that
/// edge, inside the content it starts none.
pub fn on_press(outside: Outside, button: i32, time: u32) -> (action: PressAction)
    ensures
        action == press_action(outside.spec_edge(), button, time),
        action is Ignore <==> outside.spec_edge() is None,
{
    match outside.edge() {
        None => PressAction::Ignore,
        Some(edge) => PressAction::BeginResize { edge, button, time },
    }
}

} // verus!
