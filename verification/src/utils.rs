//! Values for the Steam utils interface.

use vstd::prelude::*;

verus! {

/// A corner of the screen, where popups from the steam overlay
/// appear and display themselves.
#[derive(Clone, Copy, Debug, PartialEq, Eq, Structural)]
pub enum NotificationPosition {
    TopLeft,
    TopRight,
    BottomLeft,
    BottomRight,
}

} // verus!
