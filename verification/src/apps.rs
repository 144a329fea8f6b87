//! Values for the Steam apps interface.

use vstd::prelude::*;

verus! {

/// An id for a steam app/game
#[derive(Clone, Copy, Debug, PartialEq, Eq, Hash, Structural)]
pub struct AppId(pub u32);

} // verus!
