//! Platform events, as the loop consumes them.

use vstd::prelude::*;
use crate::input::Key;

verus! {

/// One record drained from the platform's event queue.
#[derive(Clone, Copy, Debug, PartialEq, Eq)]
pub enum Event {
    /// The user asked the application to close.
    Quit,
    /// A key went down.
    KeyDown { key: Key },
    /// A key went up.
    KeyUp { key: Key },
    /// The pointer moved to the given window coordinates.
    PointerMoved { x: i32, y: i32 },
    /// Any event that the loop has no use for.
    Other,
}

} // verus!
