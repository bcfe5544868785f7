//! The fixed answers of the native view shim.
//!
//! The view subclass answers a few platform questions with constants so
//! that it takes part correctly in focus, hit-testing and mouse
//! tracking: it always accepts input focus, it uses top-left-origin
//! coordinates, it re-registers one full-bounds tracking area with a
//! fixed option set whenever asked, and it accepts every drag
//! operation.

use vstd::prelude::*;

verus! {

/// Tracking option: fire mouse entered and exited callbacks.
pub const TRACKING_MOUSE_ENTERED_AND_EXITED: u64 = 0x01;

/// Tracking option: fire mouse moved callbacks.
pub const TRACKING_MOUSE_MOVED: u64 = 0x02;

/// Tracking option: fire cursor update callbacks.
pub const TRACKING_CURSOR_UPDATE: u64 = 0x04;

/// Tracking option: track while the window is the key window.
pub const TRACKING_ACTIVE_IN_KEY_WINDOW: u64 = 0x20;

/// The view always accepts input focus, so key events reach it.
pub fn accepts_first_responder() -> (r: bool)
    ensures
        r,
{
    true
}

/// The view uses top-left-origin coordinates, so converted cursor
/// positions need no further flip.
pub fn is_flipped() -> (r: bool)
    ensures
        r,
{
    true
}

/// The options every tracking area is registered with: enter and exit,
/// movement, cursor updates, active in the key window. Registering with
/// all four on every bounds change guarantees enter and exit events
/// keep firing after a resize.
pub fn tracking_area_options() -> (r: u64)
    ensures
        r == TRACKING_MOUSE_ENTERED_AND_EXITED | TRACKING_MOUSE_MOVED | TRACKING_CURSOR_UPDATE
            | TRACKING_ACTIVE_IN_KEY_WINDOW,
{
    TRACKING_MOUSE_ENTERED_AND_EXITED | TRACKING_MOUSE_MOVED | TRACKING_CURSOR_UPDATE
        | TRACKING_ACTIVE_IN_KEY_WINDOW
}

/// The drag-operation mask a drag-enter answers: every operation is
/// accepted.
pub fn drag_operation_every() -> (r: u64)
    ensures
        r == u64::MAX,
{
    u64::MAX
}

} // verus!
