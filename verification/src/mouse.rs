//! Mouse decoding and cursor selection.
//!
//! A native mouse event for a non-primary button carries a button index;
//! index 2 is the middle button and every other index is passed through
//! as an "other" button. After each frame the toolkit reports a semantic
//! mouse-interaction hint, and a fixed total mapping selects the native
//! cursor shape for it.

use vstd::prelude::*;

verus! {

/// A mouse button.
#[derive(Clone, Copy, Debug, PartialEq, Eq, Structural)]
pub enum Button {
    /// The left (primary) button.
    Left,
    /// The right (secondary) button.
    Right,
    /// The middle button.
    Middle,
    /// Any further button, by its native index truncated to a byte.
    Other(u8),
}

/// The button a native button index decodes to: index 2 is the middle
/// button, every other index is an "other" button carrying the low byte
/// of the index.
pub open spec fn spec_button(number: i64) -> Button {
    if number == 2 {
        Button::Middle
    } else {
        Button::Other((number & 0xff) as u8)
    }
}

/// Decodes a native button index into a mouse button.
pub fn button_from_number(number: i64) -> (b: Button)
    ensures
        b == spec_button(number),
{
    if number == 2 {
        Button::Middle
    } else {
        assert(0 <= (number & 0xff) < 256) by (bit_vector);
        let low: i64 = number & 0xff;
        Button::Other(low as u8)
    }
}

/// The semantic cursor-shape hint the toolkit reports after drawing a
/// frame.
#[derive(Clone, Copy, Debug, PartialEq, Eq, Structural)]
pub enum Interaction {
    /// No particular interaction.
    Idle,
    /// A clickable element is under the cursor.
    Pointer,
    /// A grabbable element is under the cursor.
    Grab,
    /// An editable text element is under the cursor.
    Text,
    /// A precise-selection element is under the cursor.
    Crosshair,
    /// The application is busy.
    Working,
    /// An element is being dragged.
    Grabbing,
    /// A horizontal resize handle is under the cursor.
    ResizingHorizontally,
    /// A vertical resize handle is under the cursor.
    ResizingVertically,
}

/// A native cursor shape.
#[derive(Clone, Copy, Debug, PartialEq, Eq, Structural)]
pub enum Cursor {
    /// The default arrow.
    Arrow,
    /// The pointing hand.
    PointingHand,
    /// The open hand.
    OpenHand,
    /// The text-insertion beam.
    IBeam,
    /// The crosshair.
    Crosshair,
    /// The closed hand.
    ClosedHand,
    /// The left-right resize arrows.
    ResizeLeftRight,
    /// The up-down resize arrows.
    ResizeUpDown,
}

/// The fixed total mapping from an interaction hint to the native
/// cursor shape shown for it.
pub open spec fn spec_cursor(interaction: Interaction) -> Cursor {
    match interaction {
        Interaction::Idle => Cursor::Arrow,
        Interaction::Pointer => Cursor::PointingHand,
        Interaction::Grab => Cursor::OpenHand,
        Interaction::Text => Cursor::IBeam,
        Interaction::Crosshair => Cursor::Crosshair,
        Interaction::Working => Cursor::Arrow,
        Interaction::Grabbing => Cursor::ClosedHand,
        Interaction::ResizingHorizontally => Cursor::ResizeLeftRight,
        Interaction::ResizingVertically => Cursor::ResizeUpDown,
    }
}

/// Selects the native cursor shape for an interaction hint.
pub fn cursor_for_interaction(interaction: Interaction) -> (c: Cursor)
    ensures
        c == spec_cursor(interaction),
{
    match interaction {
        Interaction::Idle => Cursor::Arrow,
        Interaction::Pointer => Cursor::PointingHand,
        Interaction::Grab => Cursor::OpenHand,
        Interaction::Text => Cursor::IBeam,
        Interaction::Crosshair => Cursor::Crosshair,
        Interaction::Working => Cursor::Arrow,
        Interaction::Grabbing => Cursor::ClosedHand,
        Interaction::ResizingHorizontally => Cursor::ResizeLeftRight,
        Interaction::ResizingVertically => Cursor::ResizeUpDown,
    }
}

/// The pointer hint always selects the pointing hand, and the grab hint
/// always selects the open hand.
pub proof fn lemma_pointer_and_grab_cursors()
    ensures
        spec_cursor(Interaction::Pointer) == Cursor::PointingHand,
        spec_cursor(Interaction::Grab) == Cursor::OpenHand,
{
}

} // verus!
