//! The toolkit-neutral input events the translator produces and the
//! handler queues.
//!
//! The type parameter `S` is the scalar carried by cursor positions and
//! scroll deltas. The translation logic never computes with those
//! scalars: they are passed through from the native event unconverted,
//! so the logic is stated for every scalar type alike.

use vstd::prelude::*;

use crate::keyboard::KeyCode;
use crate::keyboard::ModifiersState;
use crate::mouse::Button;

verus! {

/// A mouse input event.
#[derive(Debug, PartialEq)]
pub enum MouseEvent<S> {
    /// A mouse button was pressed.
    ButtonPressed(Button),
    /// A mouse button was released.
    ButtonReleased(Button),
    /// The cursor moved to a view-local position, top-left origin.
    CursorMoved {
        /// The view-local horizontal position.
        x: S,
        /// The view-local vertical position.
        y: S,
    },
    /// The cursor entered the view.
    CursorEntered,
    /// The cursor left the view.
    CursorLeft,
    /// The wheel scrolled by a pixel delta, passed through unconverted.
    WheelScrolled {
        /// The horizontal pixel delta.
        delta_x: S,
        /// The vertical pixel delta.
        delta_y: S,
    },
}

/// A keyboard input event.
#[derive(Debug, PartialEq)]
pub enum KeyboardEvent {
    /// A key with a mapped key code was pressed.
    KeyPressed {
        /// The portable key code.
        key_code: KeyCode,
        /// The modifier state at the time of the press.
        modifiers: ModifiersState,
    },
    /// A key with a mapped key code was released.
    KeyReleased {
        /// The portable key code.
        key_code: KeyCode,
        /// The modifier state at the time of the release.
        modifiers: ModifiersState,
    },
    /// A character of typed text was received.
    CharacterReceived(char),
}

/// A window event.
#[derive(Debug, PartialEq)]
pub enum WindowEvent {
    /// The view was resized to a physical size.
    Resized {
        /// The new physical width in pixels.
        width: u32,
        /// The new physical height in pixels.
        height: u32,
    },
    /// A dragged file hovers over the view.
    FileHovered(String),
    /// A dragged file was dropped on the view.
    FileDropped(String),
    /// The dragged files left the view without being dropped.
    FilesHoveredLeft,
}

/// An input event, as the toolkit consumes it.
#[derive(Debug, PartialEq)]
pub enum Event<S> {
    /// A mouse event.
    Mouse(MouseEvent<S>),
    /// A keyboard event.
    Keyboard(KeyboardEvent),
    /// A window event.
    Window(WindowEvent),
}

} // verus!
