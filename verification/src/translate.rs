//! Translation of native input events into toolkit events.
//!
//! A native event is modelled by the plain values the translation reads:
//! its kind, the cursor location already converted into the view's
//! top-left-origin coordinates, the button index, the scan code, the
//! modifier bitmask, the scroll deltas and the typed characters. The
//! translation is a pure function of those values: a mouse event yields
//! exactly one toolkit event, a key event yields zero or one key-code
//! event plus zero or more character events, and a kind the table does
//! not handle yields none.

use vstd::prelude::*;

use crate::event::Event;
use crate::event::KeyboardEvent;
use crate::event::MouseEvent;
use crate::keyboard::spec_key_code;
use crate::keyboard::spec_modifiers;
use crate::keyboard::key_code_for;
use crate::keyboard::modifiers_from_flags;
use crate::mouse::Button;
use crate::mouse::spec_button;
use crate::mouse::button_from_number;

verus! {

/// The kind of a native input event, as the view's callbacks receive
/// them.
#[derive(Clone, Copy, Debug, PartialEq, Eq, Structural)]
pub enum NativeEventKind {
    /// The left button went down.
    LeftMouseDown,
    /// The left button went up.
    LeftMouseUp,
    /// The right button went down.
    RightMouseDown,
    /// The right button went up.
    RightMouseUp,
    /// The mouse moved with no button held.
    MouseMoved,
    /// The mouse moved with the left button held.
    LeftMouseDragged,
    /// The cursor entered the tracking area.
    MouseEntered,
    /// The cursor left the tracking area.
    MouseExited,
    /// A key went down.
    KeyDown,
    /// A key went up.
    KeyUp,
    /// The scroll wheel moved.
    ScrollWheel,
    /// A further button went down.
    OtherMouseDown,
    /// A further button went up.
    OtherMouseUp,
    /// The modifier flags changed.
    FlagsChanged,
    /// Any other kind of event.
    Other,
}

/// The plain values of a native input event that the translation reads.
///
/// `location_x` and `location_y` are the cursor position already
/// converted into the view's own top-left-origin coordinates; the
/// conversion itself is the platform's and happens before translation.
#[derive(Debug, PartialEq)]
pub struct NativeEvent<S> {
    /// The kind of the event.
    pub kind: NativeEventKind,
    /// The view-local horizontal cursor position.
    pub location_x: S,
    /// The view-local vertical cursor position.
    pub location_y: S,
    /// The native index of the button, for further-button events.
    pub button_number: i64,
    /// The hardware scan code, for key events.
    pub key_code: u16,
    /// The native modifier bitmask, for key events.
    pub modifier_flags: u64,
    /// The horizontal scroll delta in pixels.
    pub scroll_delta_x: S,
    /// The vertical scroll delta in pixels.
    pub scroll_delta_y: S,
    /// The typed characters, for key-down events.
    pub characters: Vec<char>,
}

/// One character-received event per typed character, in order.
pub open spec fn spec_character_events<S>(chars: Seq<char>) -> Seq<Event<S>>
    decreases chars.len(),
{
    if chars.len() == 0 {
        Seq::empty()
    } else {
        spec_character_events(chars.drop_last()).push(
            Event::Keyboard(KeyboardEvent::CharacterReceived(chars.last())),
        )
    }
}

/// The events of a key press: the typed characters first, then a
/// key-pressed event if the scan code is in the lookup table. The key
/// code and the typed text are independent native fields, so a key-down
/// can produce both.
pub open spec fn spec_key_down_events<S>(code: u16, flags: u64, chars: Seq<char>) -> Seq<
    Event<S>,
> {
    spec_character_events(chars) + match spec_key_code(code) {
        Some(kc) => seq![
            Event::Keyboard(KeyboardEvent::KeyPressed {
                key_code: kc,
                modifiers: spec_modifiers(flags),
            }),
        ],
        None => Seq::empty(),
    }
}

/// The events of a key release: a key-released event if the scan code
/// is in the lookup table, nothing otherwise.
pub open spec fn spec_key_up_events<S>(code: u16, flags: u64) -> Seq<Event<S>> {
    match spec_key_code(code) {
        Some(kc) => seq![
            Event::Keyboard(KeyboardEvent::KeyReleased {
                key_code: kc,
                modifiers: spec_modifiers(flags),
            }),
        ],
        None => Seq::empty(),
    }
}

/// The toolkit events a native event translates to.
pub open spec fn spec_translate<S>(e: NativeEvent<S>) -> Seq<Event<S>> {
    match e.kind {
        NativeEventKind::LeftMouseDown => seq![
            Event::Mouse(MouseEvent::ButtonPressed(Button::Left)),
        ],
        NativeEventKind::LeftMouseUp => seq![
            Event::Mouse(MouseEvent::ButtonReleased(Button::Left)),
        ],
        NativeEventKind::RightMouseDown => seq![
            Event::Mouse(MouseEvent::ButtonPressed(Button::Right)),
        ],
        NativeEventKind::RightMouseUp => seq![
            Event::Mouse(MouseEvent::ButtonReleased(Button::Right)),
        ],
        NativeEventKind::MouseMoved => seq![
            Event::Mouse(MouseEvent::CursorMoved { x: e.location_x, y: e.location_y }),
        ],
        NativeEventKind::LeftMouseDragged => seq![
            Event::Mouse(MouseEvent::CursorMoved { x: e.location_x, y: e.location_y }),
        ],
        NativeEventKind::MouseEntered => seq![Event::Mouse(MouseEvent::CursorEntered)],
        NativeEventKind::MouseExited => seq![Event::Mouse(MouseEvent::CursorLeft)],
        NativeEventKind::KeyDown => spec_key_down_events(
            e.key_code,
            e.modifier_flags,
            e.characters@,
        ),
        NativeEventKind::KeyUp => spec_key_up_events(e.key_code, e.modifier_flags),
        NativeEventKind::ScrollWheel => seq![
            Event::Mouse(MouseEvent::WheelScrolled {
                delta_x: e.scroll_delta_x,
                delta_y: e.scroll_delta_y,
            }),
        ],
        NativeEventKind::OtherMouseDown => seq![
            Event::Mouse(MouseEvent::ButtonPressed(spec_button(e.button_number))),
        ],
        NativeEventKind::OtherMouseUp => seq![
            Event::Mouse(MouseEvent::ButtonReleased(spec_button(e.button_number))),
        ],
        NativeEventKind::FlagsChanged => Seq::empty(),
        NativeEventKind::Other => Seq::empty(),
    }
}

/// Reads one typed character out of a key event's character list.
fn char_at(characters: &Vec<char>, i: usize) -> (c: char)
    requires
        i < characters@.len(),
    ensures
        c == characters@[i as int],
{
    characters[i]
}

/// Emits the events of a key press: one character-received event per
/// typed character, then a key-pressed event if the scan code maps.
fn key_down_events<S: Copy>(code: u16, flags: u64, characters: &Vec<char>) -> (r: Vec<
    Event<S>,
>)
    ensures
        r@ == spec_key_down_events::<S>(code, flags, characters@),
{
    let mut r: Vec<Event<S>> = Vec::new();
    let mut i: usize = 0;
    proof {
        assert(characters@.take(0) =~= Seq::<char>::empty());
    }
    while i < characters.len()
        invariant
            i <= characters.len(),
            r@ == spec_character_events::<S>(characters@.take(i as int)),
        decreases characters.len() - i,
    {
        let c: char = char_at(characters, i);
        r.push(Event::Keyboard(KeyboardEvent::CharacterReceived(c)));
        proof {
            let taken = characters@.take(i + 1);
            assert(taken.drop_last() =~= characters@.take(i as int));
            assert(taken.last() == characters@[i as int]);
        }
        i += 1;
    }
    proof {
        assert(characters@.take(characters.len() as int) =~= characters@);
    }
    match key_code_for(code) {
        Some(kc) => {
            r.push(
                Event::Keyboard(
                    KeyboardEvent::KeyPressed {
                        key_code: kc,
                        modifiers: modifiers_from_flags(flags),
                    },
                ),
            );
        },
        None => {},
    }
    proof {
        assert(r@ =~= spec_key_down_events::<S>(code, flags, characters@));
    }
    r
}

/// Emits the events of a key release: a key-released event if the scan
/// code maps, nothing otherwise.
fn key_up_events<S: Copy>(code: u16, flags: u64) -> (r: Vec<Event<S>>)
    ensures
        r@ == spec_key_up_events::<S>(code, flags),
{
    let mut r: Vec<Event<S>> = Vec::new();
    match key_code_for(code) {
        Some(kc) => {
            r.push(
                Event::Keyboard(
                    KeyboardEvent::KeyReleased {
                        key_code: kc,
                        modifiers: modifiers_from_flags(flags),
                    },
                ),
            );
        },
        None => {},
    }
    proof {
        assert(r@ =~= spec_key_up_events::<S>(code, flags));
    }
    r
}

/// Translates one native input event into the toolkit events it stands
/// for.
pub fn translate<S: Copy>(event: NativeEvent<S>) -> (r: Vec<Event<S>>)
    ensures
        r@ == spec_translate(event),
{
    let r: Vec<Event<S>> = match event.kind {
        NativeEventKind::LeftMouseDown => vec![
            Event::Mouse(MouseEvent::ButtonPressed(Button::Left)),
        ],
        NativeEventKind::LeftMouseUp => vec![
            Event::Mouse(MouseEvent::ButtonReleased(Button::Left)),
        ],
        NativeEventKind::RightMouseDown => vec![
            Event::Mouse(MouseEvent::ButtonPressed(Button::Right)),
        ],
        NativeEventKind::RightMouseUp => vec![
            Event::Mouse(MouseEvent::ButtonReleased(Button::Right)),
        ],
        NativeEventKind::MouseMoved => vec![
            Event::Mouse(MouseEvent::CursorMoved { x: event.location_x, y: event.location_y }),
        ],
        NativeEventKind::LeftMouseDragged => vec![
            Event::Mouse(MouseEvent::CursorMoved { x: event.location_x, y: event.location_y }),
        ],
        NativeEventKind::MouseEntered => vec![Event::Mouse(MouseEvent::CursorEntered)],
        NativeEventKind::MouseExited => vec![Event::Mouse(MouseEvent::CursorLeft)],
        NativeEventKind::KeyDown => key_down_events(
            event.key_code,
            event.modifier_flags,
            &event.characters,
        ),
        NativeEventKind::KeyUp => key_up_events(event.key_code, event.modifier_flags),
        NativeEventKind::ScrollWheel => vec![
            Event::Mouse(MouseEvent::WheelScrolled {
                delta_x: event.scroll_delta_x,
                delta_y: event.scroll_delta_y,
            }),
        ],
        NativeEventKind::OtherMouseDown => vec![
            Event::Mouse(MouseEvent::ButtonPressed(button_from_number(event.button_number))),
        ],
        NativeEventKind::OtherMouseUp => vec![
            Event::Mouse(MouseEvent::ButtonReleased(button_from_number(event.button_number))),
        ],
        NativeEventKind::FlagsChanged => Vec::new(),
        NativeEventKind::Other => Vec::new(),
    };
    proof {
        assert(r@ =~= spec_translate(event));
    }
    r
}

} // verus!
