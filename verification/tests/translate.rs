use iced_nsview::event::Event;
use iced_nsview::event::KeyboardEvent;
use iced_nsview::event::MouseEvent;
use iced_nsview::keyboard::KeyCode;
use iced_nsview::keyboard::ModifiersState;
use iced_nsview::keyboard::SHIFT_FLAG;
use iced_nsview::mouse::Button;
use iced_nsview::translate::NativeEvent;
use iced_nsview::translate::NativeEventKind;
use iced_nsview::translate::translate;

fn native(kind: NativeEventKind) -> NativeEvent<f32> {
    NativeEvent {
        kind,
        location_x: 0.0,
        location_y: 0.0,
        button_number: 0,
        key_code: 0,
        modifier_flags: 0,
        scroll_delta_x: 0.0,
        scroll_delta_y: 0.0,
        characters: Vec::new(),
    }
}

#[test]
fn mouse_moved_carries_the_converted_point() {
    let event = NativeEvent { location_x: 10.0f32, location_y: 20.0f32, ..native(NativeEventKind::MouseMoved) };
    let translated = translate(event);
    assert_eq!(translated, vec![Event::Mouse(MouseEvent::CursorMoved { x: 10.0, y: 20.0 })]);
}

#[test]
fn dragging_also_moves_the_cursor() {
    let event = NativeEvent { location_x: 1.5f32, location_y: -2.5f32, ..native(NativeEventKind::LeftMouseDragged) };
    let translated = translate(event);
    assert_eq!(translated, vec![Event::Mouse(MouseEvent::CursorMoved { x: 1.5, y: -2.5 })]);
}

#[test]
fn left_and_right_buttons_translate() {
    assert_eq!(
        translate(native(NativeEventKind::LeftMouseDown)),
        vec![Event::Mouse(MouseEvent::ButtonPressed(Button::Left))]
    );
    assert_eq!(
        translate(native(NativeEventKind::LeftMouseUp)),
        vec![Event::Mouse(MouseEvent::ButtonReleased(Button::Left))]
    );
    assert_eq!(
        translate(native(NativeEventKind::RightMouseDown)),
        vec![Event::Mouse(MouseEvent::ButtonPressed(Button::Right))]
    );
    assert_eq!(
        translate(native(NativeEventKind::RightMouseUp)),
        vec![Event::Mouse(MouseEvent::ButtonReleased(Button::Right))]
    );
}

#[test]
fn other_buttons_use_the_button_index() {
    let down = NativeEvent { button_number: 2, ..native(NativeEventKind::OtherMouseDown) };
    assert_eq!(translate(down), vec![Event::Mouse(MouseEvent::ButtonPressed(Button::Middle))]);
    let up = NativeEvent { button_number: 4, ..native(NativeEventKind::OtherMouseUp) };
    assert_eq!(translate(up), vec![Event::Mouse(MouseEvent::ButtonReleased(Button::Other(4)))]);
}

#[test]
fn enter_and_exit_translate() {
    assert_eq!(
        translate(native(NativeEventKind::MouseEntered)),
        vec![Event::Mouse(MouseEvent::CursorEntered)]
    );
    assert_eq!(
        translate(native(NativeEventKind::MouseExited)),
        vec![Event::Mouse(MouseEvent::CursorLeft)]
    );
}

#[test]
fn scroll_deltas_pass_through_unconverted() {
    let event = NativeEvent {
        scroll_delta_x: -3.25f32,
        scroll_delta_y: 7.5f32,
        ..native(NativeEventKind::ScrollWheel)
    };
    assert_eq!(
        translate(event),
        vec![Event::Mouse(MouseEvent::WheelScrolled { delta_x: -3.25, delta_y: 7.5 })]
    );
}

#[test]
fn key_down_yields_characters_then_key_code() {
    let event = NativeEvent {
        key_code: 0, // the A key
        modifier_flags: SHIFT_FLAG,
        characters: vec!['A'],
        ..native(NativeEventKind::KeyDown)
    };
    let translated = translate(event);
    assert_eq!(
        translated,
        vec![
            Event::Keyboard(KeyboardEvent::CharacterReceived('A')),
            Event::Keyboard(KeyboardEvent::KeyPressed {
                key_code: KeyCode::A,
                modifiers: ModifiersState { shift: true, control: false, alt: false, logo: false },
            }),
        ]
    );
}

#[test]
fn key_down_with_unmapped_code_yields_characters_only() {
    let event = NativeEvent {
        key_code: 10, // outside the lookup table
        characters: vec!['§'],
        ..native(NativeEventKind::KeyDown)
    };
    let translated = translate(event);
    assert_eq!(translated, vec![Event::Keyboard(KeyboardEvent::CharacterReceived('§'))]);
}

#[test]
fn key_down_without_characters_yields_the_key_alone() {
    let event = NativeEvent {
        key_code: 53, // escape types no text
        ..native(NativeEventKind::KeyDown)
    };
    let translated = translate(event);
    assert_eq!(
        translated,
        vec![Event::Keyboard(KeyboardEvent::KeyPressed {
            key_code: KeyCode::Escape,
            modifiers: ModifiersState { shift: false, control: false, alt: false, logo: false },
        })]
    );
}

#[test]
fn key_up_yields_one_event_or_none() {
    let mapped = NativeEvent { key_code: 49, ..native(NativeEventKind::KeyUp) };
    assert_eq!(
        translate(mapped),
        vec![Event::Keyboard(KeyboardEvent::KeyReleased {
            key_code: KeyCode::Space,
            modifiers: ModifiersState { shift: false, control: false, alt: false, logo: false },
        })]
    );
    let unmapped = NativeEvent { key_code: 10, characters: vec!['x'], ..native(NativeEventKind::KeyUp) };
    assert_eq!(translate(unmapped), Vec::<Event<f32>>::new());
}

#[test]
fn unhandled_kinds_translate_to_nothing() {
    assert_eq!(translate(native(NativeEventKind::FlagsChanged)), Vec::<Event<f32>>::new());
    assert_eq!(translate(native(NativeEventKind::Other)), Vec::<Event<f32>>::new());
}
