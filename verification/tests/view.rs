use iced_nsview::view::accepts_first_responder;
use iced_nsview::view::drag_operation_every;
use iced_nsview::view::is_flipped;
use iced_nsview::view::tracking_area_options;
use iced_nsview::view::TRACKING_ACTIVE_IN_KEY_WINDOW;
use iced_nsview::view::TRACKING_CURSOR_UPDATE;
use iced_nsview::view::TRACKING_MOUSE_ENTERED_AND_EXITED;
use iced_nsview::view::TRACKING_MOUSE_MOVED;

#[test]
fn the_view_always_takes_focus_and_flips() {
    assert!(accepts_first_responder());
    assert!(is_flipped());
}

#[test]
fn tracking_areas_use_the_four_fixed_options() {
    assert_eq!(tracking_area_options(), 0x27);
    assert_eq!(
        tracking_area_options(),
        TRACKING_MOUSE_ENTERED_AND_EXITED
            | TRACKING_MOUSE_MOVED
            | TRACKING_CURSOR_UPDATE
            | TRACKING_ACTIVE_IN_KEY_WINDOW
    );
}

#[test]
fn every_drag_operation_is_accepted() {
    assert_eq!(drag_operation_every(), u64::MAX);
}
