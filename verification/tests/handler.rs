use iced_nsview::event::Event;
use iced_nsview::event::MouseEvent;
use iced_nsview::event::WindowEvent;
use iced_nsview::gpu::PresentMode;
use iced_nsview::gpu::TextureFormat;
use iced_nsview::gpu::TextureUsage;
use iced_nsview::handler::EventHandler;
use iced_nsview::handler::Viewport;
use iced_nsview::translate::NativeEvent;
use iced_nsview::translate::NativeEventKind;

fn handler() -> EventHandler<f64> {
    EventHandler::new(Viewport { width: 400, height: 300, scale_factor: 2.0 })
}

#[test]
fn construction_sizes_the_swap_chain_exactly() {
    let h = handler();
    assert_eq!(h.swap_chain.width, 400);
    assert_eq!(h.swap_chain.height, 300);
    assert_eq!(h.swap_chain.format, TextureFormat::Bgra8UnormSrgb);
    assert_eq!(h.swap_chain.usage, TextureUsage::OutputAttachment);
    assert_eq!(h.swap_chain.present_mode, PresentMode::Mailbox);
    assert!(h.queue.is_empty());
    assert!(!h.did_exit_drag);
}

#[test]
fn resize_rebuilds_the_swap_chain_and_queues_the_event() {
    let mut h = handler();
    h.resize(800, 600, 2.0);
    assert_eq!(h.swap_chain.width, 800);
    assert_eq!(h.swap_chain.height, 600);
    assert_eq!(h.viewport, Viewport { width: 800, height: 600, scale_factor: 2.0 });
    assert_eq!(h.queue, vec![Event::Window(WindowEvent::Resized { width: 800, height: 600 })]);
}

#[test]
fn repeated_resizes_keep_no_stale_dimension() {
    let mut h = handler();
    h.resize(800, 600, 2.0);
    h.resize(123, 456, 1.0);
    assert_eq!(h.swap_chain.width, 123);
    assert_eq!(h.swap_chain.height, 456);
    assert_eq!(
        h.queue,
        vec![
            Event::Window(WindowEvent::Resized { width: 800, height: 600 }),
            Event::Window(WindowEvent::Resized { width: 123, height: 456 }),
        ]
    );
}

#[test]
fn native_events_are_queued_in_order() {
    let mut h = handler();
    h.handle_native_event(NativeEvent {
        kind: NativeEventKind::MouseEntered,
        location_x: 0.0,
        location_y: 0.0,
        button_number: 0,
        key_code: 0,
        modifier_flags: 0,
        scroll_delta_x: 0.0,
        scroll_delta_y: 0.0,
        characters: Vec::new(),
    });
    h.handle_native_event(NativeEvent {
        kind: NativeEventKind::MouseMoved,
        location_x: 10.0,
        location_y: 20.0,
        button_number: 0,
        key_code: 0,
        modifier_flags: 0,
        scroll_delta_x: 0.0,
        scroll_delta_y: 0.0,
        characters: Vec::new(),
    });
    assert_eq!(
        h.queue,
        vec![
            Event::Mouse(MouseEvent::CursorEntered),
            Event::Mouse(MouseEvent::CursorMoved { x: 10.0, y: 20.0 }),
        ]
    );
}

#[test]
fn take_updates_drains_the_queue() {
    let mut h = handler();
    h.on_window_event(WindowEvent::FilesHoveredLeft);
    let drained = h.take_updates();
    assert_eq!(drained, vec![Event::Window(WindowEvent::FilesHoveredLeft)]);
    assert!(h.queue.is_empty());
    // an empty queue drains to nothing: the update step is skipped
    let drained_again = h.take_updates();
    assert!(drained_again.is_empty());
}

#[test]
fn drag_enter_hovers_each_path() {
    let mut h = handler();
    h.drag_entered(&vec![String::from("/a.txt"), String::from("/b.txt")]);
    assert!(!h.did_exit_drag);
    assert_eq!(
        h.queue,
        vec![
            Event::Window(WindowEvent::FileHovered(String::from("/a.txt"))),
            Event::Window(WindowEvent::FileHovered(String::from("/b.txt"))),
        ]
    );
}

#[test]
fn drag_end_after_exit_drops_nothing() {
    let mut h = handler();
    let paths = vec![String::from("/a.txt")];
    h.drag_entered(&paths);
    h.drag_exited();
    assert!(h.did_exit_drag);
    h.drag_ended(&paths);
    assert_eq!(
        h.queue,
        vec![
            Event::Window(WindowEvent::FileHovered(String::from("/a.txt"))),
            Event::Window(WindowEvent::FilesHoveredLeft),
        ]
    );
}

#[test]
fn drag_end_without_exit_drops_each_hovered_path() {
    let mut h = handler();
    let paths = vec![String::from("/a.txt"), String::from("/b.txt")];
    h.drag_entered(&paths);
    h.drag_ended(&paths);
    assert_eq!(
        h.queue,
        vec![
            Event::Window(WindowEvent::FileHovered(String::from("/a.txt"))),
            Event::Window(WindowEvent::FileHovered(String::from("/b.txt"))),
            Event::Window(WindowEvent::FileDropped(String::from("/a.txt"))),
            Event::Window(WindowEvent::FileDropped(String::from("/b.txt"))),
        ]
    );
}

#[test]
fn a_new_drag_clears_the_exit_flag() {
    let mut h = handler();
    h.drag_entered(&Vec::new());
    h.drag_exited();
    h.drag_ended(&Vec::new());
    h.drag_entered(&vec![String::from("/c.txt")]);
    assert!(!h.did_exit_drag);
    h.drag_ended(&vec![String::from("/c.txt")]);
    assert_eq!(
        h.queue,
        vec![
            Event::Window(WindowEvent::FilesHoveredLeft),
            Event::Window(WindowEvent::FileHovered(String::from("/c.txt"))),
            Event::Window(WindowEvent::FileDropped(String::from("/c.txt"))),
        ]
    );
}

#[test]
fn end_to_end_construct_then_resize() {
    let mut h = EventHandler::new(Viewport { width: 400, height: 300, scale_factor: 1.0 });
    assert_eq!((h.swap_chain.width, h.swap_chain.height), (400, 300));
    h.resize(800, 600, 1.0);
    assert_eq!((h.swap_chain.width, h.swap_chain.height), (800, 600));
    assert_eq!(h.queue, vec![Event::Window(WindowEvent::Resized { width: 800, height: 600 })]);
}
