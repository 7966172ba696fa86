use rendust::window::{EventKind, WindowState};

#[test]
fn new_window_does_not_exit() {
    let w = WindowState::new(1280, 720);
    assert_eq!(w, WindowState { width: 1280, height: 720, should_exit: false });
}

#[test]
fn close_request_sets_exit_and_is_not_forwarded() {
    let mut w = WindowState::new(1280, 720);
    let forward = w.handle_events(&vec![EventKind::Other, EventKind::Closed, EventKind::Other]);
    assert_eq!(forward, vec![true, false, true]);
    assert!(w.should_exit);
    assert_eq!((w.width, w.height), (1280, 720));
}

#[test]
fn poll_without_close_clears_exit() {
    let mut w = WindowState::new(800, 600);
    w.handle_events(&vec![EventKind::Closed]);
    assert!(w.should_exit);
    let forward = w.handle_events(&vec![EventKind::Other, EventKind::Other]);
    assert_eq!(forward, vec![true, true]);
    assert!(!w.should_exit);
}

#[test]
fn empty_poll() {
    let mut w = WindowState::new(800, 600);
    let forward = w.handle_events(&Vec::new());
    assert!(forward.is_empty());
    assert!(!w.should_exit);
}

#[test]
fn begin_events_clears_exit_and_keeps_size() {
    let mut w = WindowState { width: 640, height: 480, should_exit: true };
    w.begin_events();
    assert_eq!(w, WindowState { width: 640, height: 480, should_exit: false });
}

#[test]
fn routing_one_event_at_a_time() {
    let mut w = WindowState::new(640, 480);
    w.begin_events();
    assert!(w.route_event(EventKind::Other));
    assert!(!w.should_exit);
    assert!(!w.route_event(EventKind::Closed));
    assert!(w.should_exit);
    assert!(w.route_event(EventKind::Other));
    assert!(w.should_exit);
    assert_eq!((w.width, w.height), (640, 480));
}
