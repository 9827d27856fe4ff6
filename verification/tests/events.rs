use triangle_demo::event::Key;
use triangle_demo::event::WindowEvent;

#[test]
fn window_close_is_a_quit_request() {
    assert!(WindowEvent::Quit.is_quit_request());
}

#[test]
fn escape_down_is_a_quit_request() {
    assert!(WindowEvent::KeyDown { key: Some(Key::Escape) }.is_quit_request());
}

#[test]
fn other_keys_are_no_quit_request() {
    assert!(!WindowEvent::KeyDown { key: Some(Key::Other) }.is_quit_request());
}

#[test]
fn unnamed_key_is_no_quit_request() {
    assert!(!WindowEvent::KeyDown { key: None }.is_quit_request());
}

#[test]
fn other_events_are_no_quit_request() {
    assert!(!WindowEvent::Other.is_quit_request());
}
