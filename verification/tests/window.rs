use mistboard::window::{initial_position, position_check_ok, reaction_to, toggle_pin, WinPos, WindowEvent, WindowReaction};

fn top_right() -> WinPos {
    WinPos { x: 1644, y: 16 }
}

#[test]
fn visible_saved_position_is_restored() {
    let p = initial_position(Some(WinPos { x: 300, y: 200 }), 260, 1920, 1080, top_right());
    assert_eq!((p.x, p.y), (300, 200));
    let p = initial_position(Some(WinPos { x: -219, y: -39 }), 260, 1920, 1080, top_right());
    assert_eq!((p.x, p.y), (-219, -39));
}

#[test]
fn off_screen_position_goes_top_right() {
    for saved in [WinPos { x: -220, y: 0 }, WinPos { x: 0, y: -40 }, WinPos { x: 1880, y: 0 }, WinPos { x: 0, y: 1040 }] {
        let p = initial_position(Some(saved), 260, 1920, 1080, top_right());
        assert_eq!((p.x, p.y), (1644, 16));
    }
}

#[test]
fn no_saved_position_goes_top_right() {
    let p = initial_position(None, 390, 2560, 1440, WinPos { x: 2146, y: 24 });
    assert_eq!((p.x, p.y), (2146, 24));
}

#[test]
fn window_event_reactions() {
    assert!(matches!(reaction_to(WindowEvent::CloseRequested), WindowReaction::SavePosition));
    assert!(matches!(reaction_to(WindowEvent::Focused(false)), WindowReaction::SendToBottom));
    assert!(matches!(reaction_to(WindowEvent::Focused(true)), WindowReaction::Ignore));
    assert!(matches!(reaction_to(WindowEvent::Resized { width: 0, height: 0 }), WindowReaction::RestoreAndSendToBottom));
    assert!(matches!(reaction_to(WindowEvent::Resized { width: 0, height: 300 }), WindowReaction::RestoreAndSendToBottom));
    assert!(matches!(reaction_to(WindowEvent::Resized { width: 260, height: 0 }), WindowReaction::RestoreAndSendToBottom));
    assert!(matches!(reaction_to(WindowEvent::Resized { width: 260, height: 300 }), WindowReaction::Ignore));
    assert!(matches!(reaction_to(WindowEvent::Other), WindowReaction::Ignore));
}

#[test]
fn pin_toggles() {
    assert!(toggle_pin(false));
    assert!(!toggle_pin(true));
    assert!(toggle_pin(toggle_pin(true)));
}

#[test]
fn position_check_ranges() {
    assert!(position_check_ok(None, i32::MIN, u32::MAX, u32::MAX));
    assert!(position_check_ok(Some(WinPos { x: i32::MIN, y: 10 }), 260, 0x8000_0000, 0x8000_0000));
    assert!(position_check_ok(Some(WinPos { x: 10, y: 10 }), 260, 1920, 1080));
    assert!(!position_check_ok(Some(WinPos { x: 10, y: 10 }), i32::MIN + 40, 1920, 1080));
    assert!(!position_check_ok(Some(WinPos { x: 10, y: 10 }), 260, 0x8000_0000, 1080));
    assert!(position_check_ok(Some(WinPos { x: 10, y: -100 }), 260, 0x8000_0000, 1080));
    assert!(!position_check_ok(Some(WinPos { x: 10, y: 10 }), 260, 0x7FFF_FFFF, 0x8000_0000));
}
