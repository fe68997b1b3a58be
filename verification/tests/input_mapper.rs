use fractal_lab::input::{Command, InputEvent, InputMapper, Key};
use fractal_lab::rat::Frac;

fn int_pos(v: i64) -> Frac {
    Frac::from_int(v)
}

#[test]
fn keys_map_to_viewport_commands() {
    let mut m = InputMapper::new();
    let d = m.handle(InputEvent::KeyPressed { key: Key::Minus });
    assert_eq!(d.command, Some(Command::ZoomOut));
    assert!(d.redraw);
    let d = m.handle(InputEvent::KeyPressed { key: Key::Equals });
    assert_eq!(d.command, Some(Command::ZoomIn));
    let d = m.handle(InputEvent::KeyPressed { key: Key::Space });
    assert_eq!(d.command, Some(Command::ResetView));
    let d = m.handle(InputEvent::KeyPressed { key: Key::ArrowUp });
    assert_eq!(
        d.command,
        Some(Command::Scroll { x: int_pos(0), y: int_pos(-1) })
    );
    let d = m.handle(InputEvent::KeyPressed { key: Key::ArrowRight });
    assert_eq!(
        d.command,
        Some(Command::Scroll { x: int_pos(1), y: int_pos(0) })
    );
    let d = m.handle(InputEvent::KeyPressed { key: Key::Other });
    assert_eq!(d.command, None);
    assert!(!d.redraw);
}

#[test]
fn wheel_direction_selects_the_zoom() {
    let mut m = InputMapper::new();
    let d = m.handle(InputEvent::Wheel { down: true });
    assert_eq!(d.command, Some(Command::ZoomOut));
    assert!(d.redraw);
    let d = m.handle(InputEvent::Wheel { down: false });
    assert_eq!(d.command, Some(Command::ZoomIn));
}

#[test]
fn dragging_pans_and_plain_movement_does_not() {
    let mut m = InputMapper::new();
    // move without the button: only the position is remembered
    let d = m.handle(InputEvent::CursorMoved { x: int_pos(100), y: int_pos(50) });
    assert_eq!(d.command, None);
    assert!(!d.redraw);
    // press and drag to (90, 70): pan by (last - new) on x, (new - last) on y
    m.handle(InputEvent::LeftButton { pressed: true });
    let d = m.handle(InputEvent::CursorMoved { x: int_pos(90), y: int_pos(70) });
    match d.command {
        Some(Command::Pan { dx, dy }) => {
            assert_eq!(dx.num, 10);
            assert_eq!(dx.den, 1);
            assert_eq!(dy.num, 20);
            assert_eq!(dy.den, 1);
        }
        other => panic!("expected a pan command, got {:?}", other),
    }
    assert!(d.redraw);
    // release: movement is tracking again
    m.handle(InputEvent::LeftButton { pressed: false });
    let d = m.handle(InputEvent::CursorMoved { x: int_pos(0), y: int_pos(0) });
    assert_eq!(d.command, None);
}

#[test]
fn close_request_exits() {
    let mut m = InputMapper::new();
    let d = m.handle(InputEvent::CloseRequested);
    assert!(d.exit);
    assert_eq!(d.command, None);
    assert!(!d.redraw);
}
