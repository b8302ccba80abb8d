use cursive::event::{Event, Key, MouseButton, MouseEvent};
use cursive::stream::{
    map_key, map_mouse, refresh_timeout_ms, wakeup_event, StreamButton, StreamEvent, StreamInput,
    StreamKey, StreamMouse, Wakeup,
};
use cursive::vec::Vec2;

#[test]
fn stream_keys_map_to_events() {
    assert_eq!(map_key(StreamEvent::Key(StreamKey::Esc)), Event::Key(Key::Esc));
    assert_eq!(map_key(StreamEvent::Key(StreamKey::Delete)), Event::Key(Key::Del));
    assert_eq!(map_key(StreamEvent::Key(StreamKey::Insert)), Event::Key(Key::Ins));
    assert_eq!(map_key(StreamEvent::Key(StreamKey::F(3))), Event::Key(Key::F3));
    assert_eq!(map_key(StreamEvent::Key(StreamKey::F(12))), Event::Key(Key::F12));
    assert_eq!(map_key(StreamEvent::Key(StreamKey::F(13))), Event::Unknown(vec![13]));
    assert_eq!(map_key(StreamEvent::Key(StreamKey::Char('\n'))), Event::Key(Key::Enter));
    assert_eq!(map_key(StreamEvent::Key(StreamKey::Char('\t'))), Event::Key(Key::Tab));
    assert_eq!(map_key(StreamEvent::Key(StreamKey::Char('q'))), Event::Char('q'));
    assert_eq!(map_key(StreamEvent::Key(StreamKey::Alt('q'))), Event::AltChar('q'));
    assert_eq!(map_key(StreamEvent::Key(StreamKey::BackTab)), Event::Shift(Key::Tab));
}

#[test]
fn ctrl_c_is_exit() {
    assert_eq!(map_key(StreamEvent::Key(StreamKey::Ctrl('c'))), Event::Exit);
    assert_eq!(map_key(StreamEvent::Key(StreamKey::Ctrl('d'))), Event::CtrlChar('d'));
}

#[test]
fn undecoded_input_is_unknown() {
    assert_eq!(map_key(StreamEvent::Unsupported(vec![27, 91])), Event::Unknown(vec![27, 91]));
    assert_eq!(map_key(StreamEvent::Mouse(StreamMouse::Hold(3, 3))), Event::Unknown(vec![]));
    assert_eq!(map_key(StreamEvent::Key(StreamKey::Null)), Event::Unknown(vec![]));
}

#[test]
fn refresh_rate_timeouts() {
    assert_eq!(refresh_timeout_ms(0), None);
    assert_eq!(refresh_timeout_ms(1), Some(1000));
    assert_eq!(refresh_timeout_ms(30), Some(33));
    assert_eq!(refresh_timeout_ms(2000), Some(0));
}

#[test]
fn wakeups_become_events() {
    assert_eq!(wakeup_event(Wakeup::Timeout), Event::Refresh);
    assert_eq!(wakeup_event(Wakeup::Resize), Event::WindowResize);
    assert_eq!(wakeup_event(Wakeup::Input(Event::Char('z'))), Event::Char('z'));
}

#[test]
fn mouse_reports_map_to_zero_based_events() {
    assert_eq!(
        map_mouse(StreamMouse::Press(StreamButton::Left, 1, 1), None),
        Event::Mouse { pos: Vec2::new(0, 0), event: MouseEvent::Press(MouseButton::Left) }
    );
    assert_eq!(
        map_mouse(StreamMouse::Press(StreamButton::WheelDown, 5, 9), None),
        Event::Mouse { pos: Vec2::new(4, 8), event: MouseEvent::WheelDown }
    );
    assert_eq!(map_mouse(StreamMouse::Release(2, 2), None), Event::Unknown(vec![]));
    assert_eq!(
        map_mouse(StreamMouse::Release(2, 2), Some(MouseButton::Right)),
        Event::Mouse { pos: Vec2::new(1, 1), event: MouseEvent::Release(MouseButton::Right) }
    );
}

#[test]
fn release_names_the_last_pressed_button() {
    let mut input = StreamInput::new();
    let press = input.translate(StreamEvent::Mouse(StreamMouse::Press(StreamButton::Middle, 3, 4)));
    assert_eq!(press, Event::Mouse { pos: Vec2::new(2, 3), event: MouseEvent::Press(MouseButton::Middle) });
    let release = input.translate(StreamEvent::Mouse(StreamMouse::Release(3, 5)));
    assert_eq!(
        release,
        Event::Mouse { pos: Vec2::new(2, 4), event: MouseEvent::Release(MouseButton::Middle) }
    );
    assert_eq!(input.translate(StreamEvent::Mouse(StreamMouse::Release(3, 5))), Event::Unknown(vec![]));
    assert_eq!(input.translate(StreamEvent::Key(StreamKey::Ctrl('c'))), Event::Exit);
}
