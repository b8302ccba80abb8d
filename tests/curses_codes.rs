use cursive::curses::{
    classify_code, decode_char, get_bytes, parse_mouse_button, parse_ncurses_char, CodeStep, CursesInput, MouseMasks,
    BUTTON1_CLICKED, BUTTON1_PRESSED, BUTTON2_RELEASED, BUTTON3_DOUBLE_CLICKED, BUTTON4_PRESSED,
    BUTTON5_PRESSED, BUTTON_ALT, BUTTON_CTRL, BUTTON_SHIFT, KEY_MOUSE,
};
use cursive::event::{Event, Key, MouseButton, MouseEvent};
use cursive::vec::Vec2;

#[test]
fn basic_codes() {
    assert_eq!(parse_ncurses_char(-1), Event::Refresh);
    assert_eq!(parse_ncurses_char(9), Event::Key(Key::Tab));
    assert_eq!(parse_ncurses_char(10), Event::Key(Key::Enter));
    assert_eq!(parse_ncurses_char(13), Event::Key(Key::Enter));
    assert_eq!(parse_ncurses_char(0x157), Event::Key(Key::Enter));
    assert_eq!(parse_ncurses_char(27), Event::Key(Key::Esc));
    assert_eq!(parse_ncurses_char(127), Event::Key(Key::Backspace));
    assert_eq!(parse_ncurses_char(0x107), Event::Key(Key::Backspace));
    assert_eq!(parse_ncurses_char(0x19a), Event::WindowResize);
}

#[test]
fn translation_is_deterministic() {
    for code in -5..700 {
        if code != KEY_MOUSE {
            assert_eq!(parse_ncurses_char(code), parse_ncurses_char(code));
        }
    }
}

#[test]
fn extension_block() {
    assert_eq!(parse_ncurses_char(519), Event::Alt(Key::Del));
    assert_eq!(parse_ncurses_char(522), Event::CtrlShift(Key::Del));
    assert_eq!(parse_ncurses_char(525), Event::Alt(Key::Down));
    assert_eq!(parse_ncurses_char(529), Event::CtrlAlt(Key::Down));
    assert_eq!(parse_ncurses_char(534), Event::CtrlAlt(Key::End));
    assert_eq!(parse_ncurses_char(537), Event::Ctrl(Key::Home));
    assert_eq!(parse_ncurses_char(540), Event::Alt(Key::Ins));
    assert_eq!(parse_ncurses_char(542), Event::Ctrl(Key::Ins));
    assert_eq!(parse_ncurses_char(544), Event::CtrlAlt(Key::Ins));
    assert_eq!(parse_ncurses_char(548), Event::CtrlShift(Key::Left));
    assert_eq!(parse_ncurses_char(551), Event::AltShift(Key::PageDown));
    assert_eq!(parse_ncurses_char(555), Event::Alt(Key::PageUp));
    assert_eq!(parse_ncurses_char(564), Event::CtrlAlt(Key::Right));
    assert_eq!(parse_ncurses_char(566), Event::Alt(Key::Up));
    assert_eq!(parse_ncurses_char(570), Event::CtrlAlt(Key::Up));
}

#[test]
fn extension_gaps_are_unknown() {
    for code in [523, 524, 541, 543, 565, 571] {
        assert_eq!(parse_ncurses_char(code), Event::Unknown(get_bytes(code)));
    }
}

#[test]
fn function_key_ranges() {
    assert_eq!(parse_ncurses_char(0x109), Event::Key(Key::F1));
    assert_eq!(parse_ncurses_char(0x114), Event::Key(Key::F12));
    assert_eq!(parse_ncurses_char(277), Event::Shift(Key::F1));
    assert_eq!(parse_ncurses_char(288), Event::Shift(Key::F12));
    assert_eq!(parse_ncurses_char(289), Event::Ctrl(Key::F1));
    assert_eq!(parse_ncurses_char(300), Event::Ctrl(Key::F12));
    assert_eq!(parse_ncurses_char(301), Event::CtrlShift(Key::F1));
    assert_eq!(parse_ncurses_char(312), Event::CtrlShift(Key::F12));
    assert_eq!(parse_ncurses_char(313), Event::Alt(Key::F1));
    assert_eq!(parse_ncurses_char(324), Event::Alt(Key::F12));
    assert_eq!(parse_ncurses_char(325), Event::Unknown(get_bytes(325)));
}

#[test]
fn named_keys() {
    assert_eq!(parse_ncurses_char(0x15e), Event::Key(Key::NumpadCenter));
    assert_eq!(parse_ncurses_char(0x14a), Event::Key(Key::Del));
    assert_eq!(parse_ncurses_char(0x161), Event::Shift(Key::Tab));
    assert_eq!(parse_ncurses_char(0x102), Event::Key(Key::Down));
    assert_eq!(parse_ncurses_char(0x151), Event::Shift(Key::Up));
    assert_eq!(parse_ncurses_char(0x18e), Event::Shift(Key::PageUp));
}

#[test]
fn ctrl_letters() {
    assert_eq!(parse_ncurses_char(1), Event::CtrlChar('a'));
    assert_eq!(parse_ncurses_char(8), Event::CtrlChar('h'));
    assert_eq!(parse_ncurses_char(25), Event::CtrlChar('y'));
    assert_eq!(parse_ncurses_char(26), Event::Unknown(vec![26, 0, 0, 0]));
}

#[test]
fn unknown_carries_little_endian_bytes() {
    assert_eq!(get_bytes(0x01020304), vec![4, 3, 2, 1]);
    assert_eq!(get_bytes(-2), vec![0xfe, 0xff, 0xff, 0xff]);
    assert_eq!(parse_ncurses_char(1000), Event::Unknown(vec![0xe8, 0x03, 0, 0]));
}

#[test]
fn classify_codes() {
    assert!(matches!(classify_code(KEY_MOUSE), CodeStep::MouseReport));
    assert!(matches!(classify_code(65), CodeStep::Utf8(1)));
    assert!(matches!(classify_code(0xc3), CodeStep::Utf8(2)));
    assert!(matches!(classify_code(0xe2), CodeStep::Utf8(3)));
    assert!(matches!(classify_code(0xf0), CodeStep::Utf8(4)));
    match classify_code(0x85) {
        CodeStep::Ready(e) => assert_eq!(e, Event::Unknown(vec![0x85, 0, 0, 0])),
        _ => panic!("continuation byte should not start a character"),
    }
    match classify_code(127) {
        CodeStep::Ready(e) => assert_eq!(e, Event::Key(Key::Backspace)),
        _ => panic!("127 is backspace"),
    }
}

#[test]
fn decode_utf8_characters() {
    assert_eq!(decode_char(vec![b'a']), Event::Char('a'));
    assert_eq!(decode_char(vec![0xc3, 0xa9]), Event::Char('é'));
    assert_eq!(decode_char(vec![0xe2, 0x82, 0xac]), Event::Char('€'));
    assert_eq!(decode_char(vec![0xf0, 0x9f, 0x98, 0x80]), Event::Char('😀'));
}

#[test]
fn decode_rejects_malformed() {
    assert_eq!(decode_char(vec![]), Event::Unknown(vec![]));
    assert_eq!(decode_char(vec![0xc3, 0x28]), Event::Unknown(vec![0xc3, 0x28]));
    assert_eq!(decode_char(vec![0xc0, 0x80]), Event::Unknown(vec![0xc0, 0x80]));
    assert_eq!(decode_char(vec![0xed, 0xa0, 0x80]), Event::Unknown(vec![0xed, 0xa0, 0x80]));
    assert_eq!(decode_char(vec![b'a', b'b']), Event::Unknown(vec![b'a', b'b']));
}

#[test]
fn click_gives_press_then_release() {
    let mut input = CursesInput::new();
    let pos = Vec2::new(4, 2);
    let first = input.parse_mouse(pos, BUTTON1_CLICKED, &MouseMasks::version2());
    assert_eq!(first, Event::Mouse { pos, event: MouseEvent::Press(MouseButton::Left) });
    assert!(input.has_queued());
    assert_eq!(
        input.take_queued(),
        Some(Event::Mouse { pos, event: MouseEvent::Release(MouseButton::Left) })
    );
    assert_eq!(input.take_queued(), None);
}

#[test]
fn double_click_with_ctrl() {
    let mut input = CursesInput::new();
    let pos = Vec2::new(1, 1);
    let first = input.parse_mouse(pos, BUTTON3_DOUBLE_CLICKED | BUTTON_CTRL, &MouseMasks::version2());
    assert_eq!(first, Event::CtrlMouse { pos, event: MouseEvent::Press(MouseButton::Right) });
    assert_eq!(
        input.take_queued(),
        Some(Event::CtrlMouse { pos, event: MouseEvent::Release(MouseButton::Right) })
    );
}

#[test]
fn plain_mouse_actions_queue_nothing() {
    let mut input = CursesInput::new();
    let pos = Vec2::new(0, 0);
    assert_eq!(
        input.parse_mouse(pos, BUTTON1_PRESSED, &MouseMasks::version2()),
        Event::Mouse { pos, event: MouseEvent::Press(MouseButton::Left) }
    );
    assert_eq!(
        input.parse_mouse(pos, BUTTON2_RELEASED | BUTTON_ALT, &MouseMasks::version2()),
        Event::AltMouse { pos, event: MouseEvent::Release(MouseButton::Middle) }
    );
    assert_eq!(
        input.parse_mouse(pos, BUTTON4_PRESSED | BUTTON_SHIFT, &MouseMasks::version2()),
        Event::ShiftMouse { pos, event: MouseEvent::WheelUp }
    );
    assert_eq!(
        input.parse_mouse(pos, BUTTON5_PRESSED | BUTTON_ALT | BUTTON_SHIFT, &MouseMasks::version2()),
        Event::AltShiftMouse { pos, event: MouseEvent::WheelDown }
    );
    assert!(!input.has_queued());
}

#[test]
fn unrecognized_mouse_reports_are_unknown() {
    let mut input = CursesInput::new();
    let pos = Vec2::new(0, 0);
    assert_eq!(input.parse_mouse(pos, 0, &MouseMasks::version2()), Event::Unknown(vec![0, 0, 0, 0]));
    let all = BUTTON1_PRESSED | BUTTON_CTRL | BUTTON_ALT | BUTTON_SHIFT;
    assert_eq!(input.parse_mouse(pos, all, &MouseMasks::version2()), Event::Unknown(get_bytes(all)));
    assert!(!input.has_queued());
}

#[test]
fn mouse_masks_of_another_protocol_version() {
    // Six bits per button, modifiers from bit 24.
    let masks = MouseMasks {
        button1_released: 0x1,
        button1_pressed: 0x2,
        button1_clicked: 0x4,
        button1_double_clicked: 0x8,
        button1_triple_clicked: 0x10,
        button2_released: 0x40,
        button2_pressed: 0x80,
        button2_clicked: 0x100,
        button2_double_clicked: 0x200,
        button2_triple_clicked: 0x400,
        button3_released: 0x1000,
        button3_pressed: 0x2000,
        button3_clicked: 0x4000,
        button3_double_clicked: 0x8000,
        button3_triple_clicked: 0x10000,
        button4_pressed: 0x80000,
        button5_pressed: 0x2000000,
        ctrl: 0x1000000,
        shift: 0x2000000 << 1,
        alt: 0x2000000 << 2,
    };
    let mut input = CursesInput::new();
    let pos = Vec2::new(2, 2);
    assert_eq!(
        input.parse_mouse(pos, 0x100 | 0x1000000, &masks),
        Event::CtrlMouse { pos, event: MouseEvent::Press(MouseButton::Middle) }
    );
    assert_eq!(
        input.take_queued(),
        Some(Event::CtrlMouse { pos, event: MouseEvent::Release(MouseButton::Middle) })
    );
    // The same bits mean something else under each version's masks.
    assert_eq!(
        input.parse_mouse(pos, 0x40, &masks),
        Event::Mouse { pos, event: MouseEvent::Release(MouseButton::Middle) }
    );
    assert_eq!(
        input.parse_mouse(pos, 0x40, &MouseMasks::version2()),
        Event::Mouse { pos, event: MouseEvent::Press(MouseButton::Middle) }
    );
    assert_eq!(input.take_queued(), None);
}

#[test]
fn clicked_bits_decode_to_a_press_with_release() {
    let m = MouseMasks::version2();
    assert_eq!(parse_mouse_button(BUTTON1_CLICKED, &m), Some((MouseEvent::Press(MouseButton::Left), true)));
    assert_eq!(parse_mouse_button(BUTTON3_DOUBLE_CLICKED, &m), Some((MouseEvent::Press(MouseButton::Right), true)));
    assert_eq!(parse_mouse_button(BUTTON1_PRESSED, &m), Some((MouseEvent::Press(MouseButton::Left), false)));
    assert_eq!(parse_mouse_button(BUTTON4_PRESSED, &m), Some((MouseEvent::WheelUp, false)));
    assert_eq!(parse_mouse_button(0, &m), None);
}
