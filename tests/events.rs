use cursive::event::{Callback, Event, EventResult, Key, MouseButton, MouseEvent};
use cursive::vec::Vec2;

fn click(x: usize, y: usize) -> Event {
    Event::Mouse { pos: Vec2::new(x, y), event: MouseEvent::Press(MouseButton::Left) }
}

#[test]
fn from_f_covers_zero_to_twelve() {
    assert_eq!(Key::from_f(0), Key::F0);
    assert_eq!(Key::from_f(1), Key::F1);
    assert_eq!(Key::from_f(5), Key::F5);
    assert_eq!(Key::from_f(12), Key::F12);
}

#[test]
fn non_mouse_events_pass_unchanged() {
    let cases = vec![
        Event::Char('a'),
        Event::Key(Key::Enter),
        Event::Refresh,
        Event::WindowResize,
        Event::Unknown(vec![1, 2, 3]),
        Event::Exit,
    ];
    for e in cases {
        assert_eq!(e.mouse_position(), None);
        assert_eq!(e.clone().make_relative(Vec2::new(5, 5), Some(Vec2::new(1, 1))), Some(e.clone()));
        let mut moved = e.clone();
        moved.relativize(Vec2::new(3, 4));
        assert_eq!(moved, e);
    }
}

#[test]
fn mouse_position_of_every_mouse_variant() {
    let p = Vec2::new(3, 4);
    let ev = MouseEvent::WheelUp;
    let all = vec![
        Event::Mouse { pos: p, event: ev },
        Event::CtrlMouse { pos: p, event: ev },
        Event::AltMouse { pos: p, event: ev },
        Event::ShiftMouse { pos: p, event: ev },
        Event::CtrlAltMouse { pos: p, event: ev },
        Event::CtrlShiftMouse { pos: p, event: ev },
        Event::AltShiftMouse { pos: p, event: ev },
    ];
    for e in all {
        assert_eq!(e.mouse_position(), Some(p));
    }
}

#[test]
fn make_relative_inside_region() {
    let e = click(5, 7);
    assert_eq!(e.make_relative(Vec2::new(2, 3), Some(Vec2::new(4, 5))), Some(click(3, 4)));
}

#[test]
fn make_relative_rejects_above_or_left() {
    assert_eq!(click(1, 7).make_relative(Vec2::new(2, 3), None), None);
    assert_eq!(click(5, 2).make_relative(Vec2::new(2, 3), None), None);
}

#[test]
fn make_relative_rejects_at_or_beyond_far_edge() {
    // top-left (2,3), size (4,5): x must be < 6 and y < 8.
    assert_eq!(click(6, 7).make_relative(Vec2::new(2, 3), Some(Vec2::new(4, 5))), None);
    assert_eq!(click(5, 8).make_relative(Vec2::new(2, 3), Some(Vec2::new(4, 5))), None);
    assert_eq!(click(5, 7).make_relative(Vec2::new(2, 3), Some(Vec2::new(4, 5))), Some(click(3, 4)));
}

#[test]
fn make_relative_without_size_has_no_far_edge() {
    assert_eq!(click(1000, 2000).make_relative(Vec2::new(2, 3), None), Some(click(998, 1997)));
}

#[test]
fn relativize_moves_mouse_position() {
    let mut e = Event::CtrlMouse { pos: Vec2::new(10, 10), event: MouseEvent::WheelDown };
    e.relativize(Vec2::new(4, 1));
    assert_eq!(e, Event::CtrlMouse { pos: Vec2::new(6, 9), event: MouseEvent::WheelDown });
}

#[test]
fn event_result_answers() {
    let cb = Callback::new(7);
    let r = EventResult::with_cb(cb);
    assert!(r.is_consumed());
    assert_eq!(r.callback(), Some(cb));
    assert!(!EventResult::Ignored.is_consumed());
    assert_eq!(EventResult::Ignored.callback(), None);
    assert_eq!(EventResult::Consumed(None).callback(), None);
}

#[test]
fn event_from_char_and_key() {
    assert_eq!(Event::from('x'), Event::Char('x'));
    assert_eq!(Event::from(Key::Tab), Event::Key(Key::Tab));
}
