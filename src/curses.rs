//! Translation of the numeric input codes of a curses-style terminal driver
//! into canonical events.
//!
//! The driver hands out one integer per call. Printable codes start a UTF-8
//! character whose remaining bytes come from further calls; the mouse code
//! asks for a second call that reports the button state; every other code is
//! looked up in a fixed table. A mouse click arrives as one report but is
//! given out as a press followed, on the next poll, by a release.

use vstd::prelude::*;
use vstd::utf8::*;
use crate::event::{Event, Key, MouseButton, MouseEvent, function_key};
use crate::vec::Vec2;

verus! {

/// Code returned when no input is available before the timeout.
pub const ERR: i32 = -1;
/// Down-arrow key.
pub const KEY_DOWN: i32 = 0x102;
/// Up-arrow key.
pub const KEY_UP: i32 = 0x103;
/// Left-arrow key.
pub const KEY_LEFT: i32 = 0x104;
/// Right-arrow key.
pub const KEY_RIGHT: i32 = 0x105;
/// Home key.
pub const KEY_HOME: i32 = 0x106;
/// Backspace key.
pub const KEY_BACKSPACE: i32 = 0x107;
/// Base of the function keys: `KEY_F0 + n` is Fn.
pub const KEY_F0: i32 = 0x108;
/// F1 key.
pub const KEY_F1: i32 = 0x109;
/// F12 key.
pub const KEY_F12: i32 = 0x114;
/// Delete-character key.
pub const KEY_DC: i32 = 0x14a;
/// Insert-character key.
pub const KEY_IC: i32 = 0x14b;
/// Scroll-forward key (shifted down arrow).
pub const KEY_SF: i32 = 0x150;
/// Scroll-backward key (shifted up arrow).
pub const KEY_SR: i32 = 0x151;
/// Next-page key.
pub const KEY_NPAGE: i32 = 0x152;
/// Previous-page key.
pub const KEY_PPAGE: i32 = 0x153;
/// Enter key of the keypad.
pub const KEY_ENTER: i32 = 0x157;
/// Center of the keypad.
pub const KEY_B2: i32 = 0x15e;
/// Back-tab key.
pub const KEY_BTAB: i32 = 0x161;
/// End key.
pub const KEY_END: i32 = 0x168;
/// Shifted delete-character key.
pub const KEY_SDC: i32 = 0x17f;
/// Shifted end key.
pub const KEY_SEND: i32 = 0x182;
/// Shifted home key.
pub const KEY_SHOME: i32 = 0x187;
/// Shifted left-arrow key.
pub const KEY_SLEFT: i32 = 0x189;
/// Shifted next-page key.
pub const KEY_SNEXT: i32 = 0x18c;
/// Shifted previous-page key.
pub const KEY_SPREVIOUS: i32 = 0x18e;
/// Shifted right-arrow key.
pub const KEY_SRIGHT: i32 = 0x192;
/// A mouse report is waiting to be fetched.
pub const KEY_MOUSE: i32 = 0x199;
/// The terminal was resized.
pub const KEY_RESIZE: i32 = 0x19a;

/// Mouse button state bits of the second version of the curses mouse
/// protocol, five per button.
pub const BUTTON1_RELEASED: i32 = 0x1;
pub const BUTTON1_PRESSED: i32 = 0x2;
pub const BUTTON1_CLICKED: i32 = 0x4;
pub const BUTTON1_DOUBLE_CLICKED: i32 = 0x8;
pub const BUTTON1_TRIPLE_CLICKED: i32 = 0x10;
pub const BUTTON2_RELEASED: i32 = 0x20;
pub const BUTTON2_PRESSED: i32 = 0x40;
pub const BUTTON2_CLICKED: i32 = 0x80;
pub const BUTTON2_DOUBLE_CLICKED: i32 = 0x100;
pub const BUTTON2_TRIPLE_CLICKED: i32 = 0x200;
pub const BUTTON3_RELEASED: i32 = 0x400;
pub const BUTTON3_PRESSED: i32 = 0x800;
pub const BUTTON3_CLICKED: i32 = 0x1000;
pub const BUTTON3_DOUBLE_CLICKED: i32 = 0x2000;
pub const BUTTON3_TRIPLE_CLICKED: i32 = 0x4000;
/// Wheel moved up.
pub const BUTTON4_PRESSED: i32 = 0x10000;
/// Wheel moved down.
pub const BUTTON5_PRESSED: i32 = 0x200000;
/// Modifier bits of a mouse report.
pub const BUTTON_CTRL: i32 = 0x2000000;
pub const BUTTON_SHIFT: i32 = 0x4000000;
pub const BUTTON_ALT: i32 = 0x8000000;

/// The four bytes of `b`, least significant first.
pub open spec fn le_bytes(b: i32) -> Seq<u8> {
    let u: int = if b < 0 { b + 0x1_0000_0000 } else { b as int };
    seq![(u % 256) as u8, ((u / 256) % 256) as u8, ((u / 65536) % 256) as u8, (u / 16777216) as u8]
}

/// `e` is the event for input that nothing else describes, carrying `bytes`.
pub open spec fn is_unknown(e: Event, bytes: Seq<u8>) -> bool {
    match e {
        Event::Unknown(v) => v@ == bytes,
        _ => false,
    }
}

/// Splits a code into its four bytes, least significant first.
pub fn get_bytes(b: i32) -> (r: Vec<u8>)
    ensures
        r@ == le_bytes(b),
{
    let u: u64 = if b < 0 {
        (b as i64 + 0x1_0000_0000) as u64
    } else {
        b as u64
    };
    let mut r: Vec<u8> = Vec::new();
    r.push((u % 256) as u8);
    r.push(((u / 256) % 256) as u8);
    r.push(((u / 65536) % 256) as u8);
    r.push((u / 16777216) as u8);
    r
}

/// The event for the given modifier combination (0: Alt, 1: Alt+Shift,
/// 2: Ctrl, 3: Ctrl+Shift, 4: Ctrl+Alt) applied to `k`.
pub open spec fn modified_key(m: int, k: Key) -> Event {
    if m == 0 {
        Event::Alt(k)
    } else if m == 1 {
        Event::AltShift(k)
    } else if m == 2 {
        Event::Ctrl(k)
    } else if m == 3 {
        Event::CtrlShift(k)
    } else {
        Event::CtrlAlt(k)
    }
}

/// The key of each block of five extension codes that starts at 525.
pub open spec fn extension_block_key(i: int) -> Key {
    if i == 0 {
        Key::Down
    } else if i == 1 {
        Key::End
    } else if i == 2 {
        Key::Home
    } else if i == 3 {
        Key::Ins
    } else if i == 4 {
        Key::Left
    } else if i == 5 {
        Key::PageDown
    } else if i == 6 {
        Key::PageUp
    } else {
        Key::Right
    }
}

/// The modified navigation keys of the extension codes 519 to 570.
///
/// Each key has a run of codes, one per modifier combination in the order of
/// `modified_key`: Del from 519 (four codes), then Down, End, Home, Ins,
/// Left, PageDown, PageUp and Right in runs of five from 525, and Up from
/// 566. Alt+Shift+Ins and Ctrl+Shift+Ins (541, 543), and 523, 524 and 565,
/// have no meaning.
pub open spec fn extension_event(code: int) -> Option<Event> {
    if 519 <= code <= 522 {
        Some(modified_key(code - 519, Key::Del))
    } else if 525 <= code <= 564 {
        if code == 541 || code == 543 {
            None
        } else {
            Some(modified_key((code - 525) % 5, extension_block_key((code - 525) / 5)))
        }
    } else if 566 <= code <= 570 {
        Some(modified_key(code - 566, Key::Up))
    } else {
        None
    }
}

/// The function keys, plain and in the four ranges of twelve codes for
/// Shift, Ctrl, Ctrl+Shift and Alt.
pub open spec fn function_key_event(code: int) -> Option<Event> {
    if KEY_F1 <= code <= KEY_F12 {
        Some(Event::Key(function_key(code - KEY_F0)))
    } else if 277 <= code <= 288 {
        Some(Event::Shift(function_key(code - 276)))
    } else if 289 <= code <= 300 {
        Some(Event::Ctrl(function_key(code - 288)))
    } else if 301 <= code <= 312 {
        Some(Event::CtrlShift(function_key(code - 300)))
    } else if 313 <= code <= 324 {
        Some(Event::Alt(function_key(code - 312)))
    } else {
        None
    }
}

/// The keys that have a code of their own.
pub open spec fn named_key_event(code: int) -> Option<Event> {
    if code == KEY_B2 {
        Some(Event::Key(Key::NumpadCenter))
    } else if code == KEY_DC {
        Some(Event::Key(Key::Del))
    } else if code == KEY_IC {
        Some(Event::Key(Key::Ins))
    } else if code == KEY_BTAB {
        Some(Event::Shift(Key::Tab))
    } else if code == KEY_SLEFT {
        Some(Event::Shift(Key::Left))
    } else if code == KEY_SRIGHT {
        Some(Event::Shift(Key::Right))
    } else if code == KEY_LEFT {
        Some(Event::Key(Key::Left))
    } else if code == KEY_RIGHT {
        Some(Event::Key(Key::Right))
    } else if code == KEY_UP {
        Some(Event::Key(Key::Up))
    } else if code == KEY_DOWN {
        Some(Event::Key(Key::Down))
    } else if code == KEY_SR {
        Some(Event::Shift(Key::Up))
    } else if code == KEY_SF {
        Some(Event::Shift(Key::Down))
    } else if code == KEY_PPAGE {
        Some(Event::Key(Key::PageUp))
    } else if code == KEY_NPAGE {
        Some(Event::Key(Key::PageDown))
    } else if code == KEY_HOME {
        Some(Event::Key(Key::Home))
    } else if code == KEY_END {
        Some(Event::Key(Key::End))
    } else if code == KEY_SHOME {
        Some(Event::Shift(Key::Home))
    } else if code == KEY_SEND {
        Some(Event::Shift(Key::End))
    } else if code == KEY_SDC {
        Some(Event::Shift(Key::Del))
    } else if code == KEY_SNEXT {
        Some(Event::Shift(Key::PageDown))
    } else if code == KEY_SPREVIOUS {
        Some(Event::Shift(Key::PageUp))
    } else {
        None
    }
}

/// The event that a code other than the mouse code stands for, or `None`
/// where the table has no entry for it.
pub open spec fn code_event(code: int) -> Option<Event> {
    if code == ERR {
        Some(Event::Refresh)
    } else if code == 9 {
        Some(Event::Key(Key::Tab))
    } else if code == 10 || code == 13 || code == KEY_ENTER {
        Some(Event::Key(Key::Enter))
    } else if code == 27 {
        Some(Event::Key(Key::Esc))
    } else if code == 127 || code == KEY_BACKSPACE {
        Some(Event::Key(Key::Backspace))
    } else if code == KEY_RESIZE {
        Some(Event::WindowResize)
    } else if extension_event(code) is Some {
        extension_event(code)
    } else if named_key_event(code) is Some {
        named_key_event(code)
    } else if function_key_event(code) is Some {
        function_key_event(code)
    } else if 1 <= code <= 25 {
        Some(Event::CtrlChar(((96 + code) as u32) as char))
    } else {
        None
    }
}

/// The translation table gives each extension code of 519 to 570 its
/// modified key, and each code of the four function-key ranges its
/// modifier and key: 277 to 288 Shift, 289 to 300 Ctrl, 301 to 312
/// Ctrl+Shift and 313 to 324 Alt, each from F1 to F12.
pub proof fn lemma_code_table(code: int)
    ensures
        519 <= code <= 570 && extension_event(code) is Some ==> code_event(code) == extension_event(code),
        KEY_F1 <= code <= KEY_F12 ==> code_event(code) == Some(Event::Key(function_key(code - KEY_F0))),
        277 <= code <= 288 ==> code_event(code) == Some(Event::Shift(function_key(code - 276))),
        289 <= code <= 300 ==> code_event(code) == Some(Event::Ctrl(function_key(code - 288))),
        301 <= code <= 312 ==> code_event(code) == Some(Event::CtrlShift(function_key(code - 300))),
        313 <= code <= 324 ==> code_event(code) == Some(Event::Alt(function_key(code - 312))),
        525 <= code <= 564 && code != 541 && code != 543 ==> code_event(code) == Some(
            modified_key((code - 525) % 5, extension_block_key((code - 525) / 5)),
        ),
{
}

/// Translates a code other than the mouse code into its event: the entry of
/// the table, or `Unknown` with the code's four bytes where there is none.
pub fn parse_ncurses_char(ch: i32) -> (r: Event)
    requires
        ch != KEY_MOUSE,
    ensures
        match code_event(ch as int) {
            Some(e) => r == e,
            None => is_unknown(r, le_bytes(ch)),
        },
{
    match ch {
        -1 => Event::Refresh,
        9 => Event::Key(Key::Tab),
        10 | 13 | 0x157 => Event::Key(Key::Enter),
        27 => Event::Key(Key::Esc),
        127 | 0x107 => Event::Key(Key::Backspace),
        0x19a => Event::WindowResize,
        519 => Event::Alt(Key::Del),
        520 => Event::AltShift(Key::Del),
        521 => Event::Ctrl(Key::Del),
        522 => Event::CtrlShift(Key::Del),
        525 => Event::Alt(Key::Down),
        526 => Event::AltShift(Key::Down),
        527 => Event::Ctrl(Key::Down),
        528 => Event::CtrlShift(Key::Down),
        529 => Event::CtrlAlt(Key::Down),
        530 => Event::Alt(Key::End),
        531 => Event::AltShift(Key::End),
        532 => Event::Ctrl(Key::End),
        533 => Event::CtrlShift(Key::End),
        534 => Event::CtrlAlt(Key::End),
        535 => Event::Alt(Key::Home),
        536 => Event::AltShift(Key::Home),
        537 => Event::Ctrl(Key::Home),
        538 => Event::CtrlShift(Key::Home),
        539 => Event::CtrlAlt(Key::Home),
        540 => Event::Alt(Key::Ins),
        542 => Event::Ctrl(Key::Ins),
        544 => Event::CtrlAlt(Key::Ins),
        545 => Event::Alt(Key::Left),
        546 => Event::AltShift(Key::Left),
        547 => Event::Ctrl(Key::Left),
        548 => Event::CtrlShift(Key::Left),
        549 => Event::CtrlAlt(Key::Left),
        550 => Event::Alt(Key::PageDown),
        551 => Event::AltShift(Key::PageDown),
        552 => Event::Ctrl(Key::PageDown),
        553 => Event::CtrlShift(Key::PageDown),
        554 => Event::CtrlAlt(Key::PageDown),
        555 => Event::Alt(Key::PageUp),
        556 => Event::AltShift(Key::PageUp),
        557 => Event::Ctrl(Key::PageUp),
        558 => Event::CtrlShift(Key::PageUp),
        559 => Event::CtrlAlt(Key::PageUp),
        560 => Event::Alt(Key::Right),
        561 => Event::AltShift(Key::Right),
        562 => Event::Ctrl(Key::Right),
        563 => Event::CtrlShift(Key::Right),
        564 => Event::CtrlAlt(Key::Right),
        566 => Event::Alt(Key::Up),
        567 => Event::AltShift(Key::Up),
        568 => Event::Ctrl(Key::Up),
        569 => Event::CtrlShift(Key::Up),
        570 => Event::CtrlAlt(Key::Up),
        0x15e => Event::Key(Key::NumpadCenter),
        0x14a => Event::Key(Key::Del),
        0x14b => Event::Key(Key::Ins),
        0x161 => Event::Shift(Key::Tab),
        0x189 => Event::Shift(Key::Left),
        0x192 => Event::Shift(Key::Right),
        0x104 => Event::Key(Key::Left),
        0x105 => Event::Key(Key::Right),
        0x103 => Event::Key(Key::Up),
        0x102 => Event::Key(Key::Down),
        0x151 => Event::Shift(Key::Up),
        0x150 => Event::Shift(Key::Down),
        0x153 => Event::Key(Key::PageUp),
        0x152 => Event::Key(Key::PageDown),
        0x106 => Event::Key(Key::Home),
        0x168 => Event::Key(Key::End),
        0x187 => Event::Shift(Key::Home),
        0x182 => Event::Shift(Key::End),
        0x17f => Event::Shift(Key::Del),
        0x18c => Event::Shift(Key::PageDown),
        0x18e => Event::Shift(Key::PageUp),
        0x109..=0x114 => Event::Key(Key::from_f((ch - KEY_F0) as u8)),
        277..=288 => Event::Shift(Key::from_f((ch - 276) as u8)),
        289..=300 => Event::Ctrl(Key::from_f((ch - 288) as u8)),
        301..=312 => Event::CtrlShift(Key::from_f((ch - 300) as u8)),
        313..=324 => Event::Alt(Key::from_f((ch - 312) as u8)),
        1..=25 => Event::CtrlChar((96 + ch as u8) as char),
        _ => Event::Unknown(get_bytes(ch)),
    }
}

/// The bits of a mouse report, as the curses library in use defines them.
/// They depend on the version of its mouse protocol.
#[derive(Clone, Copy, Debug, PartialEq, Eq, Hash)]
pub struct MouseMasks {
    pub button1_released: i32,
    pub button1_pressed: i32,
    pub button1_clicked: i32,
    pub button1_double_clicked: i32,
    pub button1_triple_clicked: i32,
    pub button2_released: i32,
    pub button2_pressed: i32,
    pub button2_clicked: i32,
    pub button2_double_clicked: i32,
    pub button2_triple_clicked: i32,
    pub button3_released: i32,
    pub button3_pressed: i32,
    pub button3_clicked: i32,
    pub button3_double_clicked: i32,
    pub button3_triple_clicked: i32,
    /// Wheel moved up.
    pub button4_pressed: i32,
    /// Wheel moved down.
    pub button5_pressed: i32,
    pub ctrl: i32,
    pub shift: i32,
    pub alt: i32,
}

impl MouseMasks {
    /// The bits that name a modifier key.
    pub open spec fn modifiers(self) -> i32 {
        self.ctrl | self.shift | self.alt
    }

    /// The masks of the second version of the curses mouse protocol.
    pub fn version2() -> (r: MouseMasks)
        ensures
            r == (MouseMasks {
                button1_released: BUTTON1_RELEASED,
                button1_pressed: BUTTON1_PRESSED,
                button1_clicked: BUTTON1_CLICKED,
                button1_double_clicked: BUTTON1_DOUBLE_CLICKED,
                button1_triple_clicked: BUTTON1_TRIPLE_CLICKED,
                button2_released: BUTTON2_RELEASED,
                button2_pressed: BUTTON2_PRESSED,
                button2_clicked: BUTTON2_CLICKED,
                button2_double_clicked: BUTTON2_DOUBLE_CLICKED,
                button2_triple_clicked: BUTTON2_TRIPLE_CLICKED,
                button3_released: BUTTON3_RELEASED,
                button3_pressed: BUTTON3_PRESSED,
                button3_clicked: BUTTON3_CLICKED,
                button3_double_clicked: BUTTON3_DOUBLE_CLICKED,
                button3_triple_clicked: BUTTON3_TRIPLE_CLICKED,
                button4_pressed: BUTTON4_PRESSED,
                button5_pressed: BUTTON5_PRESSED,
                ctrl: BUTTON_CTRL,
                shift: BUTTON_SHIFT,
                alt: BUTTON_ALT,
            }),
    {
        MouseMasks {
            button1_released: BUTTON1_RELEASED,
            button1_pressed: BUTTON1_PRESSED,
            button1_clicked: BUTTON1_CLICKED,
            button1_double_clicked: BUTTON1_DOUBLE_CLICKED,
            button1_triple_clicked: BUTTON1_TRIPLE_CLICKED,
            button2_released: BUTTON2_RELEASED,
            button2_pressed: BUTTON2_PRESSED,
            button2_clicked: BUTTON2_CLICKED,
            button2_double_clicked: BUTTON2_DOUBLE_CLICKED,
            button2_triple_clicked: BUTTON2_TRIPLE_CLICKED,
            button3_released: BUTTON3_RELEASED,
            button3_pressed: BUTTON3_PRESSED,
            button3_clicked: BUTTON3_CLICKED,
            button3_double_clicked: BUTTON3_DOUBLE_CLICKED,
            button3_triple_clicked: BUTTON3_TRIPLE_CLICKED,
            button4_pressed: BUTTON4_PRESSED,
            button5_pressed: BUTTON5_PRESSED,
            ctrl: BUTTON_CTRL,
            shift: BUTTON_SHIFT,
            alt: BUTTON_ALT,
        }
    }
}

/// What the button bits of a mouse report (modifiers removed) describe: the
/// mouse action, and whether it was a click, to be followed by a release.
pub open spec fn mouse_button_action(b: i32, m: MouseMasks) -> Option<(MouseEvent, bool)> {
    if b == m.button1_released {
        Some((MouseEvent::Release(MouseButton::Left), false))
    } else if b == m.button1_pressed {
        Some((MouseEvent::Press(MouseButton::Left), false))
    } else if b == m.button1_clicked || b == m.button1_double_clicked || b == m.button1_triple_clicked {
        Some((MouseEvent::Press(MouseButton::Left), true))
    } else if b == m.button2_released {
        Some((MouseEvent::Release(MouseButton::Middle), false))
    } else if b == m.button2_pressed {
        Some((MouseEvent::Press(MouseButton::Middle), false))
    } else if b == m.button2_clicked || b == m.button2_double_clicked || b == m.button2_triple_clicked {
        Some((MouseEvent::Press(MouseButton::Middle), true))
    } else if b == m.button3_released {
        Some((MouseEvent::Release(MouseButton::Right), false))
    } else if b == m.button3_pressed {
        Some((MouseEvent::Press(MouseButton::Right), false))
    } else if b == m.button3_clicked || b == m.button3_double_clicked || b == m.button3_triple_clicked {
        Some((MouseEvent::Press(MouseButton::Right), true))
    } else if b == m.button4_pressed {
        Some((MouseEvent::WheelUp, false))
    } else if b == m.button5_pressed {
        Some((MouseEvent::WheelDown, false))
    } else {
        None
    }
}

/// The mouse event at `pos` with the given modifier keys held; `None` for
/// Ctrl, Alt and Shift together, which no event describes.
pub open spec fn mouse_with_modifiers(
    ctrl: bool,
    alt: bool,
    shift: bool,
    pos: Vec2,
    event: MouseEvent,
) -> Option<Event> {
    if !ctrl && !alt && !shift {
        Some(Event::Mouse { pos, event })
    } else if ctrl && !alt && !shift {
        Some(Event::CtrlMouse { pos, event })
    } else if ctrl && alt && !shift {
        Some(Event::CtrlAltMouse { pos, event })
    } else if !ctrl && alt && !shift {
        Some(Event::AltMouse { pos, event })
    } else if !ctrl && alt && shift {
        Some(Event::AltShiftMouse { pos, event })
    } else if ctrl && !alt && shift {
        Some(Event::CtrlShiftMouse { pos, event })
    } else if !ctrl && !alt && shift {
        Some(Event::ShiftMouse { pos, event })
    } else {
        None
    }
}

/// The release that follows a press of the same button.
pub open spec fn release_of(e: MouseEvent) -> MouseEvent {
    match e {
        MouseEvent::Press(b) => MouseEvent::Release(b),
        _ => e,
    }
}

/// The events that a mouse report at `pos` with state `bstate` gives: the
/// one to hand out now and those to queue after it. `None` where the report
/// is not understood.
pub open spec fn mouse_outcome(pos: Vec2, bstate: i32, m: MouseMasks) -> Option<(Event, Seq<Event>)> {
    let ctrl = bstate & m.ctrl != 0;
    let alt = bstate & m.alt != 0;
    let shift = bstate & m.shift != 0;
    match mouse_button_action(bstate & !m.modifiers(), m) {
        None => None,
        Some((action, clicked)) => match mouse_with_modifiers(ctrl, alt, shift, pos, action) {
            None => None,
            Some(e) => if clicked {
                Some((e, seq![mouse_with_modifiers(ctrl, alt, shift, pos, release_of(action))->0]))
            } else {
                Some((e, Seq::empty()))
            },
        },
    }
}

/// The bytes that the `Unknown` event of a report carries where
/// `mouse_outcome` is `None`: those of the button bits where they name no
/// action, else those of the whole state.
pub open spec fn mouse_unknown_bytes(bstate: i32, m: MouseMasks) -> Seq<u8> {
    if bstate & m.ctrl != 0 && bstate & m.alt != 0 && bstate & m.shift != 0 {
        le_bytes(bstate)
    } else {
        le_bytes(bstate & !m.modifiers())
    }
}

/// The mouse action that the button bits `b` describe, and whether it was a
/// click.
pub fn parse_mouse_button(b: i32, m: &MouseMasks) -> (r: Option<(MouseEvent, bool)>)
    ensures
        r == mouse_button_action(b, *m),
{
    if b == m.button1_released {
        Some((MouseEvent::Release(MouseButton::Left), false))
    } else if b == m.button1_pressed {
        Some((MouseEvent::Press(MouseButton::Left), false))
    } else if b == m.button1_clicked || b == m.button1_double_clicked || b == m.button1_triple_clicked {
        Some((MouseEvent::Press(MouseButton::Left), true))
    } else if b == m.button2_released {
        Some((MouseEvent::Release(MouseButton::Middle), false))
    } else if b == m.button2_pressed {
        Some((MouseEvent::Press(MouseButton::Middle), false))
    } else if b == m.button2_clicked || b == m.button2_double_clicked || b == m.button2_triple_clicked {
        Some((MouseEvent::Press(MouseButton::Middle), true))
    } else if b == m.button3_released {
        Some((MouseEvent::Release(MouseButton::Right), false))
    } else if b == m.button3_pressed {
        Some((MouseEvent::Press(MouseButton::Right), false))
    } else if b == m.button3_clicked || b == m.button3_double_clicked || b == m.button3_triple_clicked {
        Some((MouseEvent::Press(MouseButton::Right), true))
    } else if b == m.button4_pressed {
        Some((MouseEvent::WheelUp, false))
    } else if b == m.button5_pressed {
        Some((MouseEvent::WheelDown, false))
    } else {
        None
    }
}

/// The mouse event at `pos` with the given modifiers held, if one exists.
fn wrap_mouse(ctrl: bool, alt: bool, shift: bool, pos: Vec2, event: MouseEvent) -> (r: Option<Event>)
    ensures
        r == mouse_with_modifiers(ctrl, alt, shift, pos, event),
{
    match (ctrl, alt, shift) {
        (false, false, false) => Some(Event::Mouse { pos, event }),
        (true, false, false) => Some(Event::CtrlMouse { pos, event }),
        (true, true, false) => Some(Event::CtrlAltMouse { pos, event }),
        (false, true, false) => Some(Event::AltMouse { pos, event }),
        (false, true, true) => Some(Event::AltShiftMouse { pos, event }),
        (true, false, true) => Some(Event::CtrlShiftMouse { pos, event }),
        (false, false, true) => Some(Event::ShiftMouse { pos, event }),
        (true, true, true) => None,
    }
}

/// Input state of a curses-style driver: the events synthesized from earlier
/// reports, handed out before any new code is read.
pub struct CursesInput {
    event_queue: Vec<Event>,
}

impl CursesInput {
    /// The events waiting to be handed out, oldest first.
    pub closed spec fn queue(&self) -> Seq<Event> {
        self.event_queue@
    }

    /// An input state with nothing queued.
    pub fn new() -> (r: CursesInput)
        ensures
            r.queue() == Seq::<Event>::empty(),
    {
        CursesInput { event_queue: Vec::new() }
    }

    /// Whether an event is waiting.
    pub fn has_queued(&self) -> (r: bool)
        ensures
            r == (self.queue().len() > 0),
    {
        self.event_queue.len() > 0
    }

    /// Takes the oldest queued event, if any. A poll calls this first, and
    /// reads a new code only where it gives `None`.
    pub fn take_queued(&mut self) -> (r: Option<Event>)
        ensures
            old(self).queue().len() == 0 ==> r is None && final(self).queue() == old(self).queue(),
            old(self).queue().len() > 0 ==> r == Some(old(self).queue()[0]) && final(self).queue()
                == old(self).queue().drop_first(),
    {
        if self.event_queue.len() == 0 {
            None
        } else {
            let e = self.event_queue.remove(0);
            proof {
                assert(self.event_queue@ =~= old(self).event_queue@.drop_first());
            }
            Some(e)
        }
    }

    /// Translates a mouse report at `pos` with button state `bstate`.
    ///
    /// The modifier bits are read and removed before the button bits are
    /// looked at. A click gives a press, and queues the matching release.
    /// A report that names no action, or all three modifiers at once, gives
    /// `Unknown`.
    pub fn parse_mouse(&mut self, pos: Vec2, bstate: i32, m: &MouseMasks) -> (r: Event)
        ensures
            match mouse_outcome(pos, bstate, *m) {
                Some((e, queued)) => r == e && final(self).queue() == old(self).queue() + queued,
                None => is_unknown(r, mouse_unknown_bytes(bstate, *m)) && final(self).queue() == old(
                    self,
                ).queue(),
            },
    {
        let ctrl = bstate & m.ctrl != 0;
        let alt = bstate & m.alt != 0;
        let shift = bstate & m.shift != 0;
        if ctrl && alt && shift {
            return Event::Unknown(get_bytes(bstate));
        }
        let b = bstate & !(m.ctrl | m.shift | m.alt);
        match parse_mouse_button(b, m) {
            None => Event::Unknown(get_bytes(b)),
            Some((action, clicked)) => {
                let e = wrap_mouse(ctrl, alt, shift, pos, action);
                match e {
                    None => Event::Unknown(get_bytes(bstate)),
                    Some(e) => {
                        if clicked {
                            let release = match action {
                                MouseEvent::Press(btn) => MouseEvent::Release(btn),
                                other => other,
                            };
                            let q = wrap_mouse(ctrl, alt, shift, pos, release);
                            match q {
                                Some(q) => {
                                    self.event_queue.push(q);
                                },
                                None => {},
                            }
                            proof {
                                assert(self.event_queue@ =~= old(self).event_queue@ + seq![
                                    mouse_with_modifiers(ctrl, alt, shift, pos, release)->0,
                                ]);
                            }
                        } else {
                            proof {
                                assert(self.event_queue@ =~= old(self).event_queue@
                                    + Seq::<Event>::empty());
                            }
                        }
                        e
                    },
                }
            },
        }
    }
}

/// A click reported with no modifier key gives two events in turn: the press
/// of the button, handed out at once, then its release, queued behind the
/// events already waiting; with nothing waiting, the next poll hands it out
/// before it reads any new code.
pub proof fn lemma_click_press_then_release(
    pos: Vec2,
    bstate: i32,
    m: MouseMasks,
    button: MouseButton,
    waiting: Seq<Event>,
)
    requires
        mouse_button_action(bstate & !m.modifiers(), m) == Some((MouseEvent::Press(button), true)),
        bstate & m.ctrl == 0,
        bstate & m.alt == 0,
        bstate & m.shift == 0,
    ensures
        mouse_outcome(pos, bstate, m) == Some(
            (
                Event::Mouse { pos, event: MouseEvent::Press(button) },
                seq![Event::Mouse { pos, event: MouseEvent::Release(button) }],
            ),
        ),
        ({
            let q = waiting + mouse_outcome(pos, bstate, m).unwrap().1;
            &&& q.len() == waiting.len() + 1
            &&& q[waiting.len() as int] == Event::Mouse { pos, event: MouseEvent::Release(button) }
            &&& waiting.len() == 0 ==> q.drop_first() == Seq::<Event>::empty()
        }),
{
    let q = waiting + mouse_outcome(pos, bstate, m).unwrap().1;
    if waiting.len() == 0 {
        assert(q.drop_first() =~= Seq::<Event>::empty());
    }
}

/// What a code asks of the driver before it becomes an event.
pub enum CodeStep {
    /// The code is an event by itself.
    Ready(Event),
    /// A mouse report must be fetched and passed to `CursesInput::parse_mouse`.
    MouseReport,
    /// The code is the first byte of a UTF-8 character of this many bytes;
    /// the others must be read and passed, after it, to `decode_char`.
    Utf8(usize),
}

/// The number of bytes of a UTF-8 character that starts with `b`, or 0 where
/// no character starts with it.
pub open spec fn utf8_width(b: u8) -> int {
    if is_leading_byte_width_1(b) {
        1
    } else if is_leading_byte_width_2(b) {
        2
    } else if is_leading_byte_width_3(b) {
        3
    } else if is_leading_byte_width_4(b) {
        4
    } else {
        0
    }
}

/// Codes in this range, but for 127, start a character.
pub open spec fn is_char_start(ch: i32) -> bool {
    32 <= ch <= 255 && ch != 127
}

/// Decides what to do with a code read from the driver: a mouse report to
/// fetch, the further bytes of a character to read, or the event of the
/// translation table. A code that starts a character but cannot begin a
/// UTF-8 sequence gives `Unknown` with its four bytes.
pub fn classify_code(ch: i32) -> (r: CodeStep)
    ensures
        ch == KEY_MOUSE ==> r is MouseReport,
        is_char_start(ch) && utf8_width(ch as u8) > 0 ==> r == CodeStep::Utf8(
            utf8_width(ch as u8) as usize,
        ),
        is_char_start(ch) && utf8_width(ch as u8) == 0 ==> (match r {
            CodeStep::Ready(e) => is_unknown(e, le_bytes(ch)),
            _ => false,
        }),
        !is_char_start(ch) && ch != KEY_MOUSE ==> (match r {
            CodeStep::Ready(e) => match code_event(ch as int) {
                Some(t) => e == t,
                None => is_unknown(e, le_bytes(ch)),
            },
            _ => false,
        }),
{
    if ch == KEY_MOUSE {
        CodeStep::MouseReport
    } else if 32 <= ch && ch <= 255 && ch != 127 {
        let b = ch as u8;
        if b <= 0x7f {
            CodeStep::Utf8(1)
        } else if 0xc0 <= b && b <= 0xdf {
            CodeStep::Utf8(2)
        } else if 0xe0 <= b && b <= 0xef {
            CodeStep::Utf8(3)
        } else if 0xf0 <= b && b <= 0xf7 {
            CodeStep::Utf8(4)
        } else {
            CodeStep::Ready(Event::Unknown(get_bytes(ch)))
        }
    } else {
        CodeStep::Ready(parse_ncurses_char(ch))
    }
}

/// The character that `bytes` encode in UTF-8, where they encode exactly one.
pub open spec fn decoded_char(bytes: Seq<u8>) -> Option<char> {
    if bytes.len() > 0 && valid_first_scalar(bytes) && length_of_first_scalar(bytes)
        == bytes.len() && is_scalar(decode_first_scalar(bytes)) {
        Some(decode_first_scalar(bytes) as char)
    } else {
        None
    }
}

/// Relies on `char::from_u32`: `Some` exactly for the values of Unicode
/// scalars, holding the character of that value.
#[verifier::external_body]
fn char_from_u32(v: u32) -> (r: Option<char>)
    ensures
        is_scalar(v) ==> r == Some(v as char),
        !is_scalar(v) ==> r is None,
{
    char::from_u32(v)
}

/// The event for the bytes of one character: `Char` where they are the
/// UTF-8 encoding of exactly one character, `Unknown` with the bytes
/// otherwise.
pub fn decode_char(bytes: Vec<u8>) -> (r: Event)
    ensures
        match decoded_char(bytes@) {
            Some(c) => r == Event::Char(c),
            None => is_unknown(r, bytes@),
        },
{
    let n = bytes.len();
    if n == 0 {
        return Event::Unknown(bytes);
    }
    let b0 = bytes[0];
    let cp: u32;
    if b0 <= 0x7f {
        if n != 1 {
            return Event::Unknown(bytes);
        }
        cp = (b0 & 0x7F) as u32;
    } else if 0xc0 <= b0 && b0 <= 0xdf {
        if n != 2 || !(0x80 <= bytes[1] && bytes[1] <= 0xbf) {
            return Event::Unknown(bytes);
        }
        cp = (((b0 & 0x1F) as u32) << 6) | ((bytes[1] & 0x3f) as u32);
        if cp < 0x80 {
            return Event::Unknown(bytes);
        }
    } else if 0xe0 <= b0 && b0 <= 0xef {
        if n != 3 || !(0x80 <= bytes[1] && bytes[1] <= 0xbf) || !(0x80 <= bytes[2] && bytes[2]
            <= 0xbf) {
            return Event::Unknown(bytes);
        }
        cp = (((b0 & 0x0F) as u32) << 12) | (((bytes[1] & 0x3f) as u32) << 6) | ((bytes[2]
            & 0x3f) as u32);
        if cp < 0x800 || (0xD800 <= cp && cp <= 0xDFFF) {
            return Event::Unknown(bytes);
        }
    } else if 0xf0 <= b0 && b0 <= 0xf7 {
        if n != 4 || !(0x80 <= bytes[1] && bytes[1] <= 0xbf) || !(0x80 <= bytes[2] && bytes[2]
            <= 0xbf) || !(0x80 <= bytes[3] && bytes[3] <= 0xbf) {
            return Event::Unknown(bytes);
        }
        cp = (((b0 & 0x07) as u32) << 18) | (((bytes[1] & 0x3f) as u32) << 12) | (((bytes[2]
            & 0x3f) as u32) << 6) | ((bytes[3] & 0x3f) as u32);
        if cp < 0x10000 || cp > 0x10ffff {
            return Event::Unknown(bytes);
        }
    } else {
        return Event::Unknown(bytes);
    }
    proof {
        assert(cp == decode_first_codepoint(bytes@));
    }
    match char_from_u32(cp) {
        Some(c) => Event::Char(c),
        None => Event::Unknown(bytes),
    }
}

} // verus!
