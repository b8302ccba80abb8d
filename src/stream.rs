//! Translation of the decoded key events of a streaming terminal driver into
//! canonical events, and the choices its poll makes.
//!
//! A worker decodes the terminal's input into [`StreamEvent`]s and sends the
//! translated events over a channel; window resizes arrive on a second
//! channel, and a timer may fire when a refresh rate is set.

use vstd::prelude::*;
use crate::curses::is_unknown;
use crate::event::{Event, Key, MouseButton, MouseEvent, function_key};
use crate::vec::Vec2;

verus! {

/// A key as the streaming driver decodes it.
#[derive(Clone, Copy, Debug, PartialEq, Eq, Hash)]
pub enum StreamKey {
    Backspace,
    Left,
    Right,
    Up,
    Down,
    Home,
    End,
    PageUp,
    PageDown,
    BackTab,
    Delete,
    Insert,
    /// Function key with its number.
    F(u8),
    /// A character.
    Char(char),
    /// A character with Alt held.
    Alt(char),
    /// A character with Ctrl held.
    Ctrl(char),
    /// The null byte.
    Null,
    Esc,
}

/// A mouse button or wheel as the streaming driver decodes it.
#[derive(Clone, Copy, Debug, PartialEq, Eq, Hash)]
pub enum StreamButton {
    Left,
    Right,
    Middle,
    WheelUp,
    WheelDown,
}

/// A mouse report as the streaming driver decodes it, with one-based
/// coordinates.
#[derive(Clone, Copy, Debug, PartialEq, Eq, Hash)]
pub enum StreamMouse {
    /// A button was pressed, or the wheel moved.
    Press(StreamButton, u16, u16),
    /// The pressed button was released; the report does not say which.
    Release(u16, u16),
    /// A button is held while the mouse moves.
    Hold(u16, u16),
}

/// An input event as the streaming driver decodes it.
#[derive(Clone, Debug, PartialEq, Eq, Hash)]
pub enum StreamEvent {
    /// A key press.
    Key(StreamKey),
    /// A mouse report.
    Mouse(StreamMouse),
    /// Bytes that the driver could not decode.
    Unsupported(Vec<u8>),
}

/// The canonical event of a decoded key, where it has one.
pub open spec fn stream_key_event(k: StreamKey) -> Option<Event> {
    match k {
        StreamKey::Esc => Some(Event::Key(Key::Esc)),
        StreamKey::Backspace => Some(Event::Key(Key::Backspace)),
        StreamKey::Left => Some(Event::Key(Key::Left)),
        StreamKey::Right => Some(Event::Key(Key::Right)),
        StreamKey::Up => Some(Event::Key(Key::Up)),
        StreamKey::Down => Some(Event::Key(Key::Down)),
        StreamKey::Home => Some(Event::Key(Key::Home)),
        StreamKey::End => Some(Event::Key(Key::End)),
        StreamKey::PageUp => Some(Event::Key(Key::PageUp)),
        StreamKey::PageDown => Some(Event::Key(Key::PageDown)),
        StreamKey::Delete => Some(Event::Key(Key::Del)),
        StreamKey::Insert => Some(Event::Key(Key::Ins)),
        StreamKey::BackTab => Some(Event::Shift(Key::Tab)),
        StreamKey::F(i) => if i <= 12 {
            Some(Event::Key(function_key(i as int)))
        } else {
            None
        },
        StreamKey::Char(c) => if c == '\n' {
            Some(Event::Key(Key::Enter))
        } else if c == '\t' {
            Some(Event::Key(Key::Tab))
        } else {
            Some(Event::Char(c))
        },
        StreamKey::Ctrl(c) => if c == 'c' {
            Some(Event::Exit)
        } else {
            Some(Event::CtrlChar(c))
        },
        StreamKey::Alt(c) => Some(Event::AltChar(c)),
        StreamKey::Null => None,
    }
}

/// The zero-based cell of one-based coordinates.
pub open spec fn cell_of(x: u16, y: u16) -> Vec2 {
    Vec2 {
        x: if x == 0 { 0 } else { (x - 1) as usize },
        y: if y == 0 { 0 } else { (y - 1) as usize },
    }
}

/// The canonical event of a mouse report, given the button of the last
/// press: a press, or a wheel move, at its cell; the release of the last
/// pressed button; `None` for a release with no press before it, and for a
/// button held while the mouse moves, which no canonical event describes.
pub open spec fn stream_mouse_event(m: StreamMouse, pressed: Option<MouseButton>) -> Option<Event> {
    match m {
        StreamMouse::Press(b, x, y) => Some(
            Event::Mouse {
                pos: cell_of(x, y),
                event: match b {
                    StreamButton::Left => MouseEvent::Press(MouseButton::Left),
                    StreamButton::Right => MouseEvent::Press(MouseButton::Right),
                    StreamButton::Middle => MouseEvent::Press(MouseButton::Middle),
                    StreamButton::WheelUp => MouseEvent::WheelUp,
                    StreamButton::WheelDown => MouseEvent::WheelDown,
                },
            },
        ),
        StreamMouse::Release(x, y) => match pressed {
            Some(b) => Some(Event::Mouse { pos: cell_of(x, y), event: MouseEvent::Release(b) }),
            None => None,
        },
        StreamMouse::Hold(_, _) => None,
    }
}

/// The zero-based cell of one-based coordinates.
fn to_cell(x: u16, y: u16) -> (r: Vec2)
    ensures
        r == cell_of(x, y),
{
    Vec2::new(
        if x == 0 { 0 } else { (x - 1) as usize },
        if y == 0 { 0 } else { (y - 1) as usize },
    )
}

/// Translates a mouse report, given the button of the last press; see
/// `stream_mouse_event`. Reports it does not describe give `Unknown` with
/// no bytes.
pub fn map_mouse(m: StreamMouse, pressed: Option<MouseButton>) -> (r: Event)
    ensures
        match stream_mouse_event(m, pressed) {
            Some(e) => r == e,
            None => is_unknown(r, Seq::empty()),
        },
{
    match m {
        StreamMouse::Press(b, x, y) => Event::Mouse {
            pos: to_cell(x, y),
            event: match b {
                StreamButton::Left => MouseEvent::Press(MouseButton::Left),
                StreamButton::Right => MouseEvent::Press(MouseButton::Right),
                StreamButton::Middle => MouseEvent::Press(MouseButton::Middle),
                StreamButton::WheelUp => MouseEvent::WheelUp,
                StreamButton::WheelDown => MouseEvent::WheelDown,
            },
        },
        StreamMouse::Release(x, y) => match pressed {
            Some(b) => Event::Mouse { pos: to_cell(x, y), event: MouseEvent::Release(b) },
            None => Event::Unknown(Vec::new()),
        },
        StreamMouse::Hold(_, _) => Event::Unknown(Vec::new()),
    }
}

/// The button that a report leaves pressed, after `pressed`: the button of
/// a press, none after a release, unchanged otherwise.
pub open spec fn pressed_after(m: StreamMouse, pressed: Option<MouseButton>) -> Option<MouseButton> {
    match m {
        StreamMouse::Press(StreamButton::Left, _, _) => Some(MouseButton::Left),
        StreamMouse::Press(StreamButton::Right, _, _) => Some(MouseButton::Right),
        StreamMouse::Press(StreamButton::Middle, _, _) => Some(MouseButton::Middle),
        StreamMouse::Release(_, _) => None,
        _ => pressed,
    }
}

/// What the streaming driver's worker remembers between reports: the
/// button of the last press, which a release report does not name.
pub struct StreamInput {
    pub pressed: Option<MouseButton>,
}

impl StreamInput {
    /// Nothing pressed yet.
    pub fn new() -> (r: StreamInput)
        ensures
            r.pressed is None,
    {
        StreamInput { pressed: None }
    }

    /// Translates a decoded event: keys and undecoded bytes by `map_key`,
    /// mouse reports by `map_mouse` with the button of the last press.
    pub fn translate(&mut self, event: StreamEvent) -> (r: Event)
        ensures
            match event {
                StreamEvent::Mouse(m) => {
                    &&& match stream_mouse_event(m, old(self).pressed) {
                        Some(e) => r == e,
                        None => is_unknown(r, Seq::empty()),
                    }
                    &&& final(self).pressed == pressed_after(m, old(self).pressed)
                },
                StreamEvent::Unsupported(bytes) => r == Event::Unknown(bytes) && final(self).pressed
                    == old(self).pressed,
                StreamEvent::Key(k) => final(self).pressed == old(self).pressed && match stream_key_event(k) {
                    Some(e) => r == e,
                    None => is_unknown(r, stream_key_unknown_bytes(k)),
                },
            },
    {
        match event {
            StreamEvent::Mouse(m) => {
                let r = map_mouse(m, self.pressed);
                self.pressed = match m {
                    StreamMouse::Press(StreamButton::Left, _, _) => Some(MouseButton::Left),
                    StreamMouse::Press(StreamButton::Right, _, _) => Some(MouseButton::Right),
                    StreamMouse::Press(StreamButton::Middle, _, _) => Some(MouseButton::Middle),
                    StreamMouse::Release(_, _) => None,
                    _ => self.pressed,
                };
                r
            },
            other => map_key(other),
        }
    }
}

/// The bytes that `Unknown` carries for a key without a canonical event: the
/// number of a function key beyond F12, nothing otherwise.
pub open spec fn stream_key_unknown_bytes(k: StreamKey) -> Seq<u8> {
    match k {
        StreamKey::F(j) => seq![j],
        _ => Seq::empty(),
    }
}

/// Translates a decoded event into a canonical one: keys by
/// `stream_key_event`, undecoded bytes into `Unknown` with the same bytes,
/// and mouse reports by `map_mouse` as if no button had been pressed
/// before (`StreamInput` remembers the last press).
pub fn map_key(event: StreamEvent) -> (r: Event)
    ensures
        match event {
            StreamEvent::Unsupported(bytes) => r == Event::Unknown(bytes),
            StreamEvent::Mouse(m) => match stream_mouse_event(m, None) {
                Some(e) => r == e,
                None => is_unknown(r, Seq::empty()),
            },
            StreamEvent::Key(k) => match stream_key_event(k) {
                Some(e) => r == e,
                None => is_unknown(r, stream_key_unknown_bytes(k)),
            },
        },
{
    match event {
        StreamEvent::Unsupported(bytes) => Event::Unknown(bytes),
        StreamEvent::Mouse(m) => map_mouse(m, None),
        StreamEvent::Key(k) => match k {
            StreamKey::Esc => Event::Key(Key::Esc),
            StreamKey::Backspace => Event::Key(Key::Backspace),
            StreamKey::Left => Event::Key(Key::Left),
            StreamKey::Right => Event::Key(Key::Right),
            StreamKey::Up => Event::Key(Key::Up),
            StreamKey::Down => Event::Key(Key::Down),
            StreamKey::Home => Event::Key(Key::Home),
            StreamKey::End => Event::Key(Key::End),
            StreamKey::PageUp => Event::Key(Key::PageUp),
            StreamKey::PageDown => Event::Key(Key::PageDown),
            StreamKey::Delete => Event::Key(Key::Del),
            StreamKey::Insert => Event::Key(Key::Ins),
            StreamKey::BackTab => Event::Shift(Key::Tab),
            StreamKey::F(i) => if i <= 12 {
                Event::Key(Key::from_f(i))
            } else {
                let mut bytes: Vec<u8> = Vec::new();
                bytes.push(i);
                proof {
                    assert(bytes@ =~= seq![i]);
                }
                Event::Unknown(bytes)
            },
            StreamKey::Char('\n') => Event::Key(Key::Enter),
            StreamKey::Char('\t') => Event::Key(Key::Tab),
            StreamKey::Char(c) => Event::Char(c),
            StreamKey::Ctrl('c') => Event::Exit,
            StreamKey::Ctrl(c) => Event::CtrlChar(c),
            StreamKey::Alt(c) => Event::AltChar(c),
            StreamKey::Null => Event::Unknown(Vec::new()),
        },
    }
}

/// The time to wait for input before a refresh, in milliseconds, at `fps`
/// refreshes per second; `None`, to wait without limit, for 0.
pub fn refresh_timeout_ms(fps: u32) -> (r: Option<u32>)
    ensures
        fps == 0 ==> r is None,
        fps > 0 ==> r == Some((1000int / (fps as int)) as u32),
{
    if fps == 0 {
        None
    } else {
        Some(1000 / fps)
    }
}

/// What ended a wait of the streaming driver's poll.
pub enum Wakeup {
    /// The refresh timer fired.
    Timeout,
    /// The terminal was resized.
    Resize,
    /// The worker sent an event.
    Input(Event),
}

/// The event that a poll returns for what ended its wait.
pub fn wakeup_event(w: Wakeup) -> (r: Event)
    ensures
        match w {
            Wakeup::Timeout => r == Event::Refresh,
            Wakeup::Resize => r == Event::WindowResize,
            Wakeup::Input(e) => r == e,
        },
{
    match w {
        Wakeup::Timeout => Event::Refresh,
        Wakeup::Resize => Event::WindowResize,
        Wakeup::Input(e) => e,
    }
}

} // verus!
