//! User-input events and the answer a view gives to them.
//!
//! Every input the application receives is converted to an [`Event`]. The
//! event descends the view tree towards the focused view; each view answers
//! with an [`EventResult`], which may carry a [`Callback`] for the event loop
//! to run once routing is over.

use vstd::prelude::*;
use crate::vec::Vec2;

verus! {

/// Handle on a function to run against the application root.
///
/// The functions themselves live in a table owned by the event loop; a handle
/// is cheap to copy, so several results may share one function.
#[derive(Clone, Copy, Debug, PartialEq, Eq, Hash)]
pub struct Callback {
    /// Index of the function in the event loop's table.
    pub id: usize,
}

impl Callback {
    /// Handle on the function stored under `id`.
    pub fn new(id: usize) -> (r: Callback)
        ensures
            r.id == id,
    {
        Callback { id }
    }
}

/// Answer to an event notification.
#[derive(Clone, Copy, Debug, PartialEq, Eq, Hash)]
pub enum EventResult {
    /// The event was ignored: the parent may handle it.
    Ignored,
    /// The event was consumed, with an optional callback to run.
    Consumed(Option<Callback>),
}

impl EventResult {
    /// `Consumed(Some(cb))`.
    pub fn with_cb(cb: Callback) -> (r: EventResult)
        ensures
            r == EventResult::Consumed(Some(cb)),
    {
        EventResult::Consumed(Some(cb))
    }

    /// Returns `true` if `self` is `Consumed`.
    pub fn is_consumed(&self) -> (r: bool)
        ensures
            r == (*self is Consumed),
    {
        match *self {
            EventResult::Consumed(_) => true,
            EventResult::Ignored => false,
        }
    }

    /// The callback to run, if the event was consumed with one.
    pub fn callback(&self) -> (r: Option<Callback>)
        ensures
            r == (match *self {
                EventResult::Consumed(Some(cb)) => Some(cb),
                _ => None::<Callback>,
            }),
    {
        match *self {
            EventResult::Consumed(Some(cb)) => Some(cb),
            _ => None,
        }
    }
}

/// A non-character key on the keyboard.
#[derive(Clone, Copy, Debug, PartialEq, Eq, Hash)]
pub enum Key {
    /// Both Enter (or Return) and numpad Enter.
    Enter,
    /// Tabulation key.
    Tab,
    /// Backspace key.
    Backspace,
    /// Escape key.
    Esc,
    /// Left arrow.
    Left,
    /// Right arrow.
    Right,
    /// Up arrow.
    Up,
    /// Down arrow.
    Down,
    /// Insert key.
    Ins,
    /// Delete key.
    Del,
    /// Home key.
    Home,
    /// End key.
    End,
    /// Page Up key.
    PageUp,
    /// Page Down key.
    PageDown,
    /// Pause Break key.
    PauseBreak,
    /// The 5 in the center of the keypad, when numlock is disabled.
    NumpadCenter,
    /// F0 key.
    F0,
    /// F1 key.
    F1,
    /// F2 key.
    F2,
    /// F3 key.
    F3,
    /// F4 key.
    F4,
    /// F5 key.
    F5,
    /// F6 key.
    F6,
    /// F7 key.
    F7,
    /// F8 key.
    F8,
    /// F9 key.
    F9,
    /// F10 key.
    F10,
    /// F11 key.
    F11,
    /// F12 key.
    F12,
}

/// The function key numbered `n`, for `n <= 12`.
pub open spec fn function_key(n: int) -> Key {
    if n == 0 { Key::F0 }
    else if n == 1 { Key::F1 }
    else if n == 2 { Key::F2 }
    else if n == 3 { Key::F3 }
    else if n == 4 { Key::F4 }
    else if n == 5 { Key::F5 }
    else if n == 6 { Key::F6 }
    else if n == 7 { Key::F7 }
    else if n == 8 { Key::F8 }
    else if n == 9 { Key::F9 }
    else if n == 10 { Key::F10 }
    else if n == 11 { Key::F11 }
    else { Key::F12 }
}

/// The number of a function key, if `k` is one.
pub open spec fn function_key_number(k: Key) -> Option<int> {
    match k {
        Key::F0 => Some(0),
        Key::F1 => Some(1),
        Key::F2 => Some(2),
        Key::F3 => Some(3),
        Key::F4 => Some(4),
        Key::F5 => Some(5),
        Key::F6 => Some(6),
        Key::F7 => Some(7),
        Key::F8 => Some(8),
        Key::F9 => Some(9),
        Key::F10 => Some(10),
        Key::F11 => Some(11),
        Key::F12 => Some(12),
        _ => None,
    }
}

impl Key {
    /// Returns the function key numbered `n`: 0 gives F0, 1 gives F1, and so
    /// on up to F12. No other number names a function key.
    pub fn from_f(n: u8) -> (r: Key)
        requires
            n <= 12,
        ensures
            r == function_key(n as int),
            function_key_number(r) == Some(n as int),
    {
        match n {
            0 => Key::F0,
            1 => Key::F1,
            2 => Key::F2,
            3 => Key::F3,
            4 => Key::F4,
            5 => Key::F5,
            6 => Key::F6,
            7 => Key::F7,
            8 => Key::F8,
            9 => Key::F9,
            10 => Key::F10,
            11 => Key::F11,
            _ => Key::F12,
        }
    }
}

/// A type of mouse event.
#[derive(Clone, Copy, Debug, PartialEq, Eq, Hash)]
pub enum MouseEvent {
    /// A button was pressed.
    Press(MouseButton),
    /// A button was released.
    Release(MouseButton),
    /// The mousewheel was moved up.
    WheelUp,
    /// The mousewheel was moved down.
    WheelDown,
}

/// A button on the mouse.
#[derive(Clone, Copy, Debug, PartialEq, Eq, Hash)]
pub enum MouseButton {
    /// The left button.
    Left,
    /// The right button.
    Right,
    /// The middle button.
    Middle,
}

/// An input event, as seen by the application.
#[derive(Clone, Debug, PartialEq, Eq, Hash)]
pub enum Event {
    /// The window was resized.
    WindowResize,
    /// Fired regularly when an auto-refresh is set.
    Refresh,
    /// A character was entered (includes numbers, punctuation, ...).
    Char(char),
    /// A character was entered with the Ctrl key pressed.
    CtrlChar(char),
    /// A character was entered with the Alt key pressed.
    AltChar(char),
    /// A mouse event.
    Mouse { pos: Vec2, event: MouseEvent },
    /// A mouse event with the Ctrl key pressed.
    CtrlMouse { pos: Vec2, event: MouseEvent },
    /// A mouse event with the Alt key pressed.
    AltMouse { pos: Vec2, event: MouseEvent },
    /// A mouse event with the Shift key pressed.
    ShiftMouse { pos: Vec2, event: MouseEvent },
    /// A mouse event with the Ctrl and Alt keys pressed.
    CtrlAltMouse { pos: Vec2, event: MouseEvent },
    /// A mouse event with the Ctrl and Shift keys pressed.
    CtrlShiftMouse { pos: Vec2, event: MouseEvent },
    /// A mouse event with the Alt and Shift keys pressed.
    AltShiftMouse { pos: Vec2, event: MouseEvent },
    /// A non-character key was pressed.
    Key(Key),
    /// A non-character key was pressed with the Shift key pressed.
    Shift(Key),
    /// A non-character key was pressed with the Alt key pressed.
    Alt(Key),
    /// A non-character key was pressed with the Alt and Shift keys pressed.
    AltShift(Key),
    /// A non-character key was pressed with the Ctrl key pressed.
    Ctrl(Key),
    /// A non-character key was pressed with the Ctrl and Shift keys pressed.
    CtrlShift(Key),
    /// A non-character key was pressed with the Ctrl and Alt keys pressed.
    CtrlAlt(Key),
    /// Input that no other variant describes, as raw bytes.
    Unknown(Vec<u8>),
    /// The application is about to exit.
    Exit,
}

impl Event {
    /// The position of the mouse, for a mouse event.
    pub open spec fn position(self) -> Option<Vec2> {
        match self {
            Event::Mouse { pos, .. } => Some(pos),
            Event::CtrlMouse { pos, .. } => Some(pos),
            Event::AltMouse { pos, .. } => Some(pos),
            Event::ShiftMouse { pos, .. } => Some(pos),
            Event::CtrlAltMouse { pos, .. } => Some(pos),
            Event::CtrlShiftMouse { pos, .. } => Some(pos),
            Event::AltShiftMouse { pos, .. } => Some(pos),
            _ => None,
        }
    }

    /// The same event with its mouse position replaced by `p`; other events
    /// are unchanged.
    pub open spec fn with_position(self, p: Vec2) -> Event {
        match self {
            Event::Mouse { event, .. } => Event::Mouse { pos: p, event },
            Event::CtrlMouse { event, .. } => Event::CtrlMouse { pos: p, event },
            Event::AltMouse { event, .. } => Event::AltMouse { pos: p, event },
            Event::ShiftMouse { event, .. } => Event::ShiftMouse { pos: p, event },
            Event::CtrlAltMouse { event, .. } => Event::CtrlAltMouse { pos: p, event },
            Event::CtrlShiftMouse { event, .. } => Event::CtrlShiftMouse { pos: p, event },
            Event::AltShiftMouse { event, .. } => Event::AltShiftMouse { pos: p, event },
            _ => self,
        }
    }

    /// Whether a position lies in the region that starts at `top_left` and,
    /// when a size is given, spans `size` cells on each axis.
    pub open spec fn in_region(p: Vec2, top_left: Vec2, size: Option<Vec2>) -> bool {
        &&& top_left.x <= p.x
        &&& top_left.y <= p.y
        &&& match size {
            Some(s) => p.x < top_left.x + s.x && p.y < top_left.y + s.y,
            None => true,
        }
    }

    /// The event as seen from the region at `top_left` of the given size:
    /// `None` for a mouse event outside the region, the event with its
    /// position made relative to `top_left` for one inside, and the event
    /// itself otherwise.
    pub open spec fn relative_to(self, top_left: Vec2, size: Option<Vec2>) -> Option<Event> {
        match self.position() {
            None => Some(self),
            Some(p) => if Event::in_region(p, top_left, size) {
                Some(self.with_position(p.spec_sub(top_left)))
            } else {
                None
            },
        }
    }

    /// Returns the position of the mouse, or `None` if this is not a mouse
    /// event.
    pub fn mouse_position(&self) -> (r: Option<Vec2>)
        ensures
            r == self.position(),
    {
        match *self {
            Event::Mouse { pos, .. }
            | Event::CtrlMouse { pos, .. }
            | Event::AltMouse { pos, .. }
            | Event::ShiftMouse { pos, .. }
            | Event::CtrlAltMouse { pos, .. }
            | Event::CtrlShiftMouse { pos, .. }
            | Event::AltShiftMouse { pos, .. } => Some(pos),
            _ => None,
        }
    }

    /// Moves a mouse event's position by `-top_left`; other events are left
    /// as they are.
    pub fn relativize(&mut self, top_left: Vec2)
        requires
            match old(self).position() {
                Some(p) => top_left.le(p),
                None => true,
            },
        ensures
            *final(self) == match old(self).position() {
                Some(p) => old(self).with_position(p.spec_sub(top_left)),
                None => *old(self),
            },
    {
        match self {
            Event::Mouse { pos, .. } => {
                *pos = pos.minus(top_left);
            },
            Event::CtrlMouse { pos, .. } => {
                *pos = pos.minus(top_left);
            },
            Event::AltMouse { pos, .. } => {
                *pos = pos.minus(top_left);
            },
            Event::ShiftMouse { pos, .. } => {
                *pos = pos.minus(top_left);
            },
            Event::CtrlAltMouse { pos, .. } => {
                *pos = pos.minus(top_left);
            },
            Event::CtrlShiftMouse { pos, .. } => {
                *pos = pos.minus(top_left);
            },
            Event::AltShiftMouse { pos, .. } => {
                *pos = pos.minus(top_left);
            },
            _ => {},
        }
    }

    /// The event as seen from the region that starts at `top_left` and spans
    /// `size` cells, if given. Takes the event by value, so that the result
    /// is this very event where nothing is moved.
    ///
    /// A mouse event above or left of `top_left`, or at or beyond
    /// `top_left + size`, gives `None`; one inside gives the event with its
    /// position relative to `top_left`. Any other event is returned as is.
    pub fn make_relative(self, top_left: Vec2, size: Option<Vec2>) -> (r: Option<Event>)
        ensures
            r == self.relative_to(top_left, size),
    {
        match self.mouse_position() {
            None => Some(self),
            Some(pos) => {
                if !top_left.fits_in(pos) {
                    None
                } else {
                    let outside = match size {
                        Some(s) => !(pos.x - top_left.x < s.x && pos.y - top_left.y < s.y),
                        None => false,
                    };
                    if outside {
                        None
                    } else {
                        let mut moved = self;
                        moved.relativize(top_left);
                        Some(moved)
                    }
                }
            },
        }
    }
}

/// The function keys are numbered 0 to 12, each number naming one key, and
/// no key has another number.
pub proof fn lemma_function_key_numbers(n: int, k: Key)
    ensures
        0 <= n <= 12 ==> function_key_number(function_key(n)) == Some(n),
        function_key_number(k) is Some ==> {
            let m = function_key_number(k)->0;
            &&& 0 <= m <= 12
            &&& function_key(m) == k
        },
{
}

/// An event that carries no mouse position is left as it is by
/// relativization, whatever the region.
pub proof fn lemma_relative_non_mouse(e: Event, top_left: Vec2, size: Option<Vec2>, p: Vec2)
    requires
        e.position() is None,
    ensures
        e.relative_to(top_left, size) == Some(e),
        e.with_position(p) == e,
{
}

/// A mouse event at `p` is kept by relativization to the region at `t` of
/// optional size `s` exactly when `p` lies at or beyond `t` on both axes and,
/// when a size is given, strictly before `t + s`; what is kept is the same
/// event at `p - t`.
pub proof fn lemma_relative_mouse(e: Event, t: Vec2, s: Option<Vec2>)
    requires
        e.position() is Some,
    ensures
        ({
            let p = e.position()->0;
            &&& e.relative_to(t, s) is Some <==> (p.x >= t.x && p.y >= t.y && match s {
                Some(sz) => p.x < t.x + sz.x && p.y < t.y + sz.y,
                None => true,
            })
            &&& e.relative_to(t, s) is Some ==> {
                let r = e.relative_to(t, s)->0;
                &&& r.position() == Some(Vec2 { x: (p.x - t.x) as usize, y: (p.y - t.y) as usize })
                &&& r.with_position(p) == e
            }
        }),
{
}

impl From<char> for Event {
    fn from(c: char) -> (r: Event) {
        Event::Char(c)
    }
}

impl vstd::std_specs::convert::FromSpecImpl<char> for Event {
    open spec fn obeys_from_spec() -> bool {
        true
    }

    open spec fn from_spec(c: char) -> Event {
        Event::Char(c)
    }
}

impl From<Key> for Event {
    fn from(k: Key) -> (r: Event) {
        Event::Key(k)
    }
}

impl vstd::std_specs::convert::FromSpecImpl<Key> for Event {
    open spec fn obeys_from_spec() -> bool {
        true
    }

    open spec fn from_spec(k: Key) -> Event {
        Event::Key(k)
    }
}

} // verus!
