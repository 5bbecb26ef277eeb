use vstd::prelude::*;

verus! {

/// A point in glyph space.
#[derive(Clone, Copy, Debug, PartialEq, Eq, Structural)]
pub struct Point {
    pub x: i64,
    pub y: i64,
}

/// Which pointer button an event is about.
#[derive(Clone, Copy, Debug, PartialEq, Eq, Structural)]
pub enum MouseButton {
    Left,
    Middle,
    Right,
    Other,
}

/// Keyboard modifiers held at the time of a pointer event.
#[derive(Clone, Copy, Debug, PartialEq, Eq, Structural)]
pub struct Modifiers {
    pub shift: bool,
    pub ctrl: bool,
    pub alt: bool,
    pub meta: bool,
}

/// Snapshot of the pointing device at one instant.
#[derive(Clone, Copy, Debug, PartialEq, Eq, Structural)]
pub struct MouseInfo {
    pub button: MouseButton,
    pub position: Point,
    pub is_down: bool,
    pub modifiers: Modifiers,
}

impl MouseInfo {
    pub fn new(button: MouseButton, position: Point, is_down: bool, modifiers: Modifiers) -> (r: MouseInfo)
        ensures
            r == (MouseInfo { button, position, is_down, modifiers }),
    {
        MouseInfo { button, position, is_down, modifiers }
    }
}

/// The phase of a pointer event.
#[derive(Clone, Copy, Debug, PartialEq, Eq, Structural)]
pub enum MouseEventType {
    Pressed,
    Moved,
    Released,
}

/// One normalised input occurrence.
#[derive(Clone, Copy, Debug, PartialEq, Eq, Structural)]
pub enum EditorEvent {
    MouseEvent { event_type: MouseEventType, mouse_info: MouseInfo },
    KeyEvent { key: u32, pressed: bool },
    /// A user-interface frame; behaviors may draw transient overlays.
    Ui,
}

} // verus!
