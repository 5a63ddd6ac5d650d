use vstd::prelude::*;

verus! {

/// A pointer button.
#[derive(Clone, Copy, Debug, PartialEq, Eq, Structural)]
pub enum MouseButton {
    Left,
    Right,
    Middle,
    X1,
    X2,
}

/// The state of the modifier keys when an input event happened.
#[derive(Clone, Copy, Debug, PartialEq, Eq, Structural)]
pub struct KeyModifiers {
    pub shift: bool,
    pub alt: bool,
    pub ctrl: bool,
    pub meta: bool,
}

impl KeyModifiers {
    pub open spec fn none_spec() -> KeyModifiers {
        KeyModifiers { shift: false, alt: false, ctrl: false, meta: false }
    }

    /// No modifier key held.
    pub fn none() -> (r: KeyModifiers)
        ensures
            r == KeyModifiers::none_spec(),
    {
        KeyModifiers { shift: false, alt: false, ctrl: false, meta: false }
    }
}

/// A pointer press or release as the handler sees it; the position is
/// attached by the native layer, which alone reads it.
#[derive(Clone, Copy, Debug, PartialEq, Eq, Structural)]
pub struct PointerEvent {
    pub button: MouseButton,
    pub count: u32,
    pub mods: KeyModifiers,
}

/// A touch is reported as the primary button with no modifiers.
pub open spec fn touch_pointer(count: u32) -> PointerEvent {
    PointerEvent { button: MouseButton::Left, count, mods: KeyModifiers::none_spec() }
}

/// The shape of the pointer over the window.
#[derive(Clone, Copy, Debug, PartialEq, Eq, Structural)]
pub enum Cursor {
    Arrow,
    IBeam,
    Crosshair,
    OpenHand,
    NotAllowed,
    ResizeLeftRight,
    ResizeUpDown,
}

/// A position in whole pixels.
#[derive(Clone, Copy, Debug, PartialEq, Eq, Structural)]
pub struct Point {
    pub x: i32,
    pub y: i32,
}

/// A size in whole pixels.
#[derive(Clone, Copy, Debug, PartialEq, Eq, Structural)]
pub struct Size {
    pub width: u32,
    pub height: u32,
}

} // verus!
