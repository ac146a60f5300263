//! Typed refinement of mouse messages: the event kind from the message
//! identifier, the pointer position from the packed second parameter, and
//! the modifier from the first.

use vstd::prelude::*;

use crate::msg::{
    WM_LBUTTONDBLCLK, WM_LBUTTONDOWN, WM_LBUTTONUP, WM_MBUTTONDBLCLK, WM_MBUTTONDOWN,
    WM_MBUTTONUP, WM_MOUSEMOVE, WM_RBUTTONDBLCLK, WM_RBUTTONDOWN, WM_RBUTTONUP,
};
use crate::{hi_word, hword, lo_word, lword, Event};

verus! {

#[derive(PartialEq, Eq, Structural, Debug, Clone, Copy)]
pub enum MouseEventType {
    Move,
    LeftButtonDown,
    LeftButtonUp,
    LeftButtonDoubleClick,
    RightButtonDown,
    RightButtonUp,
    RightButtonDoubleClick,
    MiddleButtonDown,
    MiddleButtonUp,
    MiddleButtonDoubleClick,
    Unknown,
}

#[derive(PartialEq, Eq, Structural, Debug, Clone, Copy)]
pub enum MouseEventMod {
    Control,
    LeftButton,
    MiddleButton,
    RightButton,
    Shift,
    XButton1,
    XButton2,
    NoModifier,
    Unknown,
}

/// A mouse message decoded into its kind, pointer position and modifier.
#[derive(Debug)]
pub struct MouseEvent {
    pub event_type: MouseEventType,
    pub point: (i32, i32),
    pub opt: MouseEventMod,
}

/// The mouse-event kind selected by a message identifier.
pub open spec fn mouse_type_of(message: u32) -> MouseEventType {
    if message == WM_MOUSEMOVE {
        MouseEventType::Move
    } else if message == WM_LBUTTONDOWN {
        MouseEventType::LeftButtonDown
    } else if message == WM_LBUTTONUP {
        MouseEventType::LeftButtonUp
    } else if message == WM_LBUTTONDBLCLK {
        MouseEventType::LeftButtonDoubleClick
    } else if message == WM_RBUTTONDOWN {
        MouseEventType::RightButtonDown
    } else if message == WM_RBUTTONUP {
        MouseEventType::RightButtonUp
    } else if message == WM_RBUTTONDBLCLK {
        MouseEventType::RightButtonDoubleClick
    } else if message == WM_MBUTTONDOWN {
        MouseEventType::MiddleButtonDown
    } else if message == WM_MBUTTONUP {
        MouseEventType::MiddleButtonUp
    } else if message == WM_MBUTTONDBLCLK {
        MouseEventType::MiddleButtonDoubleClick
    } else {
        MouseEventType::Unknown
    }
}

/// The modifier encoded in a mouse message's first parameter.
pub open spec fn mouse_mod_of(wparam: usize) -> MouseEventMod {
    if wparam == 0x0008 {
        MouseEventMod::Control
    } else if wparam == 0x0001 {
        MouseEventMod::LeftButton
    } else if wparam == 0x0010 {
        MouseEventMod::MiddleButton
    } else if wparam == 0x0002 {
        MouseEventMod::RightButton
    } else if wparam == 0x0004 {
        MouseEventMod::Shift
    } else if wparam == 0x0020 {
        MouseEventMod::XButton1
    } else if wparam == 0x0040 {
        MouseEventMod::XButton2
    } else if wparam == 0x0000 {
        MouseEventMod::NoModifier
    } else {
        MouseEventMod::Unknown
    }
}

/// The mouse event a raw message decodes to: the kind from the
/// identifier, the position from the low and high words of the second
/// parameter, the modifier from the first.
pub open spec fn mouse_event_spec(e: Event) -> MouseEvent {
    MouseEvent {
        event_type: mouse_type_of(e.message),
        point: (lo_word(e.lparam), hi_word(e.lparam)),
        opt: mouse_mod_of(e.wparam),
    }
}

impl MouseEvent {
    /// Decode a mouse message, exactly as [`mouse_event_spec`] describes
    /// it.
    pub fn new(event: &Event) -> (r: MouseEvent)
        ensures
            r == mouse_event_spec(*event),
    {
        MouseEvent {
            event_type: match event.message {
                WM_MOUSEMOVE => MouseEventType::Move,
                WM_LBUTTONDOWN => MouseEventType::LeftButtonDown,
                WM_LBUTTONUP => MouseEventType::LeftButtonUp,
                WM_LBUTTONDBLCLK => MouseEventType::LeftButtonDoubleClick,
                WM_RBUTTONDOWN => MouseEventType::RightButtonDown,
                WM_RBUTTONUP => MouseEventType::RightButtonUp,
                WM_RBUTTONDBLCLK => MouseEventType::RightButtonDoubleClick,
                WM_MBUTTONDOWN => MouseEventType::MiddleButtonDown,
                WM_MBUTTONUP => MouseEventType::MiddleButtonUp,
                WM_MBUTTONDBLCLK => MouseEventType::MiddleButtonDoubleClick,
                _ => MouseEventType::Unknown,
            },
            point: (lword(event.lparam), hword(event.lparam)),
            opt: match event.wparam {
                0x0008 => MouseEventMod::Control,
                0x0001 => MouseEventMod::LeftButton,
                0x0010 => MouseEventMod::MiddleButton,
                0x0002 => MouseEventMod::RightButton,
                0x0004 => MouseEventMod::Shift,
                0x0020 => MouseEventMod::XButton1,
                0x0040 => MouseEventMod::XButton2,
                0x0000 => MouseEventMod::NoModifier,
                _ => MouseEventMod::Unknown,
            },
        }
    }
}

} // verus!
