//! Typed refinement of keyboard messages: the event kind from the message
//! identifier and the virtual key from the first parameter.

use vstd::prelude::*;

use crate::msg::{WM_CHAR, WM_DEADCHAR, WM_KEYDOWN, WM_KEYUP};
use crate::Event;

verus! {

#[derive(PartialEq, Eq, Structural, Debug, Clone, Copy)]
pub enum KeyboardEventType {
    Keydown,
    Keyup,
    Char,
    Deadchar,
    Unknown,
}

/// A keyboard message decoded into its virtual key and kind.
#[derive(Debug)]
pub struct KbdEvent {
    pub virtual_key: u16,
    pub event_type: KeyboardEventType,
}

/// The keyboard-event kind selected by a message identifier.
pub open spec fn kbd_type_of(message: u32) -> KeyboardEventType {
    if message == WM_KEYDOWN {
        KeyboardEventType::Keydown
    } else if message == WM_KEYUP {
        KeyboardEventType::Keyup
    } else if message == WM_CHAR {
        KeyboardEventType::Char
    } else if message == WM_DEADCHAR {
        KeyboardEventType::Deadchar
    } else {
        KeyboardEventType::Unknown
    }
}

/// The keyboard event a raw message decodes to: the virtual key is the
/// low 16 bits of the first parameter, the kind follows the identifier.
pub open spec fn kbd_event_spec(e: Event) -> KbdEvent {
    KbdEvent { virtual_key: e.wparam as u16, event_type: kbd_type_of(e.message) }
}

impl KbdEvent {
    /// Decode a keyboard message, exactly as [`kbd_event_spec`] describes
    /// it.
    pub fn new(event: &Event) -> (r: KbdEvent)
        ensures
            r == kbd_event_spec(*event),
    {
        KbdEvent {
            virtual_key: event.wparam as u16,
            event_type: match event.message {
                WM_KEYDOWN => KeyboardEventType::Keydown,
                WM_KEYUP => KeyboardEventType::Keyup,
                WM_CHAR => KeyboardEventType::Char,
                WM_DEADCHAR => KeyboardEventType::Deadchar,
                _ => KeyboardEventType::Unknown,
            },
        }
    }
}

} // verus!
