//! The message identifiers the dispatch routine recognises, and their
//! classification into the lifecycle callbacks they select.  The numeric
//! values are the windowing subsystem's ABI.

use vstd::prelude::*;

verus! {

pub const WM_CREATE: u32 = 0x0001;

pub const WM_DESTROY: u32 = 0x0002;

pub const WM_SIZE: u32 = 0x0005;

pub const WM_PAINT: u32 = 0x000F;

pub const WM_CLOSE: u32 = 0x0010;

pub const WM_QUIT: u32 = 0x0012;

pub const WM_NCCREATE: u32 = 0x0081;

pub const WM_NCDESTROY: u32 = 0x0082;

pub const WM_KEYDOWN: u32 = 0x0100;

pub const WM_KEYUP: u32 = 0x0101;

pub const WM_CHAR: u32 = 0x0102;

pub const WM_DEADCHAR: u32 = 0x0103;

pub const WM_COMMAND: u32 = 0x0111;

pub const WM_MOUSEMOVE: u32 = 0x0200;

pub const WM_LBUTTONDOWN: u32 = 0x0201;

pub const WM_LBUTTONUP: u32 = 0x0202;

pub const WM_LBUTTONDBLCLK: u32 = 0x0203;

pub const WM_RBUTTONDOWN: u32 = 0x0204;

pub const WM_RBUTTONUP: u32 = 0x0205;

pub const WM_RBUTTONDBLCLK: u32 = 0x0206;

pub const WM_MBUTTONDOWN: u32 = 0x0207;

pub const WM_MBUTTONUP: u32 = 0x0208;

pub const WM_MBUTTONDBLCLK: u32 = 0x0209;

/// Which lifecycle callback a message identifier selects.  `Other` covers
/// every identifier the dispatch routine does not handle itself; those fall
/// through to the platform's default handling.
#[derive(PartialEq, Eq, Structural, Debug, Clone, Copy)]
pub enum MessageClass {
    Create,
    Paint,
    Size,
    Destroy,
    NcDestroy,
    Command,
    Mouse,
    Kbd,
    Other,
}

/// The dispatch routine's mapping from message identifier to callback.
pub open spec fn class_of(message: u32) -> MessageClass {
    if message == WM_CREATE {
        MessageClass::Create
    } else if message == WM_PAINT {
        MessageClass::Paint
    } else if message == WM_SIZE {
        MessageClass::Size
    } else if message == WM_DESTROY {
        MessageClass::Destroy
    } else if message == WM_NCDESTROY {
        MessageClass::NcDestroy
    } else if message == WM_COMMAND {
        MessageClass::Command
    } else if message == WM_MOUSEMOVE || message == WM_LBUTTONDOWN || message == WM_LBUTTONUP
        || message == WM_LBUTTONDBLCLK || message == WM_RBUTTONDOWN || message == WM_RBUTTONUP
        || message == WM_RBUTTONDBLCLK || message == WM_MBUTTONDBLCLK || message == WM_MBUTTONDOWN
        || message == WM_MBUTTONUP {
        MessageClass::Mouse
    } else if message == WM_KEYDOWN || message == WM_KEYUP || message == WM_CHAR
        || message == WM_DEADCHAR {
        MessageClass::Kbd
    } else {
        MessageClass::Other
    }
}

/// Classify a message identifier exactly as the dispatch routine does.
pub fn classify(message: u32) -> (c: MessageClass)
    ensures
        c == class_of(message),
{
    match message {
        WM_CREATE => MessageClass::Create,
        WM_PAINT => MessageClass::Paint,
        WM_SIZE => MessageClass::Size,
        WM_DESTROY => MessageClass::Destroy,
        WM_NCDESTROY => MessageClass::NcDestroy,
        WM_COMMAND => MessageClass::Command,
        WM_MOUSEMOVE | WM_LBUTTONDOWN | WM_LBUTTONUP | WM_LBUTTONDBLCLK | WM_RBUTTONDOWN
        | WM_RBUTTONUP | WM_RBUTTONDBLCLK | WM_MBUTTONDBLCLK | WM_MBUTTONDOWN | WM_MBUTTONUP => {
            MessageClass::Mouse
        },
        WM_KEYDOWN | WM_KEYUP | WM_CHAR | WM_DEADCHAR => MessageClass::Kbd,
        _ => MessageClass::Other,
    }
}

} // verus!
