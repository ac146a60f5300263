//! A thin, verified model of an object-oriented windowing layer.
//!
//! The operating system's window manager, message queue and graphics device
//! are outside collaborators: every call into them lives in the surrounding
//! application crate.  What this library holds, and what is verified, is the
//! logic between those calls: packed-parameter decoding, typed event
//! refinement, the guard-checked dispatch routine, deferred child
//! materialization, and the message loop's polling/blocking discipline.
//!
//! Windows are configured through plain [`win_create_args::WinCreateArgs`]
//! values; the crate offers no macro front end for building them.

use vstd::prelude::*;
use vstd::string::StrSliceExecFns;

pub mod app;
pub mod components;
pub mod kbd;
pub mod module;
pub mod mouse;
pub mod msg;
pub mod mutation_writer;
pub mod win;
pub mod win_create_args;

verus! {

/// Guard value that a live window's base record must carry for dispatch to
/// trust it; any other value marks the receiver as stale or corrupt.
pub const CANARY: i32 = 99;

/// Parameters understood by the close-request helper: the one message a
/// default command handler sends back to its own window.
pub enum SendMessageParams {
    Close,
}

/// Whether an event handler handled the event; `Handled` carries the result
/// code the window procedure must return.
#[derive(PartialEq, Eq, Structural, Debug, Clone, Copy)]
pub enum EventHandled {
    Handled(isize),
    NotHandled,
}

/// An `Event` is the abstraction passed in place of the raw window-procedure
/// arguments: the window handle, the message identifier and the two packed
/// machine-word parameters.
#[derive(Clone, Copy, Debug)]
pub struct Event {
    pub hwnd: usize,
    pub message: u32,
    pub wparam: usize,
    pub lparam: isize,
}

/// Where a command notification came from.
#[derive(PartialEq, Eq, Structural, Debug, Clone, Copy)]
pub enum SourceType {
    Menu,
    Accelerator,
    Control,
}

/// A command notification decoded from its packed parameters.
#[derive(PartialEq, Debug)]
pub struct CommandEvent {
    pub command: i32,
    pub source_type: SourceType,
    pub control_hwnd: Option<usize>,
}

/// The source encoded in a command notification's first parameter: high word
/// 0 is a menu, 1 an accelerator, anything else a control.
pub open spec fn command_source(wparam: usize) -> SourceType {
    if hi_word(wparam as isize) == 0 {
        SourceType::Menu
    } else if hi_word(wparam as isize) == 1 {
        SourceType::Accelerator
    } else {
        SourceType::Control
    }
}

/// The command notification a raw event decodes to: the command identifier
/// is the low word of the first parameter, the source its high word, and
/// the control handle is populated exactly when the source is a control.
pub open spec fn command_event_spec(e: Event) -> CommandEvent {
    CommandEvent {
        command: lo_word(e.wparam as isize),
        source_type: command_source(e.wparam),
        control_hwnd: if command_source(e.wparam) is Control {
            Some(e.lparam as usize)
        } else {
            None
        },
    }
}

impl CommandEvent {
    /// Decode a command notification, exactly as [`command_event_spec`]
    /// describes it.
    pub fn new(event: &Event) -> (r: CommandEvent)
        ensures
            r == command_event_spec(*event),
    {
        let source_type: SourceType = match hword(event.wparam as isize) {
            0 => SourceType::Menu,
            1 => SourceType::Accelerator,
            _ => SourceType::Control,
        };
        CommandEvent {
            command: lword(event.wparam as isize),
            control_hwnd: if source_type == SourceType::Control {
                Some(event.lparam as usize)
            } else {
                None
            },
            source_type,
        }
    }
}

/// The cached text metrics a window keeps from its creation-time device
/// context: the fields the drawing code reads, as plain values.
#[derive(PartialEq, Eq, Structural, Debug, Clone, Copy)]
pub struct TextMetrics {
    pub height: i32,
    pub ave_char_width: i32,
    pub external_leading: i32,
}

impl Default for TextMetrics {
    /// All-zero metrics, the state before any device context was queried.
    fn default() -> (r: Self)
        ensures
            r == (TextMetrics { height: 0, ave_char_width: 0, external_leading: 0 }),
    {
        TextMetrics { height: 0, ave_char_width: 0, external_leading: 0 }
    }
}

/// The state every window carries: its native handle (0 while none exists),
/// the liveness guard, the cached text metrics, and the last-known client
/// size.
#[derive(PartialEq, Eq, Structural, Debug, Clone, Copy)]
pub struct BaseWin {
    pub hwnd: usize,
    pub canary: i32,
    pub tm: TextMetrics,
    pub x: i32,
    pub y: i32,
}

impl BaseWin {
    /// The fresh base record: no handle yet, guard set to the live
    /// sentinel, metrics and size zeroed.
    pub open spec fn default_spec() -> BaseWin {
        BaseWin {
            hwnd: 0,
            canary: CANARY,
            tm: TextMetrics { height: 0, ave_char_width: 0, external_leading: 0 },
            x: 0,
            y: 0,
        }
    }
}

impl Default for BaseWin {
    /// A fresh base: no handle yet, guard set to the live sentinel, metrics
    /// and size zeroed.
    fn default() -> (r: Self)
        ensures
            r == BaseWin::default_spec(),
    {
        BaseWin {
            hwnd: 0,
            canary: CANARY,
            tm: TextMetrics { height: 0, ave_char_width: 0, external_leading: 0 },
            x: 0,
            y: 0,
        }
    }
}

impl BaseWin {
    /// On the creation notification the base caches the text metrics read
    /// from a temporary device context; nothing else changes.
    pub fn on_create(&mut self, tm: TextMetrics)
        ensures
            *final(self) == (BaseWin { tm, ..*old(self) }),
    {
        self.tm = tm;
    }

    /// On a size change the base caches the new client width and height and
    /// reports the event handled.
    pub fn on_resize(&mut self, x: i32, y: i32) -> (r: EventHandled)
        ensures
            *final(self) == (BaseWin { x, y, ..*old(self) }),
            r == EventHandled::Handled(0isize),
    {
        self.x = x;
        self.y = y;
        EventHandled::Handled(0)
    }
}

/// Low 16 bits of a packed parameter word, as a non-negative `i32`.
pub open spec fn lo_word(val: isize) -> i32 {
    (val & 0xffff) as i32
}

/// Bits 16..=31 of a packed parameter word, as a non-negative `i32`.
pub open spec fn hi_word(val: isize) -> i32 {
    ((val >> 16) & 0xffff) as i32
}

/// The packed word that carries `low` in its low 16 bits and `high` in bits
/// 16..=31.
pub open spec fn pack_words(low: i32, high: i32) -> isize {
    ((high as isize) << 16) | (low as isize)
}

/// Get the low word from a packed parameter word.
pub fn lword(val: isize) -> (r: i32)
    ensures
        r == lo_word(val),
{
    (val & 0xffff) as i32
}

/// Get the high word from a packed parameter word.
pub fn hword(val: isize) -> (r: i32)
    ensures
        r == hi_word(val),
{
    ((val >> 16) & 0xffff) as i32
}

/// Whether an icon name names an integer resource ordinal: such a name
/// has a zero high word and is served by the system rather than by the
/// owning module.
pub fn icon_name_is_ordinal(name_ptr: usize) -> (b: bool)
    ensures
        b == (hi_word(name_ptr as isize) == 0),
{
    hword(name_ptr as isize) == 0
}

/// The icon handle to use once loading has been attempted: the loaded
/// handle on success, the null icon handle when the load failed.
pub fn icon_fallback(loaded: Option<usize>) -> (h: usize)
    ensures
        h == (match loaded {
            Some(v) => v,
            None => 0usize,
        }),
{
    match loaded {
        Some(v) => v,
        None => 0,
    }
}

/// Both extracted words fit in 16 bits.
pub proof fn lemma_word_bounds(val: isize)
    ensures
        0 <= lo_word(val) < 0x10000,
        0 <= hi_word(val) < 0x10000,
{
    assert(0 <= (val & 0xffff) < 0x10000) by (bit_vector);
    assert(0 <= ((val >> 16) & 0xffff) < 0x10000) by (bit_vector);
}

/// The UTF-16 code units that encode one character: the character itself
/// for the basic plane, a surrogate pair above it.
pub open spec fn utf16_units(c: char) -> Seq<u16> {
    if (c as u32) < 0x10000 {
        seq![(c as u32) as u16]
    } else {
        seq![
            (0xD800 + (((c as u32) - 0x10000) / 0x400)) as u16,
            (0xDC00 + (((c as u32) - 0x10000) % 0x400)) as u16,
        ]
    }
}

/// The UTF-16 encoding of a character sequence.
pub open spec fn utf16_encode(s: Seq<char>) -> Seq<u16>
    decreases s.len(),
{
    if s.len() == 0 {
        Seq::empty()
    } else {
        utf16_units(s[0]) + utf16_encode(s.drop_first())
    }
}

proof fn lemma_utf16_encode_push(s: Seq<char>, c: char)
    ensures
        utf16_encode(s.push(c)) == utf16_encode(s) + utf16_units(c),
    decreases s.len(),
{
    if s.len() == 0 {
        assert(s.push(c)[0] == c);
        assert(s.push(c).drop_first() =~= Seq::<char>::empty());
        assert(utf16_encode(s) + utf16_units(c) =~= utf16_units(c));
        assert(utf16_units(c) + utf16_encode(Seq::<char>::empty()) =~= utf16_units(c));
    } else {
        assert(s.push(c)[0] == s[0]);
        assert(s.push(c).drop_first() =~= s.drop_first().push(c));
        lemma_utf16_encode_push(s.drop_first(), c);
        assert((utf16_units(s[0]) + (utf16_encode(s.drop_first()) + utf16_units(c))) =~= ((
        utf16_units(s[0]) + utf16_encode(s.drop_first())) + utf16_units(c)));
    }
}

/// The null-terminated UTF-16 form of a string, as the text-drawing calls
/// want it.
pub fn get_utf16_vec(text: &str) -> (r: Vec<u16>)
    ensures
        r@ == utf16_encode(text@).push(0u16),
{
    let len: usize = text.unicode_len();
    let mut out: Vec<u16> = Vec::new();
    let mut i: usize = 0;
    while i < len
        invariant
            i <= len,
            len == text@.len(),
            out@ == utf16_encode(text@.subrange(0, i as int)),
        decreases len - i,
    {
        let c = text.get_char(i);
        let cv = c as u32;
        proof {
            lemma_utf16_encode_push(text@.subrange(0, i as int), c);
            assert(text@.subrange(0, i + 1) =~= text@.subrange(0, i as int).push(text@[i as int]));
        }
        if cv < 0x10000 {
            out.push(cv as u16);
            proof {
                assert(out@ =~= utf16_encode(text@.subrange(0, i as int)) + utf16_units(c));
            }
        } else {
            let off = cv - 0x10000;
            proof {
                assert(off >> 10 == off / 1024 && off >> 10 <= 0x3FFFFF) by (bit_vector);
                assert(off & 0x3FF == off % 1024 && off & 0x3FF <= 0x3FF) by (bit_vector);
            }
            let high: u16 = (0xD800 + (off >> 10)) as u16;
            let low: u16 = (0xDC00 + (off & 0x3FF)) as u16;
            out.push(high);
            out.push(low);
            proof {
                assert(out@ =~= utf16_encode(text@.subrange(0, i as int)) + utf16_units(c));
            }
        }
        i = i + 1;
    }
    proof {
        assert(text@.subrange(0, len as int) =~= text@);
    }
    out.push(0);
    out
}

/// Splitting a packed two-word parameter into its low and high words and
/// packing them again reproduces the parameter, for every value that fits in
/// the two words.
pub proof fn lemma_word_round_trip(val: isize)
    requires
        0 <= val < 0x1_0000_0000,
    ensures
        pack_words(lo_word(val), hi_word(val)) == val,
{
    assert(((((val >> 16) & 0xffff) as i32 as isize) << 16) | ((val & 0xffff) as i32 as isize)
        == val) by (bit_vector)
        requires
            0 <= val < 0x1_0000_0000,
    ;
}

} // verus!
