//! The one nesting container: a `Div`, a child window that can in turn
//! hold a single component.  Registering its window class and creating
//! its window are platform calls made by the surrounding application; the
//! container's own state — base record, child slot, handles — lives here,
//! and a stored child materializes under the container exactly as a
//! window's child does: deferred until the container's creation hook
//! fires, immediately when attached after.

use vstd::prelude::*;

use crate::kbd::KbdEvent;
use crate::mouse::MouseEvent;
use crate::win::{hook_not_handled, Component, HookAction, HookResult, Rect, Win};
use crate::{BaseWin, CommandEvent, Event, EventHandled};

verus! {

/// A container control.  `hwnd` is the handle of the container's own
/// window once the platform has created it; the base record's handle is
/// assigned by the recovery path of its window procedure, as for any
/// window.
#[derive(Debug)]
pub struct Div {
    pub base: BaseWin,
    pub inst: usize,
    pub child: Option<Component>,
    pub created: bool,
    pub hwnd: usize,
}

impl Div {
    /// A fresh container for the given module: default base, no child, no
    /// window yet.  The platform-side work of registering the container's
    /// window class happens outside, when the container is realized.
    pub fn new(inst: usize) -> (r: Div)
        ensures
            r.base == BaseWin::default_spec(),
            r.inst == inst,
            r.child is None,
            !r.created,
            r.hwnd == 0,
    {
        Div { base: BaseWin::default(), inst, child: None, created: false, hwnd: 0 }
    }

    /// Whether the stored child still awaits its own window: only once
    /// the container was created, and only for a child that needs one.
    pub open spec fn child_awaiting_creation(&self) -> bool {
        &&& self.created
        &&& match self.child {
            Some(c) => c.needs_creation_spec(),
            None => false,
        }
    }

    pub fn child_needs_creation(&self) -> (b: bool)
        ensures
            b == self.child_awaiting_creation(),
    {
        if !self.created {
            return false;
        }
        match &self.child {
            Some(c) => c.needs_creation(),
            None => false,
        }
    }

    /// The handle of the stored child's window, 0 while none exists.
    pub fn child_handle(&self) -> (h: usize)
        ensures
            h == (match self.child {
                Some(c) => c.handle_spec(),
                None => 0usize,
            }),
    {
        match &self.child {
            Some(c) => c.handle(),
            None => 0,
        }
    }

    /// Attach a component to the container's child slot; the result says
    /// whether it must be materialized right away, which is the case
    /// exactly when the container's window was already created.
    pub fn set_child(&mut self, child: Component) -> (create_now: bool)
        ensures
            *final(self) == (Div { child: Some(child), ..*old(self) }),
            create_now == old(self).created,
    {
        let create_now = self.created;
        self.child = Some(child);
        create_now
    }

    /// Store a child, reporting whether it must be materialized right
    /// away — immediately when the container was already created,
    /// deferred until its creation hook fires otherwise.
    pub fn add_child(&mut self, child: Component) -> (create_now: bool)
        ensures
            *final(self) == (Div { child: Some(child), ..*old(self) }),
            create_now == old(self).created,
    {
        self.set_child(child)
    }

    /// Record the handle the platform issued for the container's window.
    pub fn create_container(&mut self, hwnd: usize)
        requires
            hwnd != 0,
        ensures
            *final(self) == (Div { hwnd, ..*old(self) }),
    {
        self.hwnd = hwnd;
    }

    /// Record the handle the platform issued for the awaited child
    /// window.
    pub fn child_created(&mut self, hwnd: usize)
        requires
            old(self).child_awaiting_creation(),
            hwnd != 0,
        ensures
            final(self).child matches Some(stored) && stored.handle_spec() == hwnd,
            final(self).base == old(self).base,
            final(self).inst == old(self).inst,
            final(self).created == old(self).created,
            final(self).hwnd == old(self).hwnd,
            !final(self).child_awaiting_creation(),
    {
        match &mut self.child {
            Some(c) => c.create_element(hwnd),
            None => {},
        }
    }
}

impl Win for Div {
    open spec fn base_of(&self) -> BaseWin {
        self.base
    }

    open spec fn create_hook(_b: BaseWin, _event: Event) -> HookResult {
        hook_not_handled()
    }

    open spec fn paint_hook(&self, _rect: Rect) -> HookResult {
        hook_not_handled()
    }

    /// A container suppresses the destroy default: it neither posts the
    /// quit signal nor counts the notification as handled; only the
    /// top-level window ends the application.
    open spec fn destroy_hook(&self, _event: Event) -> HookResult {
        hook_not_handled()
    }

    open spec fn resize_hook(_b: BaseWin, _x: i32, _y: i32) -> HookResult {
        hook_not_handled()
    }

    /// A container handles command 100 itself, asking for no side effect,
    /// and leaves every other command unhandled.
    open spec fn command_hook(&self, event: CommandEvent) -> HookResult {
        if event.command == 100 {
            HookResult { handled: EventHandled::Handled(0), action: HookAction::Nothing }
        } else {
            hook_not_handled()
        }
    }

    open spec fn mouse_hook(&self, _event: MouseEvent) -> HookResult {
        hook_not_handled()
    }

    open spec fn kbd_hook(&self, _event: KbdEvent) -> HookResult {
        hook_not_handled()
    }

    open spec fn ncdestroy_hook(&self, _event: Event) -> HookResult {
        hook_not_handled()
    }

    fn base(&self) -> (b: &BaseWin) {
        &self.base
    }

    fn base_mut(&mut self) -> (b: &mut BaseWin) {
        &mut self.base
    }

    /// The creation hook marks the container created; a child attached
    /// beforehand is due for materialization from this point on.  The
    /// notification itself is left unhandled.
    fn on_create(&mut self, _event: &Event) -> (r: HookResult)
        ensures
            *final(self) == (Div { created: true, ..*old(self) }),
    {
        self.created = true;
        HookResult::not_handled()
    }

    fn on_paint(&self, _rect: &Rect) -> (r: HookResult) {
        HookResult::not_handled()
    }

    fn on_destroy(&self, _event: &Event) -> (r: HookResult) {
        HookResult::not_handled()
    }

    fn on_resize(&mut self, _x: i32, _y: i32) -> (r: HookResult) {
        HookResult::not_handled()
    }

    fn on_command(&self, event: &CommandEvent) -> (r: HookResult) {
        match event.command {
            100 => HookResult::handled(0),
            _ => HookResult::not_handled(),
        }
    }

    fn on_mouse(&mut self, _event: MouseEvent) -> (r: HookResult) {
        HookResult::not_handled()
    }

    fn on_kbd(&mut self, _event: KbdEvent) -> (r: HookResult) {
        HookResult::not_handled()
    }

    fn on_ncdestroy(&self, _event: &Event) -> (r: HookResult) {
        HookResult::not_handled()
    }
}

} // verus!
