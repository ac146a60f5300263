//! The window capability interface and its guard-checked dispatch routine.
//!
//! A window procedure receives only the raw handle, message identifier and
//! two packed parameters.  The surrounding application recovers the typed
//! receiver (see [`recover_receiver`]), queries whatever the current message
//! needs from the platform — text metrics on creation, the client rectangle
//! on paint — and then calls [`Win::dispatch_event`], which runs the
//! receiver's lifecycle callbacks and says, as a plain value, what must
//! happen next: return a result code, forward to the platform's default
//! handler, clear the stored user data, post a quit message or send a close
//! request.  All of that decision logic is verified; the calls themselves
//! stay outside the library.

use vstd::prelude::*;

use crate::kbd::KbdEvent;
use crate::mouse::MouseEvent;
use crate::msg::{classify, class_of, MessageClass, WM_CLOSE, WM_NCCREATE, WM_NCDESTROY};
use crate::{
    hi_word, hword, lo_word, lword, BaseWin, CommandEvent, Event, EventHandled,
    SendMessageParams, TextMetrics, CANARY,
};

verus! {

/// A side effect a lifecycle callback asks the message loop to perform:
/// nothing, posting the quit message, or sending a close request to the
/// window itself.
#[derive(PartialEq, Eq, Structural, Debug, Clone, Copy)]
pub enum HookAction {
    Nothing,
    PostQuit,
    SendClose,
}

/// What a lifecycle callback produced: whether it handled the event, and
/// the side effect it asks for.
#[derive(PartialEq, Eq, Structural, Debug, Clone, Copy)]
pub struct HookResult {
    pub handled: EventHandled,
    pub action: HookAction,
}

/// The verdict of a callback that did not handle the event and asks for
/// nothing — also what dispatch reports when no callback ran at all.
pub open spec fn hook_not_handled() -> HookResult {
    HookResult { handled: EventHandled::NotHandled, action: HookAction::Nothing }
}

impl HookResult {
    /// The hook did not handle the event and asks for nothing.
    pub fn not_handled() -> (r: HookResult)
        ensures
            r == hook_not_handled(),
    {
        HookResult { handled: EventHandled::NotHandled, action: HookAction::Nothing }
    }

    /// The hook handled the event with the given result code and asks for
    /// nothing.
    pub fn handled(code: isize) -> (r: HookResult)
        ensures
            r.handled == EventHandled::Handled(code),
            r.action is Nothing,
    {
        HookResult { handled: EventHandled::Handled(code), action: HookAction::Nothing }
    }
}

/// The result code the window procedure returns for a receiver that
/// failed the guard check.
pub const GUARD_FAILURE_CODE: isize = 1;

/// How the window procedure must answer the current message.
#[derive(PartialEq, Eq, Structural, Debug, Clone, Copy)]
pub enum DispatchResult {
    /// The receiver failed the guard check: return the failure result code
    /// [`GUARD_FAILURE_CODE`] without running any callback.
    GuardFailure,
    /// Forward the raw message, with its original parameters, to the
    /// platform's default handler.
    ForwardDefault,
    /// Return this result code directly.
    Return(isize),
}

/// Everything the dispatch routine decided about one message.
#[derive(PartialEq, Eq, Structural, Debug, Clone, Copy)]
pub struct DispatchOutcome {
    pub result: DispatchResult,
    /// The stored user-data slot must be cleared before the message is
    /// forwarded (final-destroy cleanup).
    pub clear_user_data: bool,
    /// What the invoked callback returned: its handled status, which
    /// `result` follows on every message but the final-destroy
    /// notification, and the side effect it asked for.  When no callback
    /// ran — guard failure, a failed client-rectangle query, an
    /// unrecognised message — this is the not-handled result with no
    /// side effect.
    pub hook: HookResult,
}

/// A client rectangle, as the platform reports it.
#[derive(PartialEq, Eq, Structural, Debug, Clone, Copy)]
pub struct Rect {
    pub left: i32,
    pub top: i32,
    pub right: i32,
    pub bottom: i32,
}

/// The platform-supplied values dispatch needs: the text metrics of a
/// fresh device context (read on creation) and the client rectangle
/// (queried on paint; `None` when the query failed).
#[derive(Debug, Clone, Copy)]
pub struct DispatchInputs {
    pub text_metrics: TextMetrics,
    pub client_rect: Option<Rect>,
}

/// The message, first parameter and second parameter of the close request
/// that the given send-message parameter stands for.
pub fn send_message_params(params: &SendMessageParams) -> (r: (u32, usize, isize))
    ensures
        r == (WM_CLOSE, 0usize, 0isize),
{
    match params {
        SendMessageParams::Close => (WM_CLOSE, 0, 0),
    }
}

/// What the static callback must do before it can dispatch: whether to
/// store a value into the window's user-data slot, and whether a usable
/// receiver was recovered at all.
#[derive(PartialEq, Debug, Clone, Copy)]
pub struct Recovery {
    /// `Some(v)`: store `v` in the user-data slot (first construction
    /// message carries the receiver in its creation parameters).
    pub store_user_data: Option<usize>,
    /// A non-null receiver is at hand: assign the handle on first
    /// construction, then dispatch.  Otherwise forward to the default
    /// handler unmodified.
    pub proceed: bool,
}

/// Recover the typed receiver for a window-procedure call.  On the first
/// construction message the receiver arrives in the creation parameters
/// and its integer representation must be stored in the user-data slot; on
/// every other message it is read back from that slot.  A null handle or a
/// null receiver degrades to default platform handling.
pub fn recover_receiver(hwnd: usize, message: u32, create_param: usize, user_data: usize) -> (r:
    Recovery)
    ensures
        hwnd == 0 ==> r.store_user_data is None && !r.proceed,
        hwnd != 0 && message == WM_NCCREATE ==> r.store_user_data == Some(create_param)
            && r.proceed == (create_param != 0),
        hwnd != 0 && message != WM_NCCREATE ==> r.store_user_data is None && r.proceed == (
        user_data != 0),
{
    if hwnd == 0 {
        Recovery { store_user_data: None, proceed: false }
    } else if message == WM_NCCREATE {
        Recovery { store_user_data: Some(create_param), proceed: create_param != 0 }
    } else {
        Recovery { store_user_data: None, proceed: user_data != 0 }
    }
}

/// The capability interface a window or control implements: access to the
/// base record, the lifecycle callbacks, and the default dispatch routine
/// that maps message identifiers to those callbacks.
///
/// The callbacks carry no default bodies: each implementing type declares
/// what its callbacks do, as a spec view per callback, and the dispatch
/// routine's contract ties its outcome to the view of the callback the
/// message selects.  The creation and resize views see the base record as
/// the callback sees it — after dispatch has cached the metrics or the
/// decoded extent.
pub trait Win: Sized {
    /// View of the window's base record.
    spec fn base_of(&self) -> BaseWin;

    /// The creation callback's verdict, given the base record it sees.
    spec fn create_hook(b: BaseWin, event: Event) -> HookResult;

    /// The paint callback's verdict for a client rectangle.
    spec fn paint_hook(&self, rect: Rect) -> HookResult;

    /// The destroy callback's verdict.
    spec fn destroy_hook(&self, event: Event) -> HookResult;

    /// The resize callback's verdict, given the base record it sees.
    spec fn resize_hook(b: BaseWin, x: i32, y: i32) -> HookResult;

    /// The command callback's verdict for a decoded command notification.
    spec fn command_hook(&self, event: CommandEvent) -> HookResult;

    /// The mouse callback's verdict for a decoded mouse event.
    spec fn mouse_hook(&self, event: MouseEvent) -> HookResult;

    /// The keyboard callback's verdict for a decoded keyboard event.
    spec fn kbd_hook(&self, event: KbdEvent) -> HookResult;

    /// The final-destroy callback's verdict.
    spec fn ncdestroy_hook(&self, event: Event) -> HookResult;

    fn base(&self) -> (b: &BaseWin)
        ensures
            *b == self.base_of(),
    ;

    fn base_mut(&mut self) -> (b: &mut BaseWin)
        ensures
            *b == old(self).base_of(),
            final(self).base_of() == *final(b),
    ;

    fn get_hwnd(&self) -> (h: usize)
        ensures
            h == self.base_of().hwnd,
    {
        self.base().hwnd
    }

    fn set_hwnd(&mut self, hwnd: usize)
        ensures
            final(self).base_of() == (BaseWin { hwnd, ..old(self).base_of() }),
    {
        let b = self.base_mut();
        b.hwnd = hwnd;
    }

    fn get_canary(&self) -> (c: i32)
        ensures
            c == self.base_of().canary,
    {
        self.base().canary
    }

    /// Idle hook: report whether more idle work remains.
    fn do_idle(&mut self) -> (more: bool) {
        false
    }

    /// Creation hook.  The cached text metrics belong to the base record:
    /// dispatch stores them before this hook runs, and every
    /// implementation leaves them in place and answers as its creation
    /// view says.
    fn on_create(&mut self, event: &Event) -> (r: HookResult)
        ensures
            final(self).base_of().tm == old(self).base_of().tm,
            r == Self::create_hook(old(self).base_of(), *event),
    ;

    /// Paint hook.  It decides handledness from the client rectangle; the
    /// drawing itself happens beside the paint-scoped device context,
    /// which lives with the caller that acquired it.
    fn on_paint(&self, rect: &Rect) -> (r: HookResult)
        ensures
            r == self.paint_hook(*rect),
    ;

    /// Destroy hook.  The top-level window's implementation posts the
    /// quit signal; a control's may suppress that.
    fn on_destroy(&self, event: &Event) -> (r: HookResult)
        ensures
            r == self.destroy_hook(*event),
    ;

    /// Resize hook.  The cached extent belongs to the base record:
    /// dispatch records the decoded width and height before this hook
    /// runs, and every implementation leaves them in place and answers as
    /// its resize view says.
    fn on_resize(&mut self, x: i32, y: i32) -> (r: HookResult)
        ensures
            final(self).base_of().x == old(self).base_of().x,
            final(self).base_of().y == old(self).base_of().y,
            r == Self::resize_hook(old(self).base_of(), x, y),
    ;

    fn on_command(&self, event: &CommandEvent) -> (r: HookResult)
        ensures
            r == self.command_hook(*event),
    ;

    fn on_mouse(&mut self, event: MouseEvent) -> (r: HookResult)
        ensures
            r == old(self).mouse_hook(event),
    ;

    fn on_kbd(&mut self, event: KbdEvent) -> (r: HookResult)
        ensures
            r == old(self).kbd_hook(event),
    ;

    fn on_ncdestroy(&self, event: &Event) -> (r: HookResult)
        ensures
            r == self.ncdestroy_hook(*event),
    ;

    /// The dispatch routine: check the guard, decode the message, run the
    /// callback it selects, and perform the final-destroy cleanup.
    ///
    /// A receiver whose guard field is not the fixed sentinel makes
    /// dispatch short-circuit to the failure result without invoking any
    /// lifecycle callback or changing the receiver.  On every other
    /// message but the final-destroy notification, the answer follows the
    /// invoked callback's return, carried in the outcome: a handled event
    /// returns the callback's code, an unhandled one is forwarded to the
    /// default handler with the original parameters.  The final-destroy
    /// notification always clears the stored handle and asks for the
    /// user-data slot to be cleared, whatever any callback returned, and
    /// is always forwarded.  The creation notification caches the supplied
    /// text metrics and a size change the decoded extent, in the base
    /// record, where they then stay.  A failed client-rectangle query
    /// degrades a paint request to default handling, and a message the
    /// routine does not recognise falls through untouched.
    fn dispatch_event(&mut self, event: &Event, inputs: &DispatchInputs) -> (out: DispatchOutcome)
        ensures
            out.result is GuardFailure <==> old(self).base_of().canary != CANARY,
            old(self).base_of().canary != CANARY ==> *final(self) == *old(self)
                && !out.clear_user_data && out.hook == hook_not_handled(),
            out.clear_user_data <==> (old(self).base_of().canary == CANARY && event.message
                == WM_NCDESTROY),
            (old(self).base_of().canary == CANARY && event.message == WM_NCDESTROY)
                ==> final(self).base_of() == (BaseWin { hwnd: 0usize, ..old(self).base_of() })
                && out.result is ForwardDefault,
            (old(self).base_of().canary == CANARY && event.message != WM_NCDESTROY)
                ==> out.result == (match out.hook.handled {
                EventHandled::NotHandled => DispatchResult::ForwardDefault,
                EventHandled::Handled(code) => DispatchResult::Return(code),
            }),
            (old(self).base_of().canary == CANARY && class_of(event.message) is Create) ==> (
            final(self).base_of().tm == inputs.text_metrics && out.hook == Self::create_hook(
                (BaseWin { tm: inputs.text_metrics, ..old(self).base_of() }),
                *event,
            )),
            (old(self).base_of().canary == CANARY && class_of(event.message) is Size) ==> (
            final(self).base_of().x == lo_word(event.lparam) && final(self).base_of().y
                == hi_word(event.lparam) && out.hook == Self::resize_hook(
                (BaseWin {
                    x: lo_word(event.lparam),
                    y: hi_word(event.lparam),
                    ..old(self).base_of()
                }),
                lo_word(event.lparam),
                hi_word(event.lparam),
            )),
            (old(self).base_of().canary == CANARY && class_of(event.message) is Paint) ==> (
            inputs.client_rect matches Some(rect) ==> out.hook == old(self).paint_hook(rect)),
            (old(self).base_of().canary == CANARY && class_of(event.message) is Paint
                && inputs.client_rect is None) ==> (out.hook == hook_not_handled() && *final(self)
                == *old(self)),
            (old(self).base_of().canary == CANARY && class_of(event.message) is Destroy) ==> (
            out.hook == old(self).destroy_hook(*event) && *final(self) == *old(self)),
            (old(self).base_of().canary == CANARY && class_of(event.message) is NcDestroy)
                ==> out.hook == old(self).ncdestroy_hook(*event),
            (old(self).base_of().canary == CANARY && class_of(event.message) is Command) ==> (
            out.hook == old(self).command_hook(crate::command_event_spec(*event)) && *final(self)
                == *old(self)),
            (old(self).base_of().canary == CANARY && class_of(event.message) is Mouse)
                ==> out.hook == old(self).mouse_hook(crate::mouse::mouse_event_spec(*event)),
            (old(self).base_of().canary == CANARY && class_of(event.message) is Kbd)
                ==> out.hook == old(self).kbd_hook(crate::kbd::kbd_event_spec(*event)),
            (old(self).base_of().canary == CANARY && class_of(event.message) is Other) ==> (
            out.hook == hook_not_handled() && *final(self) == *old(self)),
    {
        if self.get_canary() != CANARY {
            return DispatchOutcome {
                result: DispatchResult::GuardFailure,
                clear_user_data: false,
                hook: HookResult { handled: EventHandled::NotHandled, action: HookAction::Nothing },
            };
        }
        let hook: HookResult = match classify(event.message) {
            MessageClass::Create => {
                let b = self.base_mut();
                b.on_create(inputs.text_metrics);
                self.on_create(event)
            },
            MessageClass::Paint => {
                match inputs.client_rect {
                    None => HookResult::not_handled(),
                    Some(rect) => self.on_paint(&rect),
                }
            },
            MessageClass::Size => {
                let x = lword(event.lparam);
                let y = hword(event.lparam);
                let b = self.base_mut();
                b.on_resize(x, y);
                self.on_resize(x, y)
            },
            MessageClass::Destroy => self.on_destroy(event),
            MessageClass::NcDestroy => self.on_ncdestroy(event),
            MessageClass::Command => {
                let command_event = CommandEvent::new(event);
                self.on_command(&command_event)
            },
            MessageClass::Mouse => self.on_mouse(MouseEvent::new(event)),
            MessageClass::Kbd => self.on_kbd(KbdEvent::new(event)),
            MessageClass::Other => HookResult::not_handled(),
        };
        if event.message == WM_NCDESTROY {
            self.set_hwnd(0);
            return DispatchOutcome {
                result: DispatchResult::ForwardDefault,
                clear_user_data: true,
                hook,
            };
        }
        match hook.handled {
            EventHandled::NotHandled => DispatchOutcome {
                result: DispatchResult::ForwardDefault,
                clear_user_data: false,
                hook,
            },
            EventHandled::Handled(code) => DispatchOutcome {
                result: DispatchResult::Return(code),
                clear_user_data: false,
                hook,
            },
        }
    }
}

/// A leaf control: a push button.  Its window is created by the platform;
/// until then the handle is 0.
#[derive(Debug)]
pub struct Button {
    pub id: i32,
    pub name: String,
    pub hwnd: usize,
    pub x: i32,
    pub y: i32,
    pub width: i32,
    pub height: i32,
}

impl Button {
    /// A fresh button with the given identifier and caption, not yet
    /// created, at the origin with a 10 by 10 extent.
    pub fn new(id: i32, name: String) -> (r: Button)
        ensures
            r.id == id,
            r.name == name,
            r.hwnd == 0,
            r.x == 0,
            r.y == 0,
            r.width == 10,
            r.height == 10,
    {
        Button { id, name, hwnd: 0, x: 0, y: 0, width: 10, height: 10 }
    }

    pub fn with_x(self, x: i32) -> (r: Button)
        ensures
            r == (Button { x, ..self }),
    {
        Button { x, ..self }
    }

    pub fn with_y(self, y: i32) -> (r: Button)
        ensures
            r == (Button { y, ..self }),
    {
        Button { y, ..self }
    }

    pub fn with_width(self, width: i32) -> (r: Button)
        ensures
            r == (Button { width, ..self }),
    {
        Button { width, ..self }
    }

    pub fn with_height(self, height: i32) -> (r: Button)
        ensures
            r == (Button { height, ..self }),
    {
        Button { height, ..self }
    }

    pub fn with_text(self, text: String) -> (r: Button)
        ensures
            r == (Button { name: text, ..self }),
    {
        Button { name: text, ..self }
    }

    /// Record the handle the platform issued for this button's window.
    pub fn create_element(&mut self, hwnd: usize)
        requires
            hwnd != 0,
        ensures
            *final(self) == (Button { hwnd, ..*old(self) }),
    {
        self.hwnd = hwnd;
    }
}

/// A component a window can own: a leaf control or a nesting container
/// holding at most one child of its own.
#[derive(Debug)]
pub enum Component {
    Element(Button),
    Container(Box<crate::components::Div>),
}

impl Component {
    /// Whether materializing this component still calls for a window of
    /// its own: it does, element or container alike, while it has none.
    pub open spec fn needs_creation_spec(&self) -> bool {
        match self {
            Component::Element(b) => b.hwnd == 0,
            Component::Container(d) => d.hwnd == 0,
        }
    }

    pub fn needs_creation(&self) -> (b: bool)
        ensures
            b == self.needs_creation_spec(),
    {
        match self {
            Component::Element(b) => b.hwnd == 0,
            Component::Container(d) => d.hwnd == 0,
        }
    }

    /// The handle of the component's window, 0 while none exists.
    pub open spec fn handle_spec(&self) -> usize {
        match self {
            Component::Element(b) => b.hwnd,
            Component::Container(d) => d.hwnd,
        }
    }

    pub fn handle(&self) -> (h: usize)
        ensures
            h == self.handle_spec(),
    {
        match self {
            Component::Element(b) => b.hwnd,
            Component::Container(d) => d.hwnd,
        }
    }

    /// Materialize the component against the handle the platform issued
    /// for its window: an element and a container alike record it.
    pub fn create_element(&mut self, hwnd: usize)
        requires
            hwnd != 0,
        ensures
            *old(self) matches Component::Element(b) ==> *final(self) == Component::Element(
                (Button { hwnd, ..b }),
            ),
            *old(self) matches Component::Container(d0) ==> (*final(self)
                matches Component::Container(d1) && *d1 == (crate::components::Div {
                hwnd,
                ..*d0
            })),
            final(self).handle_spec() == hwnd,
    {
        match self {
            Component::Element(b) => b.create_element(hwnd),
            Component::Container(d) => d.create_container(hwnd),
        }
    }
}

/// The top-level window: a base record, the owning module handle, an
/// exclusive child slot, and whether the native window exists yet.
#[derive(Debug)]
pub struct MainWindow {
    pub base: BaseWin,
    pub inst: usize,
    pub child: Option<Component>,
    pub created: bool,
}

/// The state of a window after a component was attached to its child slot.
pub open spec fn with_child(w: MainWindow, child: Component) -> MainWindow {
    MainWindow { child: Some(child), ..w }
}

/// The state of a window after its creation hook ran.
pub open spec fn after_create_hook(w: MainWindow) -> MainWindow {
    MainWindow { created: true, ..w }
}

impl MainWindow {
    /// A fresh window for the given module: default base, no child, not
    /// yet created.
    pub fn new(inst: usize) -> (r: MainWindow)
        ensures
            r.base == BaseWin::default_spec(),
            r.inst == inst,
            r.child is None,
            !r.created,
    {
        MainWindow { base: BaseWin::default(), inst, child: None, created: false }
    }

    /// Whether the stored child still awaits its own window: only once the
    /// owning window was created, and only for a child that needs one.
    pub open spec fn child_awaiting_creation(&self) -> bool {
        &&& self.created
        &&& match self.child {
            Some(c) => c.needs_creation_spec(),
            None => false,
        }
    }

    pub fn child_needs_creation(&self) -> (b: bool)
        ensures
            b == self.child_awaiting_creation(),
    {
        if !self.created {
            return false;
        }
        match &self.child {
            Some(c) => c.needs_creation(),
            None => false,
        }
    }

    /// The handle of the stored child's window, 0 while none exists.
    pub fn child_handle(&self) -> (h: usize)
        ensures
            h == (match self.child {
                Some(c) => c.handle_spec(),
                None => 0usize,
            }),
    {
        match &self.child {
            Some(c) => c.handle(),
            None => 0,
        }
    }

    /// Attach a component to the child slot.  The component is stored as
    /// handed in; the result says whether it must be materialized right
    /// away, which is the case exactly when the owning window was already
    /// created.  Before creation the child stays untouched until the
    /// creation hook fires.
    pub fn set_child(&mut self, child: Component) -> (create_now: bool)
        ensures
            *final(self) == with_child(*old(self), child),
            create_now == old(self).created,
    {
        let create_now = self.created;
        self.child = Some(child);
        create_now
    }

    /// The arguments this window is created with when the caller supplies
    /// none: the main-window defaults, owned by this window's module.
    pub fn create_window_args(&self) -> (args: crate::win_create_args::WinCreateArgs)
        ensures
            args.class_name@ == "mainwin"@,
            args.menu_name@ == "AppMenu"@,
            args.icon matches Some(icon) && icon@ == "AppIcon"@,
            args.ex_style == crate::win_create_args::WS_EX_APPWINDOW,
            args.style == crate::win_create_args::WS_OVERLAPPEDWINDOW,
            args.instance == self.inst,
            args.cursor == 0,
            args.window_height == crate::win_create_args::CW_USEDEFAULT,
            args.window_width == crate::win_create_args::CW_USEDEFAULT,
    {
        let mut args = crate::win_create_args::WinCreateArgs::default_win_main();
        args.instance = self.inst;
        args
    }

    /// Record the handle the platform issued for the awaited child
    /// window, element or container alike.
    pub fn child_created(&mut self, hwnd: usize)
        requires
            old(self).child_awaiting_creation(),
            hwnd != 0,
        ensures
            old(self).child matches Some(Component::Element(b0)) ==> *final(self) == (MainWindow {
                child: Some(Component::Element((Button { hwnd, ..b0 }))),
                ..*old(self)
            }),
            old(self).child matches Some(Component::Container(d0)) ==> (final(self).child
                matches Some(Component::Container(d1)) && *d1 == (crate::components::Div {
                hwnd,
                ..*d0
            }) && final(self).base == old(self).base && final(self).inst == old(self).inst
                && final(self).created == old(self).created),
            final(self).child matches Some(stored) && stored.handle_spec() == hwnd,
            !final(self).child_awaiting_creation(),
    {
        match &mut self.child {
            Some(c) => c.create_element(hwnd),
            None => {},
        }
    }
}

/// A child attached before the owning window is created is not
/// materialized, and no materialization is requested, until the creation
/// hook fires; from the moment the hook has run, the materialization is
/// due.
pub proof fn lemma_child_deferred_until_create(w: MainWindow, c: Component)
    requires
        !w.created,
        c.needs_creation_spec(),
    ensures
        !with_child(w, c).child_awaiting_creation(),
        with_child(w, c).child matches Some(stored) && stored.handle_spec() == 0,
        after_create_hook(with_child(w, c)).child_awaiting_creation(),
{
}

/// A child attached after the owning window was created is due for
/// materialization immediately.
pub proof fn lemma_child_attached_late_is_immediate(w: MainWindow, c: Component)
    requires
        w.created,
        c.needs_creation_spec(),
    ensures
        with_child(w, c).child_awaiting_creation(),
{
}

impl Win for MainWindow {
    open spec fn base_of(&self) -> BaseWin {
        self.base
    }

    /// The main window's creation callback handles the notification with
    /// result code 0 and asks for no side effect.
    open spec fn create_hook(_b: BaseWin, _event: Event) -> HookResult {
        HookResult { handled: EventHandled::Handled(0), action: HookAction::Nothing }
    }

    open spec fn paint_hook(&self, _rect: Rect) -> HookResult {
        hook_not_handled()
    }

    /// The main window's destroy callback posts the quit signal to the
    /// message loop, ending the application, and counts as handled.
    open spec fn destroy_hook(&self, _event: Event) -> HookResult {
        HookResult { handled: EventHandled::Handled(0), action: HookAction::PostQuit }
    }

    open spec fn resize_hook(_b: BaseWin, _x: i32, _y: i32) -> HookResult {
        hook_not_handled()
    }

    /// The main window's command callback: command 100 answers with a
    /// close request back to the window; every other command is left
    /// unhandled and falls through to default handling.
    open spec fn command_hook(&self, event: CommandEvent) -> HookResult {
        if event.command == 100 {
            HookResult { handled: EventHandled::Handled(0), action: HookAction::SendClose }
        } else {
            hook_not_handled()
        }
    }

    open spec fn mouse_hook(&self, _event: MouseEvent) -> HookResult {
        hook_not_handled()
    }

    open spec fn kbd_hook(&self, _event: KbdEvent) -> HookResult {
        hook_not_handled()
    }

    open spec fn ncdestroy_hook(&self, _event: Event) -> HookResult {
        hook_not_handled()
    }

    fn base(&self) -> (b: &BaseWin) {
        &self.base
    }

    fn base_mut(&mut self) -> (b: &mut BaseWin) {
        &mut self.base
    }

    /// The creation hook marks the window created; a child attached
    /// beforehand is due for materialization from this point on.
    fn on_create(&mut self, _event: &Event) -> (r: HookResult)
        ensures
            *final(self) == after_create_hook(*old(self)),
    {
        self.created = true;
        HookResult::handled(0)
    }

    fn on_paint(&self, _rect: &Rect) -> (r: HookResult) {
        HookResult::not_handled()
    }

    fn on_destroy(&self, _event: &Event) -> (r: HookResult) {
        HookResult { handled: EventHandled::Handled(0), action: HookAction::PostQuit }
    }

    fn on_resize(&mut self, _x: i32, _y: i32) -> (r: HookResult) {
        HookResult::not_handled()
    }

    fn on_command(&self, event: &CommandEvent) -> (r: HookResult) {
        match event.command {
            100 => HookResult { handled: EventHandled::Handled(0), action: HookAction::SendClose },
            _ => HookResult::not_handled(),
        }
    }

    fn on_mouse(&mut self, _event: MouseEvent) -> (r: HookResult) {
        HookResult::not_handled()
    }

    fn on_kbd(&mut self, _event: KbdEvent) -> (r: HookResult) {
        HookResult::not_handled()
    }

    fn on_ncdestroy(&self, _event: &Event) -> (r: HookResult) {
        HookResult::not_handled()
    }
}

} // verus!
