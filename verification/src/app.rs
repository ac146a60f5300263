//! The application driver: it owns the top-level window, the loaded
//! accelerator table and the message loop's control state.  The loop body
//! itself — retrieving, translating and dispatching messages — is platform
//! work done outside; every decision in it is a verified function here:
//! which retrieve to use next, what a polled message means, when the idle
//! hook switches the loop from polling to blocking, and how a retrieved
//! message is disposed of.

use vstd::prelude::*;

use crate::module::WPModule;
use crate::msg::WM_QUIT;
use crate::win::MainWindow;
use crate::win_create_args::WinCreateArgs;

verus! {

/// How the loop retrieves its next message: a non-blocking poll while idle
/// work remains, a blocking retrieve once there is none.
#[derive(PartialEq, Eq, Structural, Debug, Clone, Copy)]
pub enum RetrieveMode {
    Polling,
    Blocking,
}

/// What the loop must do next.
#[derive(PartialEq, Eq, Structural, Debug, Clone, Copy)]
pub enum LoopStep {
    /// Poll without blocking; on nothing, run the idle hook.
    Poll,
    /// Sleep in the blocking retrieve until a message arrives.
    BlockingRetrieve,
    /// The quit message was seen: leave the loop.
    Stop,
}

/// How a retrieved message is disposed of: tested against the accelerator
/// table first, or handed straight to translate-and-dispatch when no table
/// is loaded.
#[derive(PartialEq, Eq, Structural, Debug, Clone, Copy)]
pub enum MessageDisposition {
    CheckAccelerator,
    TranslateAndDispatch,
}

/// The message loop's control state.
#[derive(PartialEq, Eq, Structural, Debug, Clone, Copy)]
pub struct MessageLoop {
    pub mode: RetrieveMode,
    pub running: bool,
    /// Payload of the final retrieved message; the process exit code.
    pub exit_code: usize,
}

/// The loop state after the idle hook reported whether more idle work
/// remains: more work keeps the loop polling, no more work switches it to
/// the blocking retrieve.
pub open spec fn step_idle(l: MessageLoop, more_work: bool) -> MessageLoop {
    MessageLoop {
        mode: if more_work {
            RetrieveMode::Polling
        } else {
            RetrieveMode::Blocking
        },
        ..l
    }
}

/// What a loop in the given state does next.
pub open spec fn step_of(l: MessageLoop) -> LoopStep {
    if !l.running {
        LoopStep::Stop
    } else if l.mode is Polling {
        LoopStep::Poll
    } else {
        LoopStep::BlockingRetrieve
    }
}

/// The loop state after a run of idle-hook reports, each taken from an
/// empty poll.
pub open spec fn mode_after_idles(l: MessageLoop, reports: Seq<bool>) -> MessageLoop
    decreases reports.len(),
{
    if reports.len() == 0 {
        l
    } else {
        mode_after_idles(step_idle(l, reports[0]), reports.drop_first())
    }
}

impl MessageLoop {
    /// A loop starts by polling: the first iteration uses the non-blocking
    /// retrieve whatever the idle hook will say.
    pub fn new() -> (r: MessageLoop)
        ensures
            r.mode is Polling,
            r.running,
            r.exit_code == 0,
    {
        MessageLoop { mode: RetrieveMode::Polling, running: true, exit_code: 0 }
    }

    /// Which retrieve the next iteration must use.
    pub fn next_step(&self) -> (s: LoopStep)
        ensures
            s == step_of(*self),
    {
        if !self.running {
            LoopStep::Stop
        } else {
            match self.mode {
                RetrieveMode::Polling => LoopStep::Poll,
                RetrieveMode::Blocking => LoopStep::BlockingRetrieve,
            }
        }
    }

    /// A non-blocking poll found a message.  The quit message ends the
    /// loop immediately and carries the exit code; any other message
    /// leaves the loop state alone and is disposed of by the caller.
    pub fn on_polled_message(&mut self, message: u32, wparam: usize) -> (quit: bool)
        requires
            old(self).running,
            old(self).mode is Polling,
        ensures
            quit == (message == WM_QUIT),
            message == WM_QUIT ==> *final(self) == (MessageLoop {
                running: false,
                exit_code: wparam,
                ..*old(self)
            }),
            message != WM_QUIT ==> *final(self) == *old(self),
    {
        if message == WM_QUIT {
            self.running = false;
            self.exit_code = wparam;
            true
        } else {
            false
        }
    }

    /// A non-blocking poll found nothing and the idle hook ran: while it
    /// reports more work the loop keeps polling; once it reports no more
    /// work the next iteration uses the blocking retrieve.
    pub fn on_idle(&mut self, more_work: bool)
        requires
            old(self).running,
            old(self).mode is Polling,
        ensures
            *final(self) == step_idle(*old(self), more_work),
    {
        self.mode = if more_work {
            RetrieveMode::Polling
        } else {
            RetrieveMode::Blocking
        };
    }

    /// The blocking retrieve returned: with a message to dispose of, or
    /// with the quit signal, whose payload becomes the exit code.
    pub fn on_blocking_result(&mut self, got_message: bool, wparam: usize)
        requires
            old(self).running,
            old(self).mode is Blocking,
        ensures
            got_message ==> *final(self) == *old(self),
            !got_message ==> *final(self) == (MessageLoop {
                running: false,
                exit_code: wparam,
                ..*old(self)
            }),
    {
        if !got_message {
            self.running = false;
            self.exit_code = wparam;
        }
    }
}

/// While the idle hook keeps reporting more work, the loop stays in
/// polling mode through any run of empty polls: its next step is always
/// the non-blocking poll, never the blocking retrieve.
pub proof fn lemma_more_work_keeps_polling(l: MessageLoop, reports: Seq<bool>)
    requires
        l.running,
        l.mode is Polling,
        forall|i: int| 0 <= i < reports.len() ==> reports[i],
    ensures
        mode_after_idles(l, reports).mode is Polling,
        step_of(mode_after_idles(l, reports)) is Poll,
    decreases reports.len(),
{
    if reports.len() > 0 {
        assert(reports[0]);
        let rest = reports.drop_first();
        assert forall|i: int| 0 <= i < rest.len() implies rest[i] by {
            assert(reports[i + 1]);
        }
        lemma_more_work_keeps_polling(step_idle(l, reports[0]), rest);
    }
}

/// Once the idle hook reports no more work, the very next iteration uses
/// the blocking retrieve.
pub proof fn lemma_no_more_work_blocks(l: MessageLoop)
    requires
        l.running,
        l.mode is Polling,
    ensures
        step_idle(l, false).mode is Blocking,
        step_of(step_idle(l, false)) is BlockingRetrieve,
{
}

/// The application: one top-level window, the optionally loaded
/// accelerator table, the creation arguments, and the exit code of the
/// finished loop.
pub struct WPApp {
    pub module: WPModule,
    pub main_win: MainWindow,
    pub exit_code: usize,
    /// Handle of the loaded accelerator table; `None` disables shortcut
    /// translation.
    pub accel: Option<usize>,
    pub create_args: Option<WinCreateArgs>,
}

impl WPApp {
    /// A fresh application for the given module, with a fresh main window
    /// and nothing loaded yet.
    pub fn new(module: WPModule) -> (r: WPApp)
        ensures
            r.module == module,
            r.main_win.base == crate::BaseWin::default_spec(),
            r.main_win.inst == module.hinst,
            r.main_win.child is None,
            !r.main_win.created,
            r.exit_code == 0,
            r.accel is None,
            r.create_args is None,
    {
        let inst = module.get_hinstance();
        WPApp {
            module,
            main_win: MainWindow::new(inst),
            exit_code: 0,
            accel: None,
            create_args: None,
        }
    }

    /// As [`WPApp::new`], but remembering a configuration bundle that the
    /// initialization step will consume in place of the defaults.
    pub fn new_with_config(module: WPModule, create_args: WinCreateArgs) -> (r: WPApp)
        ensures
            r.module == module,
            r.main_win.base == crate::BaseWin::default_spec(),
            r.main_win.inst == module.hinst,
            r.main_win.child is None,
            !r.main_win.created,
            r.exit_code == 0,
            r.accel is None,
            r.create_args == Some(create_args),
    {
        let mut app = Self::new(module);
        app.create_args = Some(create_args);
        app
    }

    pub fn main_win_created(&mut self)
        ensures
            *final(self) == *old(self),
    {
    }

    pub fn get_hinstance(&self) -> (h: usize)
        ensures
            h == self.module.hinst,
    {
        self.module.get_hinstance()
    }

    pub fn exit_code(&self) -> (r: usize)
        ensures
            r == self.exit_code,
    {
        self.exit_code
    }

    /// Store the outcome of loading the accelerator table: the handle on
    /// success, `None` on failure — a missing table merely disables
    /// shortcut translation.
    pub fn accelerators_loaded(&mut self, accel: Option<usize>)
        ensures
            final(self).accel == accel,
            final(self).module == old(self).module,
            final(self).main_win == old(self).main_win,
            final(self).exit_code == old(self).exit_code,
            final(self).create_args == old(self).create_args,
    {
        self.accel = accel;
    }

    /// How a retrieved message is disposed of: through the accelerator
    /// table when one is loaded, straight to translate-and-dispatch when
    /// none is.
    pub fn dispose_message(&self) -> (d: MessageDisposition)
        ensures
            d == (if self.accel is Some {
                MessageDisposition::CheckAccelerator
            } else {
                MessageDisposition::TranslateAndDispatch
            }),
    {
        match self.accel {
            Some(_) => MessageDisposition::CheckAccelerator,
            None => MessageDisposition::TranslateAndDispatch,
        }
    }

    /// Adopt the finished loop's exit code.
    pub fn finish_run(&mut self, loop_state: &MessageLoop)
        ensures
            final(self).exit_code == loop_state.exit_code,
            final(self).module == old(self).module,
            final(self).main_win == old(self).main_win,
            final(self).accel == old(self).accel,
            final(self).create_args == old(self).create_args,
    {
        self.exit_code = loop_state.exit_code;
    }
}

/// After the accelerator test: a message the table matched was already
/// dispatched as the table's command; only an unmatched one goes through
/// standard translation and dispatch.
pub fn after_accelerator(matched: bool) -> (standard: bool)
    ensures
        standard == !matched,
{
    !matched
}

} // verus!
