//! The lifetime of a sensor session and of the hidden window that gives the
//! process the input focus an interactive sensor call needs.
//!
//! Opening goes window, focus, session; closing releases, in a fixed order
//! and exactly once, whatever was acquired. The caller does the work and
//! reports what came of it.

use vstd::prelude::*;

verus! {

/// Where a guard stands.
#[derive(Clone, Copy, PartialEq, Eq, Debug, Structural)]
pub enum GuardPhase {
    /// The window thread has been asked for.
    AwaitWindow,
    /// The subsystem's focus has been asked for.
    AwaitFocus,
    /// The session has been asked for.
    AwaitSession,
    /// The session is open.
    Open,
    /// Everything the guard held has been handed back for release.
    Closed,
}

/// What the caller is to do next while a guard opens.
#[derive(Clone, Copy, PartialEq, Eq, Debug, Structural)]
pub enum GuardAction {
    /// Start the window thread and wait for its window handle.
    CreateWindow,
    /// Ask the subsystem for the input focus.
    AcquireFocus,
    /// Open the session. `window_failed` tells that a window was wanted and
    /// could not be had, which deserves a warning: interactive calls may then
    /// never return.
    OpenSession { flags: u32, window_failed: bool },
    /// The session is open and may be used.
    Ready { session: u32 },
    /// The session could not be opened; the guard must be closed.
    Failed { code: u32 },
    /// The report does not answer what the guard is waiting for; nothing
    /// changed.
    OutOfTurn,
}

/// One release on the way out.
#[derive(Clone, Copy, PartialEq, Eq, Debug, Structural)]
pub enum TeardownStep {
    CloseSession { session: u32 },
    /// Give the subsystem's focus back.
    ReleaseFocus,
    /// Post the quit message to the window.
    PostQuit { hwnd_raw: isize },
    /// Wait for the window thread to end.
    JoinThread,
}

/// What the caller reports back while a guard opens.
#[derive(Clone, Copy, Debug)]
pub enum GuardEvent {
    /// The handle the window thread reported; zero if it has no window.
    Window { hwnd_raw: isize },
    Focus { acquired: bool },
    Session { result: Result<u32, u32> },
}

/// The state of a guard.
pub struct GuardModel {
    pub flags: u32,
    pub phase: GuardPhase,
    /// The open session.
    pub session: Option<u32>,
    /// The handle of the hidden window.
    pub window: Option<isize>,
    /// Whether the subsystem's focus was acquired and is still held.
    pub has_focus: bool,
    /// Whether the window thread was started and has not been joined.
    pub thread: bool,
}

impl GuardModel {
    /// What holds of every state a guard can reach.
    pub open spec fn wf(self) -> bool {
        &&& (self.window is Some ==> self.thread && self.window->0 != 0)
        &&& (self.has_focus ==> self.window is Some)
        &&& (self.session is Some <==> self.phase == GuardPhase::Open)
        &&& (self.phase == GuardPhase::Closed ==> self.window is None && !self.thread)
        &&& (self.phase == GuardPhase::AwaitWindow ==> !self.thread)
        &&& (self.phase == GuardPhase::AwaitFocus ==> self.window is Some && !self.has_focus)
    }

    /// A guard as it begins, holding nothing: with `foreground` it asks for
    /// the window first, without it for the session at once.
    pub open spec fn start(flags: u32, foreground: bool) -> (GuardModel, GuardAction) {
        let fresh = GuardModel {
            flags,
            phase: GuardPhase::AwaitSession,
            session: None,
            window: None,
            has_focus: false,
            thread: false,
        };
        if foreground {
            (GuardModel { phase: GuardPhase::AwaitWindow, ..fresh }, GuardAction::CreateWindow)
        } else {
            (fresh, GuardAction::OpenSession { flags, window_failed: false })
        }
    }

    /// The window thread has reported. With a window the focus is asked for
    /// next; without one the guard goes on to the session and the thread is
    /// still joined in the end.
    pub open spec fn on_window(self, hwnd_raw: isize) -> (GuardModel, GuardAction) {
        if self.phase != GuardPhase::AwaitWindow {
            (self, GuardAction::OutOfTurn)
        } else if hwnd_raw == 0 {
            (
                GuardModel { phase: GuardPhase::AwaitSession, thread: true, ..self },
                GuardAction::OpenSession { flags: self.flags, window_failed: true },
            )
        } else {
            (
                GuardModel {
                    phase: GuardPhase::AwaitFocus,
                    thread: true,
                    window: Some(hwnd_raw),
                    ..self
                },
                GuardAction::AcquireFocus,
            )
        }
    }

    /// Whether the focus was acquired is taken down, so that only a focus
    /// that is held is released; the session is asked for either way.
    pub open spec fn on_focus(self, acquired: bool) -> (GuardModel, GuardAction) {
        if self.phase != GuardPhase::AwaitFocus {
            (self, GuardAction::OutOfTurn)
        } else {
            (
                GuardModel { phase: GuardPhase::AwaitSession, has_focus: acquired, ..self },
                GuardAction::OpenSession { flags: self.flags, window_failed: false },
            )
        }
    }

    /// The session is open, or it is not and the guard has failed; what it
    /// holds by then is released when it is closed.
    pub open spec fn on_session(self, result: Result<u32, u32>) -> (GuardModel, GuardAction) {
        if self.phase != GuardPhase::AwaitSession {
            (self, GuardAction::OutOfTurn)
        } else {
            match result {
                Ok(session) => (
                    GuardModel { phase: GuardPhase::Open, session: Some(session), ..self },
                    GuardAction::Ready { session },
                ),
                Err(code) => (self, GuardAction::Failed { code }),
            }
        }
    }

    /// One step of a guard that opens.
    pub open spec fn step(self, event: GuardEvent) -> (GuardModel, GuardAction) {
        match event {
            GuardEvent::Window { hwnd_raw } => self.on_window(hwnd_raw),
            GuardEvent::Focus { acquired } => self.on_focus(acquired),
            GuardEvent::Session { result } => self.on_session(result),
        }
    }

    /// The releases that are due, in their order: the session, if one is
    /// open; the focus, if it was acquired; the quit message, if there is a
    /// window; the join, if the thread was started.
    pub open spec fn teardown(self) -> Seq<TeardownStep> {
        (if self.session is Some {
            seq![TeardownStep::CloseSession { session: self.session->0 }]
        } else {
            Seq::empty()
        }) + (if self.has_focus {
            seq![TeardownStep::ReleaseFocus]
        } else {
            Seq::empty()
        }) + (if self.window is Some {
            seq![TeardownStep::PostQuit { hwnd_raw: self.window->0 }]
        } else {
            Seq::empty()
        }) + (if self.thread {
            seq![TeardownStep::JoinThread]
        } else {
            Seq::empty()
        })
    }

    /// The guard after it has handed everything back.
    pub open spec fn closed(self) -> GuardModel {
        GuardModel {
            phase: GuardPhase::Closed,
            session: None,
            window: None,
            has_focus: false,
            thread: false,
            ..self
        }
    }
}

/// The hidden window of a guard: its handle and whether the subsystem's
/// focus is held with it.
#[derive(Clone, Copy, Debug, PartialEq, Eq)]
pub struct FocusWindow {
    hwnd_raw: isize,
    has_winbio_focus: bool,
}

impl FocusWindow {
    /// The handle of the window.
    pub closed spec fn handle(self) -> isize {
        self.hwnd_raw
    }

    /// Whether the subsystem's focus is held with the window.
    pub closed spec fn holds_focus(self) -> bool {
        self.has_winbio_focus
    }

    /// The window for a handle the window thread reported: none for zero.
    /// The focus is not held yet.
    pub fn new(hwnd_raw: isize) -> (r: Option<FocusWindow>)
        ensures
            hwnd_raw == 0 <==> r is None,
            r matches Some(w) ==> w.handle() == hwnd_raw && !w.holds_focus(),
    {
        if hwnd_raw == 0 {
            None
        } else {
            Some(FocusWindow { hwnd_raw, has_winbio_focus: false })
        }
    }

    /// The handle of the window.
    pub fn hwnd_raw(&self) -> (r: isize)
        ensures
            r == self.handle(),
    {
        self.hwnd_raw
    }

    /// Whether the subsystem's focus is held with the window.
    pub fn has_winbio_focus(&self) -> (r: bool)
        ensures
            r == self.holds_focus(),
    {
        self.has_winbio_focus
    }
}

/// Guards one sensor session from opening to release.
#[derive(Debug)]
pub struct SessionGuard {
    flags: u32,
    phase: GuardPhase,
    session: Option<u32>,
    focus: Option<FocusWindow>,
    thread: bool,
}

impl View for SessionGuard {
    type V = GuardModel;

    closed spec fn view(&self) -> GuardModel {
        GuardModel {
            flags: self.flags,
            phase: self.phase,
            session: self.session,
            window: match self.focus {
                Some(w) => Some(w.hwnd_raw),
                None => None,
            },
            has_focus: match self.focus {
                Some(w) => w.has_winbio_focus,
                None => false,
            },
            thread: self.thread,
        }
    }
}

impl SessionGuard {
    /// Whether the guard is in a state that a guard can reach.
    pub open spec fn wf(&self) -> bool {
        self@.wf()
    }

    /// Begins to open a session with the given flags. With `foreground` a
    /// hidden window is set up first, so that interactive calls get the
    /// focus they need.
    pub fn new(flags: u32, foreground: bool) -> (r: (SessionGuard, GuardAction))
        ensures
            (r.0@, r.1) == GuardModel::start(flags, foreground),
            r.0.wf(),
    {
        if foreground {
            (
                SessionGuard {
                    flags,
                    phase: GuardPhase::AwaitWindow,
                    session: None,
                    focus: None,
                    thread: false,
                },
                GuardAction::CreateWindow,
            )
        } else {
            (
                SessionGuard {
                    flags,
                    phase: GuardPhase::AwaitSession,
                    session: None,
                    focus: None,
                    thread: false,
                },
                GuardAction::OpenSession { flags, window_failed: false },
            )
        }
    }

    /// Where the guard stands.
    pub fn phase(&self) -> (phase: GuardPhase)
        ensures
            phase == self@.phase,
    {
        self.phase
    }

    /// The open session, while there is one.
    pub fn session(&self) -> (session: Option<u32>)
        ensures
            session == self@.session,
    {
        self.session
    }

    /// The hidden window, while there is one.
    pub fn focus(&self) -> (focus: Option<FocusWindow>)
        ensures
            match focus {
                Some(w) => self@.window == Some(w.handle()) && self@.has_focus == w.holds_focus(),
                None => self@.window is None && !self@.has_focus,
            },
    {
        self.focus
    }

    /// Takes in the handle the window thread reported, zero for none.
    pub fn on_window(&mut self, hwnd_raw: isize) -> (action: GuardAction)
        requires
            old(self).wf(),
        ensures
            (final(self)@, action) == old(self)@.on_window(hwnd_raw),
            final(self).wf(),
    {
        if self.phase != GuardPhase::AwaitWindow {
            return GuardAction::OutOfTurn;
        }
        self.thread = true;
        match FocusWindow::new(hwnd_raw) {
            None => {
                self.phase = GuardPhase::AwaitSession;
                GuardAction::OpenSession { flags: self.flags, window_failed: true }
            },
            Some(window) => {
                self.focus = Some(window);
                self.phase = GuardPhase::AwaitFocus;
                GuardAction::AcquireFocus
            },
        }
    }

    /// Takes in whether the subsystem granted the focus.
    pub fn on_focus(&mut self, acquired: bool) -> (action: GuardAction)
        requires
            old(self).wf(),
        ensures
            (final(self)@, action) == old(self)@.on_focus(acquired),
            final(self).wf(),
    {
        if self.phase != GuardPhase::AwaitFocus {
            return GuardAction::OutOfTurn;
        }
        match self.focus {
            Some(window) => {
                self.focus = Some(
                    FocusWindow { hwnd_raw: window.hwnd_raw, has_winbio_focus: acquired },
                );
            },
            None => {},
        }
        self.phase = GuardPhase::AwaitSession;
        GuardAction::OpenSession { flags: self.flags, window_failed: false }
    }

    /// Takes in the session that was opened, or the code with which opening
    /// failed.
    pub fn on_session(&mut self, result: Result<u32, u32>) -> (action: GuardAction)
        requires
            old(self).wf(),
        ensures
            (final(self)@, action) == old(self)@.on_session(result),
            final(self).wf(),
    {
        if self.phase != GuardPhase::AwaitSession {
            return GuardAction::OutOfTurn;
        }
        match result {
            Ok(session) => {
                self.session = Some(session);
                self.phase = GuardPhase::Open;
                GuardAction::Ready { session }
            },
            Err(code) => GuardAction::Failed { code },
        }
    }

    /// Takes in any report.
    pub fn step(&mut self, event: GuardEvent) -> (action: GuardAction)
        requires
            old(self).wf(),
        ensures
            (final(self)@, action) == old(self)@.step(event),
            final(self).wf(),
    {
        match event {
            GuardEvent::Window { hwnd_raw } => self.on_window(hwnd_raw),
            GuardEvent::Focus { acquired } => self.on_focus(acquired),
            GuardEvent::Session { result } => self.on_session(result),
        }
    }

    /// Hands back, in the order in which they are to be carried out, the
    /// releases that are due, and holds nothing afterwards. To be called on
    /// every way out; a second call finds nothing left to release.
    pub fn close(&mut self) -> (steps: Vec<TeardownStep>)
        ensures
            steps@ == old(self)@.teardown(),
            final(self)@ == old(self)@.closed(),
            old(self).wf() ==> final(self).wf(),
    {
        let mut steps: Vec<TeardownStep> = Vec::new();
        if let Some(session) = self.session {
            steps.push(TeardownStep::CloseSession { session });
        }
        if let Some(window) = self.focus {
            if window.has_winbio_focus {
                steps.push(TeardownStep::ReleaseFocus);
            }
            steps.push(TeardownStep::PostQuit { hwnd_raw: window.hwnd_raw });
        }
        if self.thread {
            steps.push(TeardownStep::JoinThread);
        }
        assert(steps@ =~= self@.teardown());
        self.session = None;
        self.focus = None;
        self.thread = false;
        self.phase = GuardPhase::Closed;
        steps
    }
}

/// Every step leads from a reachable state to a reachable state.
pub proof fn lemma_step_keeps_wf(m: GuardModel, event: GuardEvent)
    requires
        m.wf(),
    ensures
        m.step(event).0.wf(),
{
}

/// A guard that was asked for the focus has started its window thread once
/// the thread has reported, with or without a window, and keeps it until it
/// is closed.
pub proof fn lemma_thread_is_kept(m: GuardModel, event: GuardEvent)
    requires
        m.wf(),
    ensures
        m.thread ==> m.step(event).0.thread,
        m.phase == GuardPhase::AwaitWindow && event is Window ==> m.step(event).0.thread,
{
}

/// Closing a guard joins the window thread if and only if it was started,
/// as the last release and after the quit message; it closes the session
/// first if one is open; and it leaves no thread, window, focus or session
/// behind, so that closing again releases nothing.
pub proof fn lemma_close_releases_everything(m: GuardModel)
    requires
        m.wf(),
    ensures
        m.thread <==> m.teardown().contains(TeardownStep::JoinThread),
        m.thread ==> m.teardown().last() == TeardownStep::JoinThread,
        m.session is Some ==> m.teardown()[0] == (TeardownStep::CloseSession {
            session: m.session->0,
        }),
        m.window is Some ==> m.teardown()[m.teardown().len() - 2] == (TeardownStep::PostQuit {
            hwnd_raw: m.window->0,
        }),
        m.has_focus <==> m.teardown().contains(TeardownStep::ReleaseFocus),
        !m.closed().thread,
        m.closed().window is None,
        m.closed().session is None,
        m.closed().teardown() == Seq::<TeardownStep>::empty(),
        m.closed().wf(),
{
    let steps = m.teardown();
    if m.thread {
        assert(steps[steps.len() - 1] == TeardownStep::JoinThread);
    }
    if m.has_focus {
        let at = if m.session is Some {
            1int
        } else {
            0int
        };
        assert(steps[at] == TeardownStep::ReleaseFocus);
    }
    assert(m.closed().teardown() =~= Seq::<TeardownStep>::empty());
}

/// The guard after the given reports, in order.
pub open spec fn after_reports(m: GuardModel, events: Seq<GuardEvent>) -> GuardModel
    decreases events.len(),
{
    if events.len() == 0 {
        m
    } else {
        after_reports(m, events.drop_last()).step(events.last()).0
    }
}

/// However a guard that wants the focus fares, whatever is reported to it
/// and in whatever order, closing it leaves no window thread behind: a thread
/// that was started is joined by the close, and none is started otherwise.
pub proof fn lemma_no_thread_outlives_its_guard(
    flags: u32,
    foreground: bool,
    events: Seq<GuardEvent>,
)
    ensures
        ({
            let end = after_reports(GuardModel::start(flags, foreground).0, events);
            &&& end.wf()
            &&& end.thread <==> end.teardown().contains(TeardownStep::JoinThread)
            &&& !end.closed().thread
        }),
    decreases events.len(),
{
    let start = GuardModel::start(flags, foreground).0;
    lemma_reports_keep_wf(start, events);
    lemma_close_releases_everything(after_reports(start, events));
}

/// Reports lead from a reachable state to a reachable state.
pub proof fn lemma_reports_keep_wf(m: GuardModel, events: Seq<GuardEvent>)
    requires
        m.wf(),
    ensures
        after_reports(m, events).wf(),
    decreases events.len(),
{
    if events.len() > 0 {
        lemma_reports_keep_wf(m, events.drop_last());
        lemma_step_keeps_wf(after_reports(m, events.drop_last()), events.last());
    }
}

} // verus!
