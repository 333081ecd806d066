use win_fp_debug::session::{
    FocusWindow, GuardAction, GuardEvent, GuardPhase, SessionGuard, TeardownStep,
};
use win_fp_debug::winbio_helpers::{WINBIO_FLAG_DEFAULT, WINBIO_FLAG_RAW};

#[test]
fn a_hundred_guards_leave_no_thread_behind() {
    let mut started = 0u32;
    let mut joined = 0u32;
    for n in 1..=100isize {
        let (mut guard, action) = SessionGuard::new(WINBIO_FLAG_DEFAULT, true);
        assert_eq!(action, GuardAction::CreateWindow);
        started += 1;
        let hwnd = if n % 10 == 0 { 0 } else { 0x1000 + n };
        let mut action = guard.on_window(hwnd);
        if action == GuardAction::AcquireFocus {
            action = guard.on_focus(n % 3 != 0);
        }
        assert!(matches!(action, GuardAction::OpenSession { flags: 0, .. }));
        let opened = if n % 7 == 0 { Err(0x8009_800B) } else { Ok(n as u32) };
        guard.on_session(opened);
        let steps = guard.close();
        let joins = steps.iter().filter(|s| **s == TeardownStep::JoinThread).count();
        assert_eq!(joins, 1);
        assert_eq!(steps.last(), Some(&TeardownStep::JoinThread));
        joined += joins as u32;
        assert_eq!(guard.phase(), GuardPhase::Closed);
        assert_eq!(guard.close(), Vec::<TeardownStep>::new());
    }
    assert_eq!(started, 100);
    assert_eq!(joined, 100);
}

#[test]
fn teardown_runs_in_order() {
    let (mut guard, _) = SessionGuard::new(WINBIO_FLAG_DEFAULT, true);
    assert_eq!(guard.on_window(0x42), GuardAction::AcquireFocus);
    assert_eq!(
        guard.on_focus(true),
        GuardAction::OpenSession { flags: WINBIO_FLAG_DEFAULT, window_failed: false }
    );
    assert_eq!(guard.on_session(Ok(5)), GuardAction::Ready { session: 5 });
    assert_eq!(guard.phase(), GuardPhase::Open);
    assert_eq!(guard.session(), Some(5));
    let window = guard.focus().unwrap();
    assert_eq!(window.hwnd_raw(), 0x42);
    assert!(window.has_winbio_focus());
    assert_eq!(
        guard.close(),
        vec![
            TeardownStep::CloseSession { session: 5 },
            TeardownStep::ReleaseFocus,
            TeardownStep::PostQuit { hwnd_raw: 0x42 },
            TeardownStep::JoinThread,
        ]
    );
    assert_eq!(guard.session(), None);
    assert_eq!(guard.focus(), None);
}

#[test]
fn focus_that_was_not_acquired_is_not_released() {
    let (mut guard, _) = SessionGuard::new(WINBIO_FLAG_DEFAULT, true);
    guard.on_window(0x42);
    guard.on_focus(false);
    guard.on_session(Ok(6));
    assert_eq!(
        guard.close(),
        vec![
            TeardownStep::CloseSession { session: 6 },
            TeardownStep::PostQuit { hwnd_raw: 0x42 },
            TeardownStep::JoinThread,
        ]
    );
}

#[test]
fn a_failed_session_destroys_the_window() {
    let (mut guard, _) = SessionGuard::new(WINBIO_FLAG_DEFAULT, true);
    guard.on_window(0x77);
    guard.on_focus(true);
    assert_eq!(guard.on_session(Err(0x8007_0005)), GuardAction::Failed { code: 0x8007_0005 });
    assert_eq!(guard.session(), None);
    assert_eq!(
        guard.close(),
        vec![
            TeardownStep::ReleaseFocus,
            TeardownStep::PostQuit { hwnd_raw: 0x77 },
            TeardownStep::JoinThread,
        ]
    );
}

#[test]
fn a_window_that_fails_is_warned_of_and_its_thread_joined() {
    let (mut guard, _) = SessionGuard::new(WINBIO_FLAG_DEFAULT, true);
    assert_eq!(
        guard.step(GuardEvent::Window { hwnd_raw: 0 }),
        GuardAction::OpenSession { flags: WINBIO_FLAG_DEFAULT, window_failed: true }
    );
    assert_eq!(guard.step(GuardEvent::Session { result: Ok(9) }), GuardAction::Ready { session: 9 });
    assert_eq!(
        guard.close(),
        vec![TeardownStep::CloseSession { session: 9 }, TeardownStep::JoinThread]
    );
}

#[test]
fn a_guard_without_focus_opens_the_session_at_once() {
    let (mut guard, action) = SessionGuard::new(WINBIO_FLAG_RAW, false);
    assert_eq!(action, GuardAction::OpenSession { flags: 0x2000_0000, window_failed: false });
    assert_eq!(guard.on_window(5), GuardAction::OutOfTurn);
    assert_eq!(guard.on_focus(true), GuardAction::OutOfTurn);
    assert_eq!(guard.on_session(Ok(1)), GuardAction::Ready { session: 1 });
    assert_eq!(guard.on_session(Ok(2)), GuardAction::OutOfTurn);
    assert_eq!(guard.close(), vec![TeardownStep::CloseSession { session: 1 }]);
}

#[test]
fn closing_a_guard_that_never_opened_releases_nothing() {
    let (mut guard, _) = SessionGuard::new(WINBIO_FLAG_DEFAULT, false);
    assert_eq!(guard.on_session(Err(1)), GuardAction::Failed { code: 1 });
    assert_eq!(guard.close(), vec![]);
    assert_eq!(guard.phase(), GuardPhase::Closed);
}

#[test]
fn a_window_needs_a_handle() {
    assert_eq!(FocusWindow::new(0), None);
    let window = FocusWindow::new(-3).unwrap();
    assert_eq!(window.hwnd_raw(), -3);
    assert!(!window.has_winbio_focus());
}
