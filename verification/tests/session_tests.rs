use groundhog::infrastructure::error::GroundhogError;
use groundhog::tui::session::{SessionState, TerminalOp, TerminalSession};

fn failure_message(session: &TerminalSession) -> Option<String> {
    match session.result() {
        Ok(()) => None,
        Err(GroundhogError::TUIError(message)) => Some(message),
        Err(other) => panic!("expected a terminal error, got {:?}", other),
    }
}

#[test]
fn new_session_is_inactive_and_asks_for_raw_mode() {
    let session = TerminalSession::new();
    assert_eq!(session.state(), SessionState::Inactive);
    assert!(!session.is_active());
    assert_eq!(session.next_op(), Some(TerminalOp::EnableRawMode));
    assert!(session.result().is_ok());
}

#[test]
fn session_passes_through_every_state() {
    let mut session = TerminalSession::new();
    session.record(Ok(()));
    assert_eq!(session.state(), SessionState::RawModeEntered);
    assert_eq!(session.next_op(), Some(TerminalOp::EnterAlternateScreen));
    session.record(Ok(()));
    assert_eq!(session.state(), SessionState::AlternateScreenEntered);
    assert_eq!(session.next_op(), Some(TerminalOp::CreateBackend));
    assert!(!session.is_active());
    session.record(Ok(()));
    assert_eq!(session.state(), SessionState::Active);
    assert!(session.is_active());
    assert_eq!(session.next_op(), None);

    session.release();
    assert!(!session.is_active());
    assert_eq!(session.next_op(), Some(TerminalOp::ShowCursor));
    session.record(Ok(()));
    assert_eq!(session.state(), SessionState::AlternateScreenEntered);
    assert_eq!(session.next_op(), Some(TerminalOp::LeaveAlternateScreen));
    session.record(Ok(()));
    assert_eq!(session.state(), SessionState::RawModeEntered);
    assert_eq!(session.next_op(), Some(TerminalOp::DisableRawMode));
    session.record(Ok(()));
    assert_eq!(session.state(), SessionState::Inactive);
    assert_eq!(session.next_op(), None);
    assert!(session.result().is_ok());
}

#[test]
fn record_without_a_pending_call_changes_nothing() {
    let mut session = TerminalSession::new();
    session.drive(&Vec::new());
    session.record(Err("stray".to_string()));
    assert!(session.is_active());
    assert!(session.result().is_ok());

    session.release();
    session.drive(&Vec::new());
    session.record(Err("stray".to_string()));
    assert_eq!(session.state(), SessionState::Inactive);
    assert!(session.result().is_ok());
}

#[test]
fn enter_without_failure_takes_the_three_steps() {
    let mut session = TerminalSession::new();
    let ops = session.drive(&vec![Ok(()), Ok(()), Ok(())]);
    assert_eq!(
        ops,
        vec![TerminalOp::EnableRawMode, TerminalOp::EnterAlternateScreen, TerminalOp::CreateBackend]
    );
    assert!(session.is_active());
    assert_eq!(session.state(), SessionState::Active);
    assert!(session.result().is_ok());
}

#[test]
fn failed_raw_mode_leaves_nothing_to_undo() {
    let mut session = TerminalSession::new();
    let ops = session.drive(&vec![Err("not a terminal".to_string())]);
    assert_eq!(ops, vec![TerminalOp::EnableRawMode]);
    assert_eq!(session.state(), SessionState::Inactive);
    assert_eq!(session.next_op(), None);
    assert_eq!(failure_message(&session), Some("not a terminal".to_string()));
}

#[test]
fn failed_alternate_screen_undoes_raw_mode() {
    let mut session = TerminalSession::new();
    let ops = session.drive(&vec![Ok(()), Err("no alternate screen".to_string())]);
    assert_eq!(
        ops,
        vec![
            TerminalOp::EnableRawMode,
            TerminalOp::EnterAlternateScreen,
            TerminalOp::DisableRawMode,
        ]
    );
    assert_eq!(session.state(), SessionState::Inactive);
    assert_eq!(failure_message(&session), Some("no alternate screen".to_string()));
}

#[test]
fn failed_backend_undoes_screen_and_raw_mode() {
    let mut session = TerminalSession::new();
    let ops = session.drive(&vec![Ok(()), Ok(()), Err("no backend".to_string())]);
    assert_eq!(
        ops,
        vec![
            TerminalOp::EnableRawMode,
            TerminalOp::EnterAlternateScreen,
            TerminalOp::CreateBackend,
            TerminalOp::LeaveAlternateScreen,
            TerminalOp::DisableRawMode,
        ]
    );
    assert_eq!(session.state(), SessionState::Inactive);
    assert!(!session.is_active());
    assert_eq!(failure_message(&session), Some("no backend".to_string()));
}

#[test]
fn unwinding_goes_on_when_an_undoing_call_fails() {
    let mut session = TerminalSession::new();
    let ops = session.drive(&vec![
        Ok(()),
        Ok(()),
        Err("no backend".to_string()),
        Err("leave failed".to_string()),
        Err("disable failed".to_string()),
    ]);
    assert_eq!(ops.len(), 5);
    assert_eq!(ops[3], TerminalOp::LeaveAlternateScreen);
    assert_eq!(ops[4], TerminalOp::DisableRawMode);
    assert_eq!(session.state(), SessionState::Inactive);
    assert_eq!(failure_message(&session), Some("no backend".to_string()));
}

#[test]
fn every_failed_setup_is_mirrored_by_its_teardown() {
    let setup =
        [TerminalOp::EnableRawMode, TerminalOp::EnterAlternateScreen, TerminalOp::CreateBackend];
    let undo =
        [TerminalOp::DisableRawMode, TerminalOp::LeaveAlternateScreen, TerminalOp::ShowCursor];
    for failing in 0..3 {
        let mut outcomes: Vec<Result<(), String>> = vec![Ok(()); failing];
        outcomes.push(Err("failed".to_string()));
        let mut session = TerminalSession::new();
        let ops = session.drive(&outcomes);
        let (made, undone) = ops.split_at(failing + 1);
        assert_eq!(made, &setup[..=failing]);
        let mut expected: Vec<TerminalOp> = undo[..failing].to_vec();
        expected.reverse();
        assert_eq!(undone, expected.as_slice());
        assert_eq!(session.state(), SessionState::Inactive);
    }
}

#[test]
fn release_undoes_in_reverse_order() {
    let mut session = TerminalSession::new();
    session.drive(&Vec::new());
    session.release();
    let ops = session.drive(&Vec::new());
    assert_eq!(
        ops,
        vec![TerminalOp::ShowCursor, TerminalOp::LeaveAlternateScreen, TerminalOp::DisableRawMode]
    );
    assert_eq!(session.state(), SessionState::Inactive);
    assert!(session.result().is_ok());
}

#[test]
fn release_goes_on_after_a_failure_and_reports_the_first() {
    let mut session = TerminalSession::new();
    session.drive(&Vec::new());
    session.release();
    let ops = session.drive(&vec![
        Err("cursor".to_string()),
        Ok(()),
        Err("raw mode".to_string()),
    ]);
    assert_eq!(ops.len(), 3);
    assert_eq!(session.state(), SessionState::Inactive);
    assert_eq!(failure_message(&session), Some("cursor".to_string()));
}

#[test]
fn release_while_entering_undoes_what_is_held() {
    let mut session = TerminalSession::new();
    session.record(Ok(()));
    session.record(Ok(()));
    session.release();
    let ops = session.drive(&Vec::new());
    assert_eq!(ops, vec![TerminalOp::LeaveAlternateScreen, TerminalOp::DisableRawMode]);
    assert_eq!(session.state(), SessionState::Inactive);
}

#[test]
fn release_of_a_session_that_holds_nothing_closes_it() {
    let mut session = TerminalSession::new();
    session.release();
    assert_eq!(session.next_op(), None);
    assert_eq!(session.drive(&Vec::new()), Vec::new());
    assert_eq!(session.state(), SessionState::Inactive);
}
