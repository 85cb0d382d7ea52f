use splash_core::transition::{is_final, outcome, run_transition, step, Transition, WindowEvent};

#[test]
fn no_windows_still_succeeds() {
    let end = run_transition(
        Transition::CloseSplash,
        vec![WindowEvent::Absent, WindowEvent::Absent],
    );
    assert_eq!(end, Transition::Succeeded);
    assert_eq!(outcome(end), Some(Ok(())));
}

#[test]
fn splash_closed_main_absent_succeeds() {
    let end = run_transition(
        Transition::CloseSplash,
        vec![WindowEvent::Completed, WindowEvent::Absent],
    );
    assert_eq!(end, Transition::Succeeded);
    assert_eq!(outcome(end), Some(Ok(())));
}

#[test]
fn full_run_succeeds() {
    let end = run_transition(
        Transition::CloseSplash,
        vec![
            WindowEvent::Completed,
            WindowEvent::Completed,
            WindowEvent::Completed,
        ],
    );
    assert_eq!(end, Transition::Succeeded);
}

#[test]
fn close_failure_aborts_with_message() {
    let end = run_transition(
        Transition::CloseSplash,
        vec![WindowEvent::Error("window already destroyed".to_string())],
    );
    assert_eq!(end, Transition::Failed("window already destroyed".to_string()));
    assert_eq!(
        outcome(end),
        Some(Err("window already destroyed".to_string()))
    );
}

#[test]
fn show_failure_ignores_later_reports() {
    let end = run_transition(
        Transition::CloseSplash,
        vec![
            WindowEvent::Completed,
            WindowEvent::Error("no surface".to_string()),
            WindowEvent::Completed,
        ],
    );
    assert_eq!(end, Transition::Failed("no surface".to_string()));
    match outcome(end) {
        Some(Err(m)) => assert!(!m.is_empty()),
        other => panic!("expected a failure verdict, got {:?}", other),
    }
}

#[test]
fn focus_failure_aborts_with_message() {
    let end = run_transition(
        Transition::CloseSplash,
        vec![
            WindowEvent::Absent,
            WindowEvent::Completed,
            WindowEvent::Error("focus refused".to_string()),
        ],
    );
    assert_eq!(end, Transition::Failed("focus refused".to_string()));
}

#[test]
fn unfinished_transition_has_no_verdict() {
    let mid = run_transition(Transition::CloseSplash, vec![WindowEvent::Absent]);
    assert_eq!(mid, Transition::ShowMain);
    assert!(!is_final(&mid));
    assert_eq!(outcome(mid), None);
}

#[test]
fn stepwise_drive_matches_whole_run() {
    let mut t = Transition::CloseSplash;
    t = step(t, WindowEvent::Completed);
    assert_eq!(t, Transition::ShowMain);
    t = step(t, WindowEvent::Completed);
    assert_eq!(t, Transition::FocusMain);
    t = step(t, WindowEvent::Completed);
    assert_eq!(t, Transition::Succeeded);
    assert!(is_final(&t));
    let whole = run_transition(
        Transition::CloseSplash,
        vec![
            WindowEvent::Completed,
            WindowEvent::Completed,
            WindowEvent::Completed,
        ],
    );
    assert_eq!(t, whole);
}
