use dustdb::session::{session_step, SessionState};

#[test]
fn one_decoded_line_is_handled_then_closes() {
    let (next, handle) = session_step(SessionState::AwaitingLine, true);
    assert!(handle);
    assert_eq!(next, SessionState::Closed);
}

#[test]
fn second_line_on_same_connection_is_not_handled() {
    // Two lines over one connection: exactly one is answered.
    let (s1, h1) = session_step(SessionState::AwaitingLine, true);
    let (s2, h2) = session_step(s1, true);
    assert!(h1);
    assert!(!h2);
    assert_eq!(s2, SessionState::Closed);
}

#[test]
fn framing_failure_keeps_waiting() {
    let (s1, h1) = session_step(SessionState::AwaitingLine, false);
    assert!(!h1);
    assert_eq!(s1, SessionState::AwaitingLine);
    let (s2, h2) = session_step(s1, true);
    assert!(h2);
    assert_eq!(s2, SessionState::Closed);
}
