use matc_ui::retry::{
    is_session_defunct, retry_start, retry_step, ErrorCause, RetryAction, RetryEvent, RetryPhase,
};

fn cause(is_io: bool, m: &str) -> ErrorCause {
    ErrorCause { is_io, message: m.to_string() }
}

#[test]
fn defunct_sessions_are_recognised() {
    assert!(is_session_defunct(&vec![cause(false, "channel closed while waiting for response")]));
    assert!(is_session_defunct(&vec![cause(false, "wrap"), cause(false, "failed to decrypt message")]));
    assert!(is_session_defunct(&vec![cause(false, "decode_message failed")]));
    assert!(is_session_defunct(&vec![cause(false, "encode_message failed")]));
    assert!(is_session_defunct(&vec![cause(true, "connection refused")]));
    assert!(!is_session_defunct(&vec![cause(false, "status 0x87 UNSUPPORTED_ATTRIBUTE")]));
    assert!(!is_session_defunct(&vec![]));
}

fn fail_text(a: &RetryAction) -> String {
    match a {
        RetryAction::Fail { message } => message.clone(),
        other => panic!("not a failure: {:?}", other),
    }
}

#[test]
fn healthy_session_succeeds_at_once() {
    let (p, a) = retry_start();
    assert!(matches!(a, RetryAction::Connect));
    let (p, a) = retry_step(p, RetryEvent::Connected);
    assert!(matches!(a, RetryAction::RunOp));
    let (p, a) = retry_step(p, RetryEvent::OpSucceeded);
    assert!(matches!(a, RetryAction::Succeed { recovered: false }));
    assert!(matches!(p, RetryPhase::Finished));
}

#[test]
fn connect_failure_is_returned() {
    let (p, _) = retry_start();
    let (_, a) = retry_step(p, RetryEvent::ConnectFailed { message: "connection timed out".to_string() });
    assert_eq!(fail_text(&a), "connection timed out");
}

#[test]
fn device_rejection_is_returned_as_is() {
    let (p, _) = retry_start();
    let (p, _) = retry_step(p, RetryEvent::Connected);
    let (p, a) = retry_step(p, RetryEvent::OpFailed { message: "status 0x87".to_string(), defunct: false });
    assert_eq!(fail_text(&a), "status 0x87");
    assert!(matches!(p, RetryPhase::Finished));
}

#[test]
fn defunct_session_is_reauthenticated_and_retried() {
    let (p, _) = retry_start();
    let (p, _) = retry_step(p, RetryEvent::Connected);
    let (p, a) = retry_step(p, RetryEvent::OpFailed { message: "decrypt".to_string(), defunct: true });
    match &a {
        RetryAction::Reauth { failure } => assert_eq!(failure, "session defunct: decrypt"),
        other => panic!("{:?}", other),
    }
    let (p, a) = retry_step(p, RetryEvent::ReauthSucceeded);
    assert!(matches!(a, RetryAction::RunOp));
    let (_, a) = retry_step(p, RetryEvent::OpSucceeded);
    assert!(matches!(a, RetryAction::Succeed { recovered: true }));
}

#[test]
fn failed_reauth_falls_back_to_a_new_session() {
    let (p, _) = retry_start();
    let (p, _) = retry_step(p, RetryEvent::Connected);
    let (p, _) = retry_step(p, RetryEvent::OpFailed { message: "e1".to_string(), defunct: true });
    let (p, a) = retry_step(p, RetryEvent::ReauthFailed);
    assert!(matches!(a, RetryAction::Reconnect));
    let (p, a) = retry_step(p, RetryEvent::Connected);
    assert!(matches!(a, RetryAction::RunOp));
    let (_, a) = retry_step(p, RetryEvent::OpFailed { message: "e2".to_string(), defunct: true });
    assert_eq!(fail_text(&a), "e2");
}

#[test]
fn failed_reconnect_names_both_errors() {
    let (p, _) = retry_start();
    let (p, _) = retry_step(p, RetryEvent::Connected);
    let (p, _) = retry_step(p, RetryEvent::OpFailed { message: "e1".to_string(), defunct: true });
    let (p, _) = retry_step(p, RetryEvent::ReauthFailed);
    let (p, a) = retry_step(p, RetryEvent::ConnectFailed { message: "unreachable".to_string() });
    assert_eq!(fail_text(&a), "reconnect failed: unreachable (original: e1)");
    assert!(matches!(p, RetryPhase::Finished));
}

#[test]
fn operation_starts_at_most_twice() {
    let (mut p, mut a) = retry_start();
    let mut runs = 0;
    let mut steps = 0;
    let events = vec![
        RetryEvent::Connected,
        RetryEvent::OpFailed { message: "e1".to_string(), defunct: true },
        RetryEvent::ReauthSucceeded,
        RetryEvent::OpFailed { message: "e2".to_string(), defunct: true },
    ];
    for ev in events {
        let (np, na) = retry_step(p, ev);
        p = np;
        a = na;
        steps += 1;
        if matches!(a, RetryAction::RunOp) {
            runs += 1;
        }
    }
    assert_eq!(runs, 2);
    assert_eq!(steps, 4);
    assert!(matches!(p, RetryPhase::Finished));
    assert_eq!(fail_text(&a), "e2");
}
