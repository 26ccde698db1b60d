use vstd::prelude::*;

use crate::text::{contains_text, has_infix};

verus! {

/// One link of an error's cause chain: whether it is an I/O error, and its message.
#[derive(Clone, Debug)]
pub struct ErrorCause {
    pub is_io: bool,
    pub message: String,
}

/// Whether one cause shows that the secure session is gone: a transport
/// error, the retransmission loop giving up, or a failure to encrypt or
/// decrypt a message.
pub open spec fn cause_is_defunct(c: ErrorCause) -> bool {
    ||| c.is_io
    ||| has_infix(c.message@, "channel closed while waiting for response"@)
    ||| has_infix(c.message@, "decrypt"@)
    ||| has_infix(c.message@, "decode_message"@)
    ||| has_infix(c.message@, "encode_message"@)
}

/// Classifies a failed operation by its cause chain: true when some cause
/// shows a defunct session, which calls for a new session; false for a
/// rejection by the device over a healthy session. Unknown errors count as
/// rejections.
pub fn is_session_defunct(chain: &Vec<ErrorCause>) -> (r: bool)
    ensures
        r == exists|i: int| 0 <= i < chain@.len() && cause_is_defunct(#[trigger] chain@[i]),
{
    let mut i: usize = 0;
    while i < chain.len()
        invariant
            i <= chain.len(),
            forall|k: int| 0 <= k < i ==> !cause_is_defunct(#[trigger] chain@[k]),
        decreases chain.len() - i,
    {
        let c: &ErrorCause = &chain[i];
        let m: &str = c.message.as_str();
        if c.is_io || contains_text(m, "channel closed while waiting for response") || contains_text(
            m,
            "decrypt",
        ) || contains_text(m, "decode_message") || contains_text(m, "encode_message") {
            assert(cause_is_defunct(chain@[i as int]));
            return true;
        }
        i = i + 1;
    }
    false
}

/// Where an operation on a device session stands.
#[derive(Debug)]
pub enum RetryPhase {
    /// Waiting for a session.
    Connecting,
    /// The operation was started on the session.
    FirstAttempt,
    /// The session failed as defunct and is being re-authenticated in place.
    Reauthing { first_error: String },
    /// The operation was started again after re-authentication.
    RetryAfterReauth,
    /// Re-authentication failed; a new session is being opened.
    Reconnecting { first_error: String },
    /// The operation was started again on the new session.
    RetryAfterReconnect,
    /// The outcome has been decided.
    Finished,
}

/// What happened since the last action.
#[derive(Debug)]
pub enum RetryEvent {
    Connected,
    ConnectFailed { message: String },
    OpSucceeded,
    OpFailed { message: String, defunct: bool },
    ReauthSucceeded,
    ReauthFailed,
}

/// What to do next.
#[derive(Debug)]
pub enum RetryAction {
    /// Get a session, reusing a cached one.
    Connect,
    /// Run the operation on the current session.
    RunOp,
    /// Mark the device failed with `failure`, then re-authenticate the
    /// session in place.
    Reauth { failure: String },
    /// Drop the cached session and open a new one.
    Reconnect,
    /// Return the operation's value; when `recovered`, mark the device
    /// connected first.
    Succeed { recovered: bool },
    /// Return the error `message`.
    Fail { message: String },
}

/// Whether `event` is one that can follow the action that led to `phase`.
pub open spec fn expects(phase: RetryPhase, event: RetryEvent) -> bool {
    match phase {
        RetryPhase::Connecting | RetryPhase::Reconnecting { .. } => event is Connected || event is ConnectFailed,
        RetryPhase::FirstAttempt | RetryPhase::RetryAfterReauth | RetryPhase::RetryAfterReconnect => event is OpSucceeded
            || event is OpFailed,
        RetryPhase::Reauthing { .. } => event is ReauthSucceeded || event is ReauthFailed,
        RetryPhase::Finished => false,
    }
}

/// How many more times the operation may still be started from `phase`.
pub open spec fn runs_left(phase: RetryPhase) -> nat {
    match phase {
        RetryPhase::Connecting => 2,
        RetryPhase::FirstAttempt => 1,
        RetryPhase::Reauthing { .. } => 1,
        RetryPhase::Reconnecting { .. } => 1,
        _ => 0,
    }
}

/// A measure that every step lowers, so the procedure ends.
pub open spec fn steps_left(phase: RetryPhase) -> nat {
    match phase {
        RetryPhase::Connecting => 5,
        RetryPhase::FirstAttempt => 4,
        RetryPhase::Reauthing { .. } => 3,
        RetryPhase::Reconnecting { .. } => 2,
        RetryPhase::RetryAfterReauth => 1,
        RetryPhase::RetryAfterReconnect => 1,
        RetryPhase::Finished => 0,
    }
}

/// Whether a step from `before` to `after` with `action` makes progress:
/// it lowers the measure and spends a run of the operation when it starts one.
pub open spec fn advances(before: RetryPhase, after: RetryPhase, action: RetryAction) -> bool {
    &&& steps_left(after) < steps_left(before)
    &&& runs_left(after) + (if action is RunOp { 1nat } else { 0nat }) <= runs_left(before)
}

/// How many of `actions` start the operation.
pub open spec fn count_runs(actions: Seq<RetryAction>) -> nat
    decreases actions.len(),
{
    if actions.len() == 0 {
        0
    } else {
        count_runs(actions.drop_last()) + if actions.last() is RunOp { 1nat } else { 0nat }
    }
}

/// The operation is retried at most once: along any run of the policy from
/// its start, where each step advances as `retry_step` ensures, the
/// operation is started at most twice and the run takes at most five steps.
pub proof fn operation_runs_at_most_twice(phases: Seq<RetryPhase>, actions: Seq<RetryAction>)
    requires
        phases.len() == actions.len() + 1,
        phases[0] is Connecting,
        forall|i: int| 0 <= i < actions.len() ==> advances(phases[i], #[trigger] phases[i + 1], actions[i]),
    ensures
        count_runs(actions) <= 2,
        actions.len() <= 5,
{
    lemma_runs_bounded(phases, actions);
}

proof fn lemma_runs_bounded(phases: Seq<RetryPhase>, actions: Seq<RetryAction>)
    requires
        phases.len() == actions.len() + 1,
        forall|i: int| 0 <= i < actions.len() ==> advances(phases[i], #[trigger] phases[i + 1], actions[i]),
    ensures
        count_runs(actions) + runs_left(phases.last()) <= runs_left(phases[0]),
        actions.len() + steps_left(phases.last()) <= steps_left(phases[0]),
    decreases actions.len(),
{
    if actions.len() > 0 {
        let n = actions.len() - 1;
        let ps = phases.drop_last();
        let acts = actions.drop_last();
        assert forall|i: int| 0 <= i < acts.len() implies advances(ps[i], #[trigger] ps[i + 1], acts[i]) by {
            assert(advances(phases[i], phases[i + 1], actions[i]));
        }
        lemma_runs_bounded(ps, acts);
        assert(advances(phases[n], phases[n + 1], actions[n]));
    }
}

/// The message texts that the steps build, by their characters.
pub open spec fn defunct_failure_text(message: Seq<char>) -> Seq<char> {
    "session defunct: "@ + message
}

pub open spec fn reconnect_failure_text(message: Seq<char>, first_error: Seq<char>) -> Seq<char> {
    "reconnect failed: "@ + message + " (original: "@ + first_error + ")"@
}

/// The start of an operation on a device session: first get a session.
pub fn retry_start() -> (r: (RetryPhase, RetryAction))
    ensures
        r.0 is Connecting,
        r.1 is Connect,
{
    (RetryPhase::Connecting, RetryAction::Connect)
}

/// One decision of the session-recovery policy. The operation is started
/// on the session; a rejection by the device is returned as it is; a
/// defunct session marks the device failed and is re-authenticated in
/// place, and when that fails a new session is opened; the operation is
/// then run once more, and its outcome is final.
pub fn retry_step(phase: RetryPhase, event: RetryEvent) -> (r: (RetryPhase, RetryAction))
    requires
        expects(phase, event),
    ensures
        advances(phase, r.0, r.1),
        r.1 is Succeed || r.1 is Fail <==> r.0 is Finished,
        r.1 is Succeed ==> event is OpSucceeded && (r.1->recovered <==> !(phase is FirstAttempt)),
        match (phase, event) {
            (RetryPhase::Connecting, RetryEvent::Connected) => r.0 is FirstAttempt && r.1 is RunOp,
            (RetryPhase::Connecting, RetryEvent::ConnectFailed { message }) => r.1 is Fail && r.1->Fail_message@ == message@,
            (RetryPhase::FirstAttempt, RetryEvent::OpFailed { message, defunct }) => if defunct {
                &&& r.0 is Reauthing && r.0->Reauthing_first_error@ == message@
                &&& r.1 is Reauth && r.1->failure@ == defunct_failure_text(message@)
            } else {
                r.1 is Fail && r.1->Fail_message@ == message@
            },
            (RetryPhase::Reauthing { first_error }, RetryEvent::ReauthSucceeded) => r.0 is RetryAfterReauth && r.1 is RunOp,
            (RetryPhase::Reauthing { first_error }, RetryEvent::ReauthFailed) => {
                &&& r.0 is Reconnecting && r.0->Reconnecting_first_error@ == first_error@
                &&& r.1 is Reconnect
            },
            (RetryPhase::Reconnecting { first_error }, RetryEvent::Connected) => r.0 is RetryAfterReconnect && r.1 is RunOp,
            (RetryPhase::Reconnecting { first_error }, RetryEvent::ConnectFailed { message }) => {
                r.1 is Fail && r.1->Fail_message@ == reconnect_failure_text(message@, first_error@)
            },
            (_, RetryEvent::OpFailed { message, defunct }) => r.1 is Fail && r.1->Fail_message@ == message@,
            (_, RetryEvent::OpSucceeded) => r.1 is Succeed,
            _ => true,
        },
{
    match phase {
        RetryPhase::Connecting => match event {
            RetryEvent::Connected => (RetryPhase::FirstAttempt, RetryAction::RunOp),
            RetryEvent::ConnectFailed { message } => (RetryPhase::Finished, RetryAction::Fail { message }),
            _ => (RetryPhase::Finished, RetryAction::Connect),
        },
        RetryPhase::FirstAttempt => match event {
            RetryEvent::OpSucceeded => (RetryPhase::Finished, RetryAction::Succeed { recovered: false }),
            RetryEvent::OpFailed { message, defunct } => {
                if defunct {
                    let mut failure: String = String::from_str("session defunct: ");
                    failure.append(message.as_str());
                    (RetryPhase::Reauthing { first_error: message }, RetryAction::Reauth { failure })
                } else {
                    (RetryPhase::Finished, RetryAction::Fail { message })
                }
            },
            _ => (RetryPhase::Finished, RetryAction::Connect),
        },
        RetryPhase::Reauthing { first_error } => match event {
            RetryEvent::ReauthSucceeded => (RetryPhase::RetryAfterReauth, RetryAction::RunOp),
            _ => (RetryPhase::Reconnecting { first_error }, RetryAction::Reconnect),
        },
        RetryPhase::Reconnecting { first_error } => match event {
            RetryEvent::Connected => (RetryPhase::RetryAfterReconnect, RetryAction::RunOp),
            RetryEvent::ConnectFailed { message } => {
                let mut text: String = String::from_str("reconnect failed: ");
                text.append(message.as_str());
                text.append(" (original: ");
                text.append(first_error.as_str());
                text.append(")");
                (RetryPhase::Finished, RetryAction::Fail { message: text })
            },
            _ => (RetryPhase::Finished, RetryAction::Connect),
        },
        RetryPhase::RetryAfterReauth | RetryPhase::RetryAfterReconnect => match event {
            RetryEvent::OpSucceeded => (RetryPhase::Finished, RetryAction::Succeed { recovered: true }),
            RetryEvent::OpFailed { message, defunct } => (RetryPhase::Finished, RetryAction::Fail { message }),
            _ => (RetryPhase::Finished, RetryAction::Connect),
        },
        RetryPhase::Finished => (RetryPhase::Finished, RetryAction::Connect),
    }
}

} // verus!
