use vstd::prelude::*;

verus! {

/// Internal reasons used for security-oriented login failure telemetry.
#[derive(Debug, Clone, Copy, PartialEq, Eq)]
pub enum LoginFailureReason {
    UnknownUsername,
    WrongPassword,
    AccountLocked,
    SelfExcluded,
}

/// Internal reasons used for change-password failure telemetry.
#[derive(Debug, Clone, Copy, PartialEq, Eq)]
pub enum PasswordChangeFailureReason {
    UnknownUsername,
    InvalidCurrentPassword,
    AccountLocked,
    PasswordReuseNotAllowed,
}

/// Internal reasons used for reset-password failure telemetry.
#[derive(Debug, Clone, Copy, PartialEq, Eq)]
pub enum PasswordResetFailureReason {
    InvalidToken,
    PasswordReuseNotAllowed,
}

/// Internal reasons used for logout failure telemetry.
#[derive(Debug, Clone, Copy, PartialEq, Eq)]
pub enum LogoutFailureReason {
    MissingBearerToken,
    InvalidOrRevokedToken,
}

/// Internal reasons used for authenticated-subject lookup failure telemetry.
#[derive(Debug, Clone, Copy, PartialEq, Eq)]
pub enum MeLookupFailureReason {
    MissingBearerToken,
    InvalidOrRevokedToken,
}

/// Business/security events emitted by the auth bounded context.
#[allow(inconsistent_fields)]
#[derive(Debug, Clone, PartialEq, Eq)]
pub enum AuthBusinessEvent {
    LoginSucceeded { account_id: u64, username: String },
    LoginFailed { username: String, reason: LoginFailureReason },
    AccountLocked { account_id: u64, username: String, failed_attempts: u32 },
    PasswordChanged { account_id: u64, username: String },
    PasswordChangeFailed { username: String, reason: PasswordChangeFailureReason },
    PasswordResetRequested { username: String, account_found: bool },
    PasswordResetCompleted { account_id: u64, username: String },
    PasswordResetFailed { reason: PasswordResetFailureReason },
    LogoutSucceeded { account_id: Option<u64>, username: Option<String> },
    LogoutFailed { reason: LogoutFailureReason },
    MeLookupSucceeded { account_id: u64, username: String },
    MeLookupFailed { reason: MeLookupFailureReason },
}

/// Port for emitting auth-domain observability signals to external systems.
pub trait Observability {
    /// The events handed to this port, in order. An implementation that does not define it
    /// leaves it unspecified.
    closed spec fn emitted(&self) -> Seq<AuthBusinessEvent> {
        vstd::pervasive::arbitrary()
    }

    fn emit(&mut self, event: AuthBusinessEvent)
        ensures
            final(self).emitted() == old(self).emitted().push(event),
    ;
}

/// Hands `events` to `observability` in order.
pub fn emit_all<O: Observability>(observability: &mut O, events: Vec<AuthBusinessEvent>)
    ensures
        final(observability).emitted() == old(observability).emitted() + events@,
{
    let ghost all_events = events@;
    let mut pending = events;
    while pending.len() > 0
        invariant
            observability.emitted() == old(observability).emitted() + all_events.take(
                all_events.len() - pending@.len(),
            ),
            pending@ == all_events.skip(all_events.len() - pending@.len()),
            pending@.len() <= all_events.len(),
        decreases pending.len(),
    {
        let ghost handed = all_events.len() - pending@.len();
        let event = pending.remove(0);
        proof {
            assert(all_events.take(handed).push(event) =~= all_events.take(handed + 1));
            assert(all_events.skip(handed).remove(0) =~= all_events.skip(handed + 1));
        }
        observability.emit(event);
        proof {
            assert(old(observability).emitted() + all_events.take(handed + 1) =~= (old(
                observability,
            ).emitted() + all_events.take(handed)).push(event));
        }
    }
    proof {
        assert(all_events.take(all_events.len() as int) =~= all_events);
    }
}

} // verus!

