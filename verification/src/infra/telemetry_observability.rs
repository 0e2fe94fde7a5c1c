//! Telemetry adapter: counts auth business events per kind and turns each into a structured
//! log record, which the host process writes to its tracing output.

use vstd::prelude::*;

use crate::app::ports::{
    AuthBusinessEvent, LoginFailureReason, LogoutFailureReason, MeLookupFailureReason,
    Observability, PasswordChangeFailureReason, PasswordResetFailureReason,
};

verus! {

/// The kinds of auth business events; each has its own counter.
#[derive(Debug, Clone, Copy, PartialEq, Eq)]
pub enum AuthEventKind {
    LoginSucceeded,
    LoginFailed,
    AccountLocked,
    PasswordChanged,
    PasswordChangeFailed,
    PasswordResetRequested,
    PasswordResetCompleted,
    PasswordResetFailed,
    LogoutSucceeded,
    LogoutFailed,
    MeLookupSucceeded,
    MeLookupFailed,
}

/// Level at which a telemetry record is logged.
#[derive(Debug, Clone, Copy, PartialEq, Eq)]
pub enum TelemetryLevel {
    Info,
    Warn,
}

/// A structured log record for one auth business event.
#[derive(Debug, Clone)]
pub struct TelemetryRecord {
    /// Value of the `event` field of the `auth_business_event` span.
    pub event: &'static str,
    pub level: TelemetryLevel,
    /// Log message.
    pub message: &'static str,
    /// Name of the counter field.
    pub metric: &'static str,
    /// Value of the counter for this kind, this event included.
    pub count: u64,
    /// Failure reason, for failure events.
    pub reason: Option<&'static str>,
    /// The event itself, whose fields the record carries.
    pub payload: AuthBusinessEvent,
}

/// The kind of an event.
pub open spec fn event_kind(event: AuthBusinessEvent) -> AuthEventKind {
    match event {
        AuthBusinessEvent::LoginSucceeded { .. } => AuthEventKind::LoginSucceeded,
        AuthBusinessEvent::LoginFailed { .. } => AuthEventKind::LoginFailed,
        AuthBusinessEvent::AccountLocked { .. } => AuthEventKind::AccountLocked,
        AuthBusinessEvent::PasswordChanged { .. } => AuthEventKind::PasswordChanged,
        AuthBusinessEvent::PasswordChangeFailed { .. } => AuthEventKind::PasswordChangeFailed,
        AuthBusinessEvent::PasswordResetRequested { .. } => AuthEventKind::PasswordResetRequested,
        AuthBusinessEvent::PasswordResetCompleted { .. } => AuthEventKind::PasswordResetCompleted,
        AuthBusinessEvent::PasswordResetFailed { .. } => AuthEventKind::PasswordResetFailed,
        AuthBusinessEvent::LogoutSucceeded { .. } => AuthEventKind::LogoutSucceeded,
        AuthBusinessEvent::LogoutFailed { .. } => AuthEventKind::LogoutFailed,
        AuthBusinessEvent::MeLookupSucceeded { .. } => AuthEventKind::MeLookupSucceeded,
        AuthBusinessEvent::MeLookupFailed { .. } => AuthEventKind::MeLookupFailed,
    }
}

/// Whether events of this kind report a failure (logged as warnings).
pub open spec fn is_failure_kind(kind: AuthEventKind) -> bool {
    match kind {
        AuthEventKind::LoginFailed | AuthEventKind::AccountLocked
        | AuthEventKind::PasswordChangeFailed | AuthEventKind::PasswordResetFailed
        | AuthEventKind::LogoutFailed | AuthEventKind::MeLookupFailed => true,
        _ => false,
    }
}

/// The span event name, log message and counter name of a kind.
pub open spec fn kind_labels(kind: AuthEventKind) -> (Seq<char>, Seq<char>, Seq<char>) {
    match kind {
        AuthEventKind::LoginSucceeded => (
            "login_succeeded"@,
            "login succeeded"@,
            "metric_login_succeeded"@,
        ),
        AuthEventKind::LoginFailed => ("login_failed"@, "login failed"@, "metric_login_failed"@),
        AuthEventKind::AccountLocked => (
            "account_locked"@,
            "account locked"@,
            "metric_account_locked"@,
        ),
        AuthEventKind::PasswordChanged => (
            "password_changed"@,
            "password changed"@,
            "metric_password_changed"@,
        ),
        AuthEventKind::PasswordChangeFailed => (
            "password_change_failed"@,
            "password change failed"@,
            "metric_password_change_failed"@,
        ),
        AuthEventKind::PasswordResetRequested => (
            "password_reset_requested"@,
            "password reset requested"@,
            "metric_password_reset_requested"@,
        ),
        AuthEventKind::PasswordResetCompleted => (
            "password_reset_completed"@,
            "password reset completed"@,
            "metric_password_reset_completed"@,
        ),
        AuthEventKind::PasswordResetFailed => (
            "password_reset_failed"@,
            "password reset failed"@,
            "metric_password_reset_failed"@,
        ),
        AuthEventKind::LogoutSucceeded => (
            "logout_succeeded"@,
            "logout succeeded"@,
            "metric_logout_succeeded"@,
        ),
        AuthEventKind::LogoutFailed => ("logout_failed"@, "logout failed"@, "metric_logout_failed"@),
        AuthEventKind::MeLookupSucceeded => (
            "me_lookup_succeeded"@,
            "me lookup succeeded"@,
            "metric_me_lookup_succeeded"@,
        ),
        AuthEventKind::MeLookupFailed => (
            "me_lookup_failed"@,
            "me lookup failed"@,
            "metric_me_lookup_failed"@,
        ),
    }
}

pub open spec fn login_failure_reason_text(reason: LoginFailureReason) -> Seq<char> {
    match reason {
        LoginFailureReason::UnknownUsername => "unknown_username"@,
        LoginFailureReason::WrongPassword => "wrong_password"@,
        LoginFailureReason::AccountLocked => "account_locked"@,
        LoginFailureReason::SelfExcluded => "self_excluded"@,
    }
}

pub open spec fn password_change_failure_reason_text(reason: PasswordChangeFailureReason) -> Seq<
    char,
> {
    match reason {
        PasswordChangeFailureReason::UnknownUsername => "unknown_username"@,
        PasswordChangeFailureReason::InvalidCurrentPassword => "invalid_current_password"@,
        PasswordChangeFailureReason::AccountLocked => "account_locked"@,
        PasswordChangeFailureReason::PasswordReuseNotAllowed => "password_reuse_not_allowed"@,
    }
}

pub open spec fn password_reset_failure_reason_text(reason: PasswordResetFailureReason) -> Seq<
    char,
> {
    match reason {
        PasswordResetFailureReason::InvalidToken => "invalid_token"@,
        PasswordResetFailureReason::PasswordReuseNotAllowed => "password_reuse_not_allowed"@,
    }
}

pub open spec fn logout_failure_reason_text(reason: LogoutFailureReason) -> Seq<char> {
    match reason {
        LogoutFailureReason::MissingBearerToken => "missing_bearer_token"@,
        LogoutFailureReason::InvalidOrRevokedToken => "invalid_or_revoked_token"@,
    }
}

pub open spec fn me_lookup_failure_reason_text(reason: MeLookupFailureReason) -> Seq<char> {
    match reason {
        MeLookupFailureReason::MissingBearerToken => "missing_bearer_token"@,
        MeLookupFailureReason::InvalidOrRevokedToken => "invalid_or_revoked_token"@,
    }
}

/// The reason text an event carries, for the failure events that have one.
pub open spec fn event_reason_text(event: AuthBusinessEvent) -> Option<Seq<char>> {
    match event {
        AuthBusinessEvent::LoginFailed { reason, .. } => Some(login_failure_reason_text(reason)),
        AuthBusinessEvent::PasswordChangeFailed { reason, .. } => Some(
            password_change_failure_reason_text(reason),
        ),
        AuthBusinessEvent::PasswordResetFailed { reason } => Some(
            password_reset_failure_reason_text(reason),
        ),
        AuthBusinessEvent::LogoutFailed { reason } => Some(logout_failure_reason_text(reason)),
        AuthBusinessEvent::MeLookupFailed { reason } => Some(me_lookup_failure_reason_text(reason)),
        _ => None,
    }
}

/// A counter after one more event: one more, wrapping to zero past `u64::MAX`.
pub open spec fn next_count(count: u64) -> u64 {
    if count == u64::MAX {
        0
    } else {
        (count + 1) as u64
    }
}

pub fn login_failure_reason(reason: LoginFailureReason) -> (text: &'static str)
    ensures
        text@ == login_failure_reason_text(reason),
{
    match reason {
        LoginFailureReason::UnknownUsername => "unknown_username",
        LoginFailureReason::WrongPassword => "wrong_password",
        LoginFailureReason::AccountLocked => "account_locked",
        LoginFailureReason::SelfExcluded => "self_excluded",
    }
}

pub fn password_change_failure_reason(reason: PasswordChangeFailureReason) -> (text: &'static str)
    ensures
        text@ == password_change_failure_reason_text(reason),
{
    match reason {
        PasswordChangeFailureReason::UnknownUsername => "unknown_username",
        PasswordChangeFailureReason::InvalidCurrentPassword => "invalid_current_password",
        PasswordChangeFailureReason::AccountLocked => "account_locked",
        PasswordChangeFailureReason::PasswordReuseNotAllowed => "password_reuse_not_allowed",
    }
}

pub fn password_reset_failure_reason(reason: PasswordResetFailureReason) -> (text: &'static str)
    ensures
        text@ == password_reset_failure_reason_text(reason),
{
    match reason {
        PasswordResetFailureReason::InvalidToken => "invalid_token",
        PasswordResetFailureReason::PasswordReuseNotAllowed => "password_reuse_not_allowed",
    }
}

pub fn logout_failure_reason(reason: LogoutFailureReason) -> (text: &'static str)
    ensures
        text@ == logout_failure_reason_text(reason),
{
    match reason {
        LogoutFailureReason::MissingBearerToken => "missing_bearer_token",
        LogoutFailureReason::InvalidOrRevokedToken => "invalid_or_revoked_token",
    }
}

pub fn me_lookup_failure_reason(reason: MeLookupFailureReason) -> (text: &'static str)
    ensures
        text@ == me_lookup_failure_reason_text(reason),
{
    match reason {
        MeLookupFailureReason::MissingBearerToken => "missing_bearer_token",
        MeLookupFailureReason::InvalidOrRevokedToken => "invalid_or_revoked_token",
    }
}

/// The kind of an event.
pub fn kind_of(event: &AuthBusinessEvent) -> (kind: AuthEventKind)
    ensures
        kind == event_kind(*event),
{
    match event {
        AuthBusinessEvent::LoginSucceeded { .. } => AuthEventKind::LoginSucceeded,
        AuthBusinessEvent::LoginFailed { .. } => AuthEventKind::LoginFailed,
        AuthBusinessEvent::AccountLocked { .. } => AuthEventKind::AccountLocked,
        AuthBusinessEvent::PasswordChanged { .. } => AuthEventKind::PasswordChanged,
        AuthBusinessEvent::PasswordChangeFailed { .. } => AuthEventKind::PasswordChangeFailed,
        AuthBusinessEvent::PasswordResetRequested { .. } => AuthEventKind::PasswordResetRequested,
        AuthBusinessEvent::PasswordResetCompleted { .. } => AuthEventKind::PasswordResetCompleted,
        AuthBusinessEvent::PasswordResetFailed { .. } => AuthEventKind::PasswordResetFailed,
        AuthBusinessEvent::LogoutSucceeded { .. } => AuthEventKind::LogoutSucceeded,
        AuthBusinessEvent::LogoutFailed { .. } => AuthEventKind::LogoutFailed,
        AuthBusinessEvent::MeLookupSucceeded { .. } => AuthEventKind::MeLookupSucceeded,
        AuthBusinessEvent::MeLookupFailed { .. } => AuthEventKind::MeLookupFailed,
    }
}

/// The span event name, log message and counter name of a kind.
pub fn labels_of(kind: AuthEventKind) -> (labels: (&'static str, &'static str, &'static str))
    ensures
        (labels.0@, labels.1@, labels.2@) == kind_labels(kind),
{
    match kind {
        AuthEventKind::LoginSucceeded => (
            "login_succeeded",
            "login succeeded",
            "metric_login_succeeded",
        ),
        AuthEventKind::LoginFailed => ("login_failed", "login failed", "metric_login_failed"),
        AuthEventKind::AccountLocked => ("account_locked", "account locked", "metric_account_locked"),
        AuthEventKind::PasswordChanged => (
            "password_changed",
            "password changed",
            "metric_password_changed",
        ),
        AuthEventKind::PasswordChangeFailed => (
            "password_change_failed",
            "password change failed",
            "metric_password_change_failed",
        ),
        AuthEventKind::PasswordResetRequested => (
            "password_reset_requested",
            "password reset requested",
            "metric_password_reset_requested",
        ),
        AuthEventKind::PasswordResetCompleted => (
            "password_reset_completed",
            "password reset completed",
            "metric_password_reset_completed",
        ),
        AuthEventKind::PasswordResetFailed => (
            "password_reset_failed",
            "password reset failed",
            "metric_password_reset_failed",
        ),
        AuthEventKind::LogoutSucceeded => (
            "logout_succeeded",
            "logout succeeded",
            "metric_logout_succeeded",
        ),
        AuthEventKind::LogoutFailed => ("logout_failed", "logout failed", "metric_logout_failed"),
        AuthEventKind::MeLookupSucceeded => (
            "me_lookup_succeeded",
            "me lookup succeeded",
            "metric_me_lookup_succeeded",
        ),
        AuthEventKind::MeLookupFailed => (
            "me_lookup_failed",
            "me lookup failed",
            "metric_me_lookup_failed",
        ),
    }
}

/// The reason text an event carries, for the failure events that have one.
pub fn reason_of(event: &AuthBusinessEvent) -> (reason: Option<&'static str>)
    ensures
        match reason {
            Some(text) => event_reason_text(*event) == Some(text@),
            None => event_reason_text(*event) is None,
        },
{
    match event {
        AuthBusinessEvent::LoginFailed { reason, .. } => Some(login_failure_reason(*reason)),
        AuthBusinessEvent::PasswordChangeFailed { reason, .. } => Some(
            password_change_failure_reason(*reason),
        ),
        AuthBusinessEvent::PasswordResetFailed { reason } => Some(
            password_reset_failure_reason(*reason),
        ),
        AuthBusinessEvent::LogoutFailed { reason } => Some(logout_failure_reason(*reason)),
        AuthBusinessEvent::MeLookupFailed { reason } => Some(me_lookup_failure_reason(*reason)),
        _ => None,
    }
}

/// Per-kind event counters.
struct EventCounters {
    login_succeeded: u64,
    login_failed: u64,
    account_locked: u64,
    password_changed: u64,
    password_change_failed: u64,
    password_reset_requested: u64,
    password_reset_completed: u64,
    password_reset_failed: u64,
    logout_succeeded: u64,
    logout_failed: u64,
    me_lookup_succeeded: u64,
    me_lookup_failed: u64,
}

impl EventCounters {
    spec fn count(&self, kind: AuthEventKind) -> u64 {
        match kind {
            AuthEventKind::LoginSucceeded => self.login_succeeded,
            AuthEventKind::LoginFailed => self.login_failed,
            AuthEventKind::AccountLocked => self.account_locked,
            AuthEventKind::PasswordChanged => self.password_changed,
            AuthEventKind::PasswordChangeFailed => self.password_change_failed,
            AuthEventKind::PasswordResetRequested => self.password_reset_requested,
            AuthEventKind::PasswordResetCompleted => self.password_reset_completed,
            AuthEventKind::PasswordResetFailed => self.password_reset_failed,
            AuthEventKind::LogoutSucceeded => self.logout_succeeded,
            AuthEventKind::LogoutFailed => self.logout_failed,
            AuthEventKind::MeLookupSucceeded => self.me_lookup_succeeded,
            AuthEventKind::MeLookupFailed => self.me_lookup_failed,
        }
    }

    fn new() -> (counters: Self)
        ensures
            forall|k: AuthEventKind| counters.count(k) == 0,
    {
        EventCounters {
            login_succeeded: 0,
            login_failed: 0,
            account_locked: 0,
            password_changed: 0,
            password_change_failed: 0,
            password_reset_requested: 0,
            password_reset_completed: 0,
            password_reset_failed: 0,
            logout_succeeded: 0,
            logout_failed: 0,
            me_lookup_succeeded: 0,
            me_lookup_failed: 0,
        }
    }

    /// Counts one more event of `kind`; returns the new count.
    fn increment(&mut self, kind: AuthEventKind) -> (count: u64)
        ensures
            count == final(self).count(kind),
            forall|k: AuthEventKind|
                #[trigger] final(self).count(k) == if k == kind {
                    next_count(old(self).count(k))
                } else {
                    old(self).count(k)
                },
    {
        match kind {
            AuthEventKind::LoginSucceeded => TelemetryObservability::inc(&mut self.login_succeeded),
            AuthEventKind::LoginFailed => TelemetryObservability::inc(&mut self.login_failed),
            AuthEventKind::AccountLocked => TelemetryObservability::inc(&mut self.account_locked),
            AuthEventKind::PasswordChanged => TelemetryObservability::inc(
                &mut self.password_changed,
            ),
            AuthEventKind::PasswordChangeFailed => TelemetryObservability::inc(
                &mut self.password_change_failed,
            ),
            AuthEventKind::PasswordResetRequested => TelemetryObservability::inc(
                &mut self.password_reset_requested,
            ),
            AuthEventKind::PasswordResetCompleted => TelemetryObservability::inc(
                &mut self.password_reset_completed,
            ),
            AuthEventKind::PasswordResetFailed => TelemetryObservability::inc(
                &mut self.password_reset_failed,
            ),
            AuthEventKind::LogoutSucceeded => TelemetryObservability::inc(
                &mut self.logout_succeeded,
            ),
            AuthEventKind::LogoutFailed => TelemetryObservability::inc(&mut self.logout_failed),
            AuthEventKind::MeLookupSucceeded => TelemetryObservability::inc(
                &mut self.me_lookup_succeeded,
            ),
            AuthEventKind::MeLookupFailed => TelemetryObservability::inc(
                &mut self.me_lookup_failed,
            ),
        }
    }
}

/// Whether `record` is the log record of `event` counted as the `count`th of its kind: span
/// event name, message and counter name of the kind, level (warning for failures), counter
/// value, reason text, and the event.
pub open spec fn is_record_of(record: TelemetryRecord, event: AuthBusinessEvent, count: u64) -> bool {
    &&& record.count == count
    &&& (record.event@, record.message@, record.metric@) == kind_labels(event_kind(event))
    &&& record.level == (if is_failure_kind(event_kind(event)) {
        TelemetryLevel::Warn
    } else {
        TelemetryLevel::Info
    })
    &&& match record.reason {
        Some(text) => event_reason_text(event) == Some(text@),
        None => event_reason_text(event) is None,
    }
    &&& record.payload == event
}

/// Observability adapter that counts auth events and keeps a structured record of each until
/// the host process drains and logs them.
pub struct TelemetryObservability {
    counters: EventCounters,
    pending: Vec<TelemetryRecord>,
    handed: Ghost<Seq<AuthBusinessEvent>>,
}

impl TelemetryObservability {
    /// How many events of `kind` have been emitted (wrapping past `u64::MAX`).
    pub closed spec fn count(&self, kind: AuthEventKind) -> u64 {
        self.counters.count(kind)
    }

    /// The records not yet drained, oldest first.
    pub closed spec fn pending(&self) -> Seq<TelemetryRecord> {
        self.pending@
    }

    /// Counts one more event; returns the new count (wrapping, as an atomic counter does).
    fn inc(counter: &mut u64) -> (count: u64)
        ensures
            *final(counter) == next_count(*old(counter)),
            count == *final(counter),
    {
        if *counter == u64::MAX {
            *counter = 0;
        } else {
            *counter = *counter + 1;
        }
        *counter
    }

    /// Counts `event` under its kind and builds its log record: span event name, level
    /// (warning for failures), message, counter name and value, reason text, and the event.
    pub fn record(&mut self, event: AuthBusinessEvent) -> (record: TelemetryRecord)
        ensures
            forall|k: AuthEventKind|
                #[trigger] final(self).count(k) == if k == event_kind(event) {
                    next_count(old(self).count(k))
                } else {
                    old(self).count(k)
                },
            final(self).pending() == old(self).pending(),
            final(self).emitted() == old(self).emitted(),
            is_record_of(record, event, final(self).count(event_kind(event))),
    {
        let kind = kind_of(&event);
        let count = self.counters.increment(kind);
        let (name, message, metric) = labels_of(kind);
        let level = match kind {
            AuthEventKind::LoginFailed | AuthEventKind::AccountLocked
            | AuthEventKind::PasswordChangeFailed | AuthEventKind::PasswordResetFailed
            | AuthEventKind::LogoutFailed | AuthEventKind::MeLookupFailed => TelemetryLevel::Warn,
            _ => TelemetryLevel::Info,
        };
        let reason = reason_of(&event);
        TelemetryRecord { event: name, level, message, metric, count, reason, payload: event }
    }

    /// Hands over the records not yet logged, oldest first, and forgets them.
    pub fn drain_records(&mut self) -> (records: Vec<TelemetryRecord>)
        ensures
            records@ == old(self).pending(),
            final(self).pending() == Seq::<TelemetryRecord>::empty(),
            forall|k: AuthEventKind| #[trigger] final(self).count(k) == old(self).count(k),
            final(self).emitted() == old(self).emitted(),
    {
        let mut records = Vec::new();
        std::mem::swap(&mut records, &mut self.pending);
        records
    }
}

impl Default for TelemetryObservability {
    fn default() -> (telemetry: Self)
        ensures
            forall|k: AuthEventKind| #[trigger] telemetry.count(k) == 0,
            telemetry.pending() == Seq::<TelemetryRecord>::empty(),
            telemetry.emitted() == Seq::<AuthBusinessEvent>::empty(),
    {
        TelemetryObservability {
            counters: EventCounters::new(),
            pending: Vec::new(),
            handed: Ghost(Seq::empty()),
        }
    }
}

impl Observability for TelemetryObservability {
    /// The events handed to the adapter, in order.
    closed spec fn emitted(&self) -> Seq<AuthBusinessEvent> {
        self.handed@
    }

    /// Counts the event and queues its record for logging.
    fn emit(&mut self, event: AuthBusinessEvent)
        ensures
            forall|k: AuthEventKind|
                #[trigger] final(self).count(k) == if k == event_kind(event) {
                    next_count(old(self).count(k))
                } else {
                    old(self).count(k)
                },
            final(self).pending().len() == old(self).pending().len() + 1,
            final(self).pending().drop_last() == old(self).pending(),
            is_record_of(
                final(self).pending().last(),
                event,
                final(self).count(event_kind(event)),
            ),
    {
        let record = self.record(event);
        let ghost counted = *self;
        self.pending.push(record);
        proof {
            self.handed@ = self.handed@.push(event);
        }
        assert forall|k: AuthEventKind| #[trigger] self.count(k) == counted.count(k) by {}
    }
}

} // verus!
