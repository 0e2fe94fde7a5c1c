use login_base::app::ports::{
    AuthBusinessEvent, LoginFailureReason, LogoutFailureReason, MeLookupFailureReason,
    Observability, PasswordChangeFailureReason, PasswordResetFailureReason,
};
use login_base::infra::telemetry_observability::{
    login_failure_reason, logout_failure_reason, me_lookup_failure_reason,
    password_change_failure_reason, password_reset_failure_reason, TelemetryLevel,
    TelemetryObservability,
};

#[test]
fn records_count_each_kind_separately() {
    let mut telemetry = TelemetryObservability::default();

    let first = telemetry.record(AuthBusinessEvent::LoginSucceeded {
        account_id: 1,
        username: "demo".to_string(),
    });
    let failed = telemetry.record(AuthBusinessEvent::LoginFailed {
        username: "demo".to_string(),
        reason: LoginFailureReason::WrongPassword,
    });
    let second = telemetry.record(AuthBusinessEvent::LoginSucceeded {
        account_id: 1,
        username: "demo".to_string(),
    });

    assert_eq!(first.count, 1);
    assert_eq!(failed.count, 1);
    assert_eq!(second.count, 2);
}

#[test]
fn success_records_are_info_and_failures_warnings() {
    let mut telemetry = TelemetryObservability::default();

    let success = telemetry.record(AuthBusinessEvent::PasswordChanged {
        account_id: 3,
        username: "demo".to_string(),
    });
    assert_eq!(success.level, TelemetryLevel::Info);
    assert_eq!(success.event, "password_changed");
    assert_eq!(success.message, "password changed");
    assert_eq!(success.metric, "metric_password_changed");
    assert_eq!(success.reason, None);

    let locked = telemetry.record(AuthBusinessEvent::AccountLocked {
        account_id: 3,
        username: "demo".to_string(),
        failed_attempts: 3,
    });
    assert_eq!(locked.level, TelemetryLevel::Warn);
    assert_eq!(locked.event, "account_locked");
    assert_eq!(locked.metric, "metric_account_locked");
    assert_eq!(locked.reason, None);

    let reset_failed = telemetry.record(AuthBusinessEvent::PasswordResetFailed {
        reason: PasswordResetFailureReason::InvalidToken,
    });
    assert_eq!(reset_failed.level, TelemetryLevel::Warn);
    assert_eq!(reset_failed.message, "password reset failed");
    assert_eq!(reset_failed.reason, Some("invalid_token"));
}

#[test]
fn emitted_events_wait_to_be_drained() {
    let mut telemetry = TelemetryObservability::default();

    telemetry.emit(AuthBusinessEvent::LogoutFailed {
        reason: LogoutFailureReason::MissingBearerToken,
    });
    telemetry.emit(AuthBusinessEvent::MeLookupFailed {
        reason: MeLookupFailureReason::InvalidOrRevokedToken,
    });

    let records = telemetry.drain_records();
    assert_eq!(records.len(), 2);
    assert_eq!(records[0].event, "logout_failed");
    assert_eq!(records[0].reason, Some("missing_bearer_token"));
    assert_eq!(records[1].event, "me_lookup_failed");
    assert_eq!(records[1].reason, Some("invalid_or_revoked_token"));
    assert_eq!(
        records[1].payload,
        AuthBusinessEvent::MeLookupFailed {
            reason: MeLookupFailureReason::InvalidOrRevokedToken,
        }
    );
    assert!(telemetry.drain_records().is_empty());
}

#[test]
fn failure_reasons_have_snake_case_names() {
    assert_eq!(login_failure_reason(LoginFailureReason::UnknownUsername), "unknown_username");
    assert_eq!(login_failure_reason(LoginFailureReason::WrongPassword), "wrong_password");
    assert_eq!(login_failure_reason(LoginFailureReason::AccountLocked), "account_locked");
    assert_eq!(login_failure_reason(LoginFailureReason::SelfExcluded), "self_excluded");
    assert_eq!(
        password_change_failure_reason(PasswordChangeFailureReason::InvalidCurrentPassword),
        "invalid_current_password"
    );
    assert_eq!(
        password_change_failure_reason(PasswordChangeFailureReason::PasswordReuseNotAllowed),
        "password_reuse_not_allowed"
    );
    assert_eq!(
        password_reset_failure_reason(PasswordResetFailureReason::PasswordReuseNotAllowed),
        "password_reuse_not_allowed"
    );
    assert_eq!(
        logout_failure_reason(LogoutFailureReason::InvalidOrRevokedToken),
        "invalid_or_revoked_token"
    );
    assert_eq!(
        me_lookup_failure_reason(MeLookupFailureReason::MissingBearerToken),
        "missing_bearer_token"
    );
}
