//! The change-password use case: replace the password after verifying the current one.

use vstd::prelude::*;
use vstd::string::*;

use crate::app::ports::{
    account_under, accounts_after_save, emit_all, AuthAccountRepository, AuthBusinessEvent,
    Observability, PasswordChangeFailureReason,
};
use crate::domain::auth_account::AuthAccount;

use super::authenticate::password_verified;
use super::commands::LoginRequest;

verus! {

#[derive(Debug)]
pub struct ChangePasswordRequest {
    pub username: String,
    pub current_password: String,
    pub new_password: String,
}

#[derive(Debug, PartialEq, Eq)]
pub struct ChangePasswordResponse {
    pub message: String,
}

#[derive(Debug, Clone, Copy, PartialEq, Eq)]
pub enum ChangePasswordError {
    InvalidCredentials,
    AccountLocked,
    PasswordReuseNotAllowed,
}

pub type ChangePasswordResult = Result<ChangePasswordResponse, ChangePasswordError>;

pub trait ChangePasswordUseCase: Sized {
    /// Whether a change of `req` in the current state may answer `result` and leave `after`.
    spec fn change_step(&self, req: ChangePasswordRequest, result: ChangePasswordResult, after: Self) -> bool;

    fn change_password(&mut self, req: ChangePasswordRequest) -> (result: ChangePasswordResult)
        ensures
            old(self).change_step(req, result, *final(self)),
    ;
}

/// The change-password decision, given the account stored under the requested username:
/// the error (`None` on success), the account to save, and the events to emit.
pub open spec fn password_change_outcome(
    req: ChangePasswordRequest,
    stored: Option<AuthAccount>,
) -> (Option<ChangePasswordError>, Option<AuthAccount>, Seq<AuthBusinessEvent>) {
    match stored {
        None => (
            Some(ChangePasswordError::InvalidCredentials),
            None,
            seq![
                AuthBusinessEvent::PasswordChangeFailed {
                    username: req.username,
                    reason: PasswordChangeFailureReason::UnknownUsername,
                },
            ],
        ),
        Some(account) => if account.is_locked {
            (
                Some(ChangePasswordError::AccountLocked),
                None,
                seq![
                    AuthBusinessEvent::PasswordChangeFailed {
                        username: account.username,
                        reason: PasswordChangeFailureReason::AccountLocked,
                    },
                ],
            )
        } else if account.password_hash@ != req.current_password@ {
            (
                Some(ChangePasswordError::InvalidCredentials),
                None,
                seq![
                    AuthBusinessEvent::PasswordChangeFailed {
                        username: account.username,
                        reason: PasswordChangeFailureReason::InvalidCurrentPassword,
                    },
                ],
            )
        } else if account.password_hash@ == req.new_password@ {
            (
                Some(ChangePasswordError::PasswordReuseNotAllowed),
                None,
                seq![
                    AuthBusinessEvent::PasswordChangeFailed {
                        username: account.username,
                        reason: PasswordChangeFailureReason::PasswordReuseNotAllowed,
                    },
                ],
            )
        } else {
            (
                None,
                Some(account.with_password(req.new_password)),
                seq![
                    AuthBusinessEvent::PasswordChanged {
                        account_id: account.id,
                        username: account.username,
                    },
                ],
            )
        },
    }
}

/// Whether `result` is the use case's answer for the decided error (`None` on success).
pub open spec fn password_change_result(
    result: ChangePasswordResult,
    error: Option<ChangePasswordError>,
) -> bool {
    match error {
        Some(e) => result == Err::<ChangePasswordResponse, ChangePasswordError>(e),
        None => result matches Ok(response) && response.message@ == "Password changed"@,
    }
}

/// Decides a password change against the account stored under the requested username:
/// the result, the account to save, and the events to emit.
pub fn decide_password_change(req: ChangePasswordRequest, stored: Option<AuthAccount>) -> (decision: (
    ChangePasswordResult,
    Option<AuthAccount>,
    Vec<AuthBusinessEvent>,
))
    ensures
        ({
            let (error, saved, events) = password_change_outcome(req, stored);
            &&& password_change_result(decision.0, error)
            &&& decision.1 == saved
            &&& decision.2@ == events
        }),
{
    let mut events = Vec::new();
    match stored {
        None => {
            events.push(
                AuthBusinessEvent::PasswordChangeFailed {
                    username: req.username,
                    reason: PasswordChangeFailureReason::UnknownUsername,
                },
            );
            (Err(ChangePasswordError::InvalidCredentials), None, events)
        },
        Some(account) => {
            let mut account = account;
            if account.is_locked {
                events.push(
                    AuthBusinessEvent::PasswordChangeFailed {
                        username: account.username.clone(),
                        reason: PasswordChangeFailureReason::AccountLocked,
                    },
                );
                (Err(ChangePasswordError::AccountLocked), None, events)
            } else if !(account.password_hash == req.current_password) {
                events.push(
                    AuthBusinessEvent::PasswordChangeFailed {
                        username: account.username.clone(),
                        reason: PasswordChangeFailureReason::InvalidCurrentPassword,
                    },
                );
                (Err(ChangePasswordError::InvalidCredentials), None, events)
            } else if account.password_hash == req.new_password {
                events.push(
                    AuthBusinessEvent::PasswordChangeFailed {
                        username: account.username.clone(),
                        reason: PasswordChangeFailureReason::PasswordReuseNotAllowed,
                    },
                );
                (Err(ChangePasswordError::PasswordReuseNotAllowed), None, events)
            } else {
                let account_id = account.id;
                let username = account.username.clone();
                account.set_password(req.new_password);
                events.push(AuthBusinessEvent::PasswordChanged { account_id, username });
                let response = ChangePasswordResponse { message: String::from_str("Password changed") };
                (Ok(response), Some(account), events)
            }
        },
    }
}

/// Changes the current password after verifying the existing credential.
pub struct ChangePasswordService<R: AuthAccountRepository, O: Observability> {
    auth_accounts: R,
    observability: O,
}

impl<R: AuthAccountRepository, O: Observability> ChangePasswordService<R, O> {
    /// The account repository the service reads and saves through.
    pub closed spec fn auth_accounts(&self) -> R {
        self.auth_accounts
    }

    /// The observability port the service reports to.
    pub closed spec fn observability(&self) -> O {
        self.observability
    }

    /// What changing the password for `req` gives in this state: `password_change_outcome`
    /// for the account stored under the requested username.
    pub open spec fn outcome(&self, req: ChangePasswordRequest) -> (
        Option<ChangePasswordError>,
        Option<AuthAccount>,
        Seq<AuthBusinessEvent>,
    ) {
        password_change_outcome(req, account_under(self.auth_accounts().accounts(), req.username@))
    }

    pub fn new(auth_accounts: R, observability: O) -> (service: Self)
        ensures
            service.auth_accounts() == auth_accounts,
            service.observability() == observability,
    {
        ChangePasswordService { auth_accounts, observability }
    }
}

impl<R: AuthAccountRepository, O: Observability> ChangePasswordUseCase for ChangePasswordService<
    R,
    O,
> {
    /// The answer for the decided error of `outcome`, its account saved, its events emitted.
    open spec fn change_step(&self, req: ChangePasswordRequest, result: ChangePasswordResult, after: Self) -> bool {
        &&& password_change_result(result, self.outcome(req).0)
        &&& after.auth_accounts().accounts() == accounts_after_save(
            self.auth_accounts().accounts(),
            self.outcome(req).1,
        )
        &&& after.observability().emitted() == self.observability().emitted() + self.outcome(
            req,
        ).2
    }

    /// Looks the account up, decides the change, saves a changed account and emits the
    /// events, all as `outcome` says.
    fn change_password(&mut self, req: ChangePasswordRequest) -> (result: ChangePasswordResult) {
        let stored = self.auth_accounts.get_by_username(req.username.as_str());
        let (result, saved, events) = decide_password_change(req, stored);
        match saved {
            Some(account) => {
                self.auth_accounts.save(account);
            },
            None => {},
        }
        emit_all(&mut self.observability, events);
        result
    }
}

/// A wrong current password changes nothing, and is refused as invalid credentials.
pub proof fn lemma_change_requires_current_password(
    req: ChangePasswordRequest,
    account: AuthAccount,
)
    requires
        !account.is_locked,
        account.password_hash@ != req.current_password@,
    ensures
        password_change_outcome(req, Some(account)).0 == Some(
            ChangePasswordError::InvalidCredentials,
        ),
        password_change_outcome(req, Some(account)).1 is None,
{
}

/// A successful change stores the new password on the unlocked account with its failures and
/// any pending reset cleared: the new password then verifies at login, the old one does not.
pub proof fn lemma_changed_password_replaces_the_old_one(
    req: ChangePasswordRequest,
    account: AuthAccount,
    with_new: LoginRequest,
    with_old: LoginRequest,
)
    requires
        password_change_outcome(req, Some(account)).0 is None,
        with_new.password@ == req.new_password@,
        with_old.password@ == account.password_hash@,
    ensures
        ({
            let saved = password_change_outcome(req, Some(account)).1;
            &&& saved == Some(account.with_password(req.new_password))
            &&& password_verified(with_new, saved)
            &&& !password_verified(with_old, saved)
        }),
{
}

/// A change-password request against a locked stored account is refused as locked and
/// saves nothing, whatever current and new passwords it carries.
pub proof fn lemma_locked_account_cannot_change_password<R: AuthAccountRepository, O: Observability>(
    service: ChangePasswordService<R, O>,
    req: ChangePasswordRequest,
    result: ChangePasswordResult,
    after: ChangePasswordService<R, O>,
)
    requires
        service.auth_accounts().accounts().contains_key(req.username@),
        service.auth_accounts().accounts()[req.username@].is_locked,
        service.change_step(req, result, after),
    ensures
        result == Err::<ChangePasswordResponse, ChangePasswordError>(
            ChangePasswordError::AccountLocked,
        ),
        after.auth_accounts().accounts() == service.auth_accounts().accounts(),
{
}

/// A successful change keeps the account's identity: the account stored under the username
/// afterwards has the same id and username, the new password, and is unlocked with no
/// failures and no pending reset.
pub proof fn lemma_changed_password_keeps_identity<R: AuthAccountRepository, O: Observability>(
    service: ChangePasswordService<R, O>,
    req: ChangePasswordRequest,
    result: ChangePasswordResult,
    after: ChangePasswordService<R, O>,
)
    requires
        service.auth_accounts().accounts().contains_key(req.username@),
        service.auth_accounts().accounts()[req.username@].username@ == req.username@,
        service.change_step(req, result, after),
        result is Ok,
    ensures
        ({
            let before = service.auth_accounts().accounts()[req.username@];
            let stored = after.auth_accounts().accounts()[req.username@];
            &&& after.auth_accounts().accounts().contains_key(req.username@)
            &&& stored.id == before.id
            &&& stored.username == before.username
            &&& stored.password_hash@ == req.new_password@
            &&& !stored.is_locked
            &&& stored.failed_login_attempts == 0
            &&& stored.password_reset_token is None
        }),
{
}

} // verus!
