//! The core authentication decision for username and password login.

use vstd::prelude::*;

use crate::app::ports::{
    account_under, accounts_after_save, emit_all, AuthAccountRepository, AuthBusinessEvent,
    ComplianceService, LoginFailureReason, Observability,
};
use crate::domain::auth_account::AuthAccount;

use super::commands::LoginRequest;
use super::errors::LoginError;

verus! {

/// Successful internal authentication outcome.
#[derive(Debug, Clone)]
pub struct AuthenticationSuccess {
    pub account: AuthAccount,
}

/// Application-facing interface for the core authentication decision.
pub trait AuthenticateUseCase: Sized {
    /// The result authenticating `req` gives in the current state.
    spec fn authentication(&self, req: LoginRequest) -> Result<AuthenticationSuccess, LoginError>;

    /// Whether `after` is a state authenticating `req` may leave behind.
    spec fn authentication_leaves(&self, req: LoginRequest, after: Self) -> bool;

    fn authenticate(&mut self, req: LoginRequest) -> (result: Result<
        AuthenticationSuccess,
        LoginError,
    >)
        ensures
            result == old(self).authentication(req),
            old(self).authentication_leaves(req, *final(self)),
    ;
}

/// Consecutive wrong passwords after which an account is locked.
pub const MAX_FAILED_LOGIN_ATTEMPTS: u32 = 3;

/// Whether the stored account exists, is not locked, and holds the supplied password.
pub open spec fn password_verified(req: LoginRequest, stored: Option<AuthAccount>) -> bool {
    stored matches Some(account) && !account.is_locked && req.password@ == account.password_hash@
}

/// For an attempt whose password is not verified: the error, the account to save, and the
/// events to emit.
pub open spec fn credential_rejection(req: LoginRequest, stored: Option<AuthAccount>) -> (
    LoginError,
    Option<AuthAccount>,
    Seq<AuthBusinessEvent>,
) {
    match stored {
        None => (
            LoginError::InvalidCredentials,
            None,
            seq![
                AuthBusinessEvent::LoginFailed {
                    username: req.username,
                    reason: LoginFailureReason::UnknownUsername,
                },
            ],
        ),
        Some(account) => if account.is_locked {
            (
                LoginError::AccountLocked,
                None,
                seq![
                    AuthBusinessEvent::LoginFailed {
                        username: account.username,
                        reason: LoginFailureReason::AccountLocked,
                    },
                ],
            )
        } else {
            let updated = account.after_failed_login(MAX_FAILED_LOGIN_ATTEMPTS);
            let failed = AuthBusinessEvent::LoginFailed {
                username: req.username,
                reason: LoginFailureReason::WrongPassword,
            };
            if updated.is_locked {
                (
                    LoginError::AccountLocked,
                    Some(updated),
                    seq![
                        failed,
                        AuthBusinessEvent::AccountLocked {
                            account_id: account.id,
                            username: req.username,
                            failed_attempts: updated.failed_login_attempts,
                        },
                    ],
                )
            } else {
                (LoginError::InvalidCredentials, Some(updated), seq![failed])
            }
        },
    }
}

/// For an account whose password is verified: the result, the account to save and the
/// event, given the compliance answer. An excluded account is refused and left as stored; an
/// admitted one has its failures cleared and is saved.
pub open spec fn compliance_outcome(account: AuthAccount, excluded: bool) -> (
    Result<AuthenticationSuccess, LoginError>,
    Option<AuthAccount>,
    AuthBusinessEvent,
) {
    if excluded {
        (
            Err(LoginError::SelfExcluded),
            None,
            AuthBusinessEvent::LoginFailed {
                username: account.username,
                reason: LoginFailureReason::SelfExcluded,
            },
        )
    } else {
        let cleared = account.with_failures_cleared();
        (
            Ok(AuthenticationSuccess { account: cleared }),
            Some(cleared),
            AuthBusinessEvent::LoginSucceeded {
                account_id: cleared.id,
                username: cleared.username,
            },
        )
    }
}

/// The whole authentication decision, given the account stored under the requested username
/// and the compliance answer: the result, the account to save, and the events to emit.
pub open spec fn authentication_outcome(
    req: LoginRequest,
    stored: Option<AuthAccount>,
    excluded: bool,
) -> (Result<AuthenticationSuccess, LoginError>, Option<AuthAccount>, Seq<AuthBusinessEvent>) {
    if password_verified(req, stored) {
        let (result, saved, event) = compliance_outcome(stored.unwrap(), excluded);
        (result, saved, seq![event])
    } else {
        let (error, updated, events) = credential_rejection(req, stored);
        (Err(error), updated, events)
    }
}

/// Where a login attempt stands after the password check.
pub enum CredentialCheck {
    /// The attempt fails; `updated` is the account state to save, if any.
    Rejected { error: LoginError, updated: Option<AuthAccount>, events: Vec<AuthBusinessEvent> },
    /// The password matches the stored, unlocked `account`.
    Verified { account: AuthAccount },
}

/// Checks the supplied credentials against the account stored under the requested username.
pub fn check_credentials(req: &LoginRequest, stored: Option<AuthAccount>) -> (check:
    CredentialCheck)
    ensures
        match check {
            CredentialCheck::Verified { account } => password_verified(*req, stored) && account
                == stored.unwrap(),
            CredentialCheck::Rejected { error, updated, events } => !password_verified(
                *req,
                stored,
            ) && (error, updated, events@) == credential_rejection(*req, stored),
        },
{
    match stored {
        None => {
            let mut events = Vec::new();
            events.push(
                AuthBusinessEvent::LoginFailed {
                    username: req.username.clone(),
                    reason: LoginFailureReason::UnknownUsername,
                },
            );
            CredentialCheck::Rejected { error: LoginError::InvalidCredentials, updated: None, events }
        },
        Some(account) => {
            let mut account = account;
            if account.is_locked {
                let mut events = Vec::new();
                events.push(
                    AuthBusinessEvent::LoginFailed {
                        username: account.username.clone(),
                        reason: LoginFailureReason::AccountLocked,
                    },
                );
                CredentialCheck::Rejected { error: LoginError::AccountLocked, updated: None, events }
            } else if !(req.password == account.password_hash) {
                if account.failed_login_attempts < u32::MAX {
                    account.record_failed_login_attempt(MAX_FAILED_LOGIN_ATTEMPTS);
                } else {
                    // The count cannot grow further and is already past the threshold.
                    account.is_locked = true;
                }
                let is_now_locked = account.is_locked;
                let account_id = account.id;
                let failed_attempts = account.failed_login_attempts;
                let mut events = Vec::new();
                events.push(
                    AuthBusinessEvent::LoginFailed {
                        username: req.username.clone(),
                        reason: LoginFailureReason::WrongPassword,
                    },
                );
                if is_now_locked {
                    events.push(
                        AuthBusinessEvent::AccountLocked {
                            account_id,
                            username: req.username.clone(),
                            failed_attempts,
                        },
                    );
                }
                let error = if is_now_locked {
                    LoginError::AccountLocked
                } else {
                    LoginError::InvalidCredentials
                };
                CredentialCheck::Rejected { error, updated: Some(account), events }
            } else {
                CredentialCheck::Verified { account }
            }
        },
    }
}

/// Completes authentication of a verified account from the compliance answer.
pub fn compliance_decision(account: AuthAccount, excluded: bool) -> (decision: (
    Result<AuthenticationSuccess, LoginError>,
    Option<AuthAccount>,
    AuthBusinessEvent,
))
    ensures
        decision == compliance_outcome(account, excluded),
{
    if excluded {
        let event = AuthBusinessEvent::LoginFailed {
            username: account.username.clone(),
            reason: LoginFailureReason::SelfExcluded,
        };
        (Err(LoginError::SelfExcluded), None, event)
    } else {
        let mut account = account;
        account.clear_failed_login_attempts();
        let event = AuthBusinessEvent::LoginSucceeded {
            account_id: account.id,
            username: account.username.clone(),
        };
        let saved = account.duplicate();
        (Ok(AuthenticationSuccess { account }), Some(saved), event)
    }
}

/// Core authentication decision service for username and password login.
pub struct AuthenticationService<R: AuthAccountRepository, C: ComplianceService, O: Observability> {
    auth_accounts: R,
    compliance: C,
    observability: O,
}

impl<R: AuthAccountRepository, C: ComplianceService, O: Observability> AuthenticationService<
    R,
    C,
    O,
> {
    /// The account repository the service reads and saves through.
    pub closed spec fn auth_accounts(&self) -> R {
        self.auth_accounts
    }

    /// The compliance check the service consults.
    pub closed spec fn compliance(&self) -> C {
        self.compliance
    }

    /// The observability port the service reports to.
    pub closed spec fn observability(&self) -> O {
        self.observability
    }

    /// What authenticating `req` gives in this state: the account stored under the requested
    /// username, the compliance answer for it, and `authentication_outcome` of the two.
    pub open spec fn outcome(&self, req: LoginRequest) -> (
        Result<AuthenticationSuccess, LoginError>,
        Option<AuthAccount>,
        Seq<AuthBusinessEvent>,
    ) {
        let stored = account_under(self.auth_accounts().accounts(), req.username@);
        let excluded = match stored {
            Some(account) => self.compliance().excluded(account.id),
            None => false,
        };
        authentication_outcome(req, stored, excluded)
    }

    /// Creates an authentication service from its required ports.
    pub fn new(auth_accounts: R, compliance: C, observability: O) -> (service: Self)
        ensures
            service.auth_accounts() == auth_accounts,
            service.compliance() == compliance,
            service.observability() == observability,
    {
        AuthenticationService { auth_accounts, compliance, observability }
    }
}

impl<R: AuthAccountRepository, C: ComplianceService, O: Observability> AuthenticateUseCase for
    AuthenticationService<R, C, O> {
    /// The result for the account stored under the requested username and the compliance
    /// answer for it.
    open spec fn authentication(&self, req: LoginRequest) -> Result<
        AuthenticationSuccess,
        LoginError,
    > {
        self.outcome(req).0
    }

    /// The account state of `outcome` saved, its events emitted, compliance untouched.
    open spec fn authentication_leaves(&self, req: LoginRequest, after: Self) -> bool {
        &&& after.auth_accounts().accounts() == accounts_after_save(
            self.auth_accounts().accounts(),
            self.outcome(req).1,
        )
        &&& after.observability().emitted() == self.observability().emitted() + self.outcome(
            req,
        ).2
        &&& after.compliance() == self.compliance()
    }

    /// Looks the account up, checks the password (recording failures and locking on the third
    /// consecutive one), consults compliance for a verified password, saves the account state
    /// and emits the business events, all as `outcome` says.
    fn authenticate(&mut self, req: LoginRequest) -> (result: Result<AuthenticationSuccess, LoginError>)
    {
        let stored = self.auth_accounts.get_by_username(req.username.as_str());
        let check = check_credentials(&req, stored);
        match check {
            CredentialCheck::Rejected { error, updated, events } => {
                match updated {
                    Some(account) => {
                        self.auth_accounts.save(account);
                    },
                    None => {},
                }
                emit_all(&mut self.observability, events);
                Err(error)
            },
            CredentialCheck::Verified { account } => {
                let excluded = self.compliance.is_excluded(account.id);
                let (result, saved, event) = compliance_decision(account, excluded);
                match saved {
                    Some(account) => {
                        self.auth_accounts.save(account);
                    },
                    None => {},
                }
                let mut events = Vec::new();
                events.push(event);
                emit_all(&mut self.observability, events);
                result
            },
        }
    }
}

/// A wrong password on an unlocked account counts one more consecutive failure, which is
/// saved; the failure that brings the count to `MAX_FAILED_LOGIN_ATTEMPTS` locks the account
/// and is answered `AccountLocked`, earlier ones `InvalidCredentials`.
pub proof fn lemma_wrong_password_counts_toward_lockout(
    req: LoginRequest,
    account: AuthAccount,
    excluded: bool,
)
    requires
        !account.is_locked,
        req.password@ != account.password_hash@,
        account.failed_login_attempts < u32::MAX,
    ensures
        ({
            let outcome = authentication_outcome(req, Some(account), excluded);
            let count = account.failed_login_attempts + 1;
            &&& outcome.1 matches Some(saved) && saved.failed_login_attempts == count
                && saved.is_locked == (count >= MAX_FAILED_LOGIN_ATTEMPTS)
            &&& outcome.0 == Err::<AuthenticationSuccess, LoginError>(
                if count >= MAX_FAILED_LOGIN_ATTEMPTS {
                    LoginError::AccountLocked
                } else {
                    LoginError::InvalidCredentials
                },
            )
        }),
{
}

/// Three consecutive wrong passwords on an unlocked account with no failures: the first two
/// are refused as invalid credentials, the third locks the account, and afterwards even the
/// right password is refused.
pub proof fn lemma_three_wrong_passwords_lock_the_account(
    wrong: LoginRequest,
    right: LoginRequest,
    account: AuthAccount,
    excluded: bool,
)
    requires
        !account.is_locked,
        account.failed_login_attempts == 0,
        wrong.password@ != account.password_hash@,
        right.password@ == account.password_hash@,
    ensures
        ({
            let first = authentication_outcome(wrong, Some(account), excluded);
            let second = authentication_outcome(wrong, first.1, excluded);
            let third = authentication_outcome(wrong, second.1, excluded);
            let after = authentication_outcome(right, third.1, excluded);
            &&& first.0 == Err::<AuthenticationSuccess, LoginError>(LoginError::InvalidCredentials)
            &&& second.0 == Err::<AuthenticationSuccess, LoginError>(LoginError::InvalidCredentials)
            &&& third.0 == Err::<AuthenticationSuccess, LoginError>(LoginError::AccountLocked)
            &&& third.1 matches Some(locked) && locked.is_locked
            &&& after.0 == Err::<AuthenticationSuccess, LoginError>(LoginError::AccountLocked)
        }),
{
}

/// A locked account is never authenticated, whatever the password, and is left as it is.
pub proof fn lemma_locked_account_is_refused(
    req: LoginRequest,
    account: AuthAccount,
    excluded: bool,
)
    requires
        account.is_locked,
    ensures
        authentication_outcome(req, Some(account), excluded).0 == Err::<
            AuthenticationSuccess,
            LoginError,
        >(LoginError::AccountLocked),
        authentication_outcome(req, Some(account), excluded).1 is None,
{
}

/// The right password on an unlocked account that compliance admits succeeds, clears its
/// consecutive failures and saves it, and the success carries exactly the saved account; one
/// that compliance excludes is refused as self-excluded and left as stored.
pub proof fn lemma_right_password_clears_failures(
    req: LoginRequest,
    account: AuthAccount,
    excluded: bool,
)
    requires
        !account.is_locked,
        req.password@ == account.password_hash@,
    ensures
        ({
            let outcome = authentication_outcome(req, Some(account), excluded);
            &&& !excluded ==> outcome.1 == Some(account.with_failures_cleared())
                && outcome.0 == Ok::<AuthenticationSuccess, LoginError>(
                AuthenticationSuccess { account: account.with_failures_cleared() },
            )
            &&& excluded ==> outcome.1 is None && outcome.0 == Err::<
                AuthenticationSuccess,
                LoginError,
            >(LoginError::SelfExcluded)
        }),
{
}

/// One authentication against the stored accounts `accounts` with the compliance answer
/// `excluded`: the result and the stored accounts afterwards.
pub open spec fn authentication_step(
    accounts: Map<Seq<char>, AuthAccount>,
    excluded: bool,
    req: LoginRequest,
) -> (Result<AuthenticationSuccess, LoginError>, Map<Seq<char>, AuthAccount>) {
    let outcome = authentication_outcome(req, account_under(accounts, req.username@), excluded);
    (outcome.0, accounts_after_save(accounts, outcome.1))
}

/// Three consecutive logins with a wrong password against a stored, unlocked account with no
/// failures: the first two are refused as invalid credentials, the third locks the stored
/// account, and a fourth login, even with the right password, is refused as locked.
pub proof fn lemma_stored_account_locks_after_three_wrong_passwords(
    accounts: Map<Seq<char>, AuthAccount>,
    excluded: bool,
    wrong: LoginRequest,
    right: LoginRequest,
)
    requires
        accounts.contains_key(wrong.username@),
        accounts[wrong.username@].username@ == wrong.username@,
        !accounts[wrong.username@].is_locked,
        accounts[wrong.username@].failed_login_attempts == 0,
        wrong.password@ != accounts[wrong.username@].password_hash@,
        right.username@ == wrong.username@,
        right.password@ == accounts[wrong.username@].password_hash@,
    ensures
        ({
            let first = authentication_step(accounts, excluded, wrong);
            let second = authentication_step(first.1, excluded, wrong);
            let third = authentication_step(second.1, excluded, wrong);
            let after = authentication_step(third.1, excluded, right);
            &&& first.0 == Err::<AuthenticationSuccess, LoginError>(LoginError::InvalidCredentials)
            &&& second.0 == Err::<AuthenticationSuccess, LoginError>(LoginError::InvalidCredentials)
            &&& third.0 == Err::<AuthenticationSuccess, LoginError>(LoginError::AccountLocked)
            &&& third.1[wrong.username@].is_locked
            &&& third.1[wrong.username@].failed_login_attempts == 3
            &&& after.0 == Err::<AuthenticationSuccess, LoginError>(LoginError::AccountLocked)
        }),
{
    let u = wrong.username@;
    let first = authentication_step(accounts, excluded, wrong);
    assert(first.1.contains_key(u) && first.1[u].failed_login_attempts == 1);
    let second = authentication_step(first.1, excluded, wrong);
    assert(second.1.contains_key(u) && second.1[u].failed_login_attempts == 2);
    let third = authentication_step(second.1, excluded, wrong);
    assert(third.1.contains_key(u) && third.1[u].is_locked);
}

/// A login whose password matches the stored, unlocked account is refused as self-excluded
/// exactly when compliance excludes that account's own id; otherwise it succeeds with that
/// account (same id, username and password, unlocked, no failures).
pub proof fn lemma_compliance_decides_on_the_authenticated_account<
    R: AuthAccountRepository,
    C: ComplianceService,
    O: Observability,
>(service: AuthenticationService<R, C, O>, req: LoginRequest)
    requires
        service.auth_accounts().accounts().contains_key(req.username@),
        !service.auth_accounts().accounts()[req.username@].is_locked,
        req.password@ == service.auth_accounts().accounts()[req.username@].password_hash@,
    ensures
        ({
            let account = service.auth_accounts().accounts()[req.username@];
            let result = service.authentication(req);
            &&& (result == Err::<AuthenticationSuccess, LoginError>(LoginError::SelfExcluded))
                <==> service.compliance().excluded(account.id)
            &&& !service.compliance().excluded(account.id) ==> (result matches Ok(success)
                && success.account.id == account.id && success.account.username
                == account.username && success.account.password_hash == account.password_hash
                && !success.account.is_locked && success.account.failed_login_attempts == 0)
        }),
{
}

} // verus!
