//! The forgot-password and reset-password use cases.

use vstd::prelude::*;
use vstd::string::*;

use crate::app::ports::{
    account_under, accounts_after_save, bound_to_token, emit_all, found_by_reset_token,
    AuthAccountRepository,
    AuthBusinessEvent, Observability, PasswordResetFailureReason,
};
use crate::domain::auth_account::AuthAccount;
use super::authenticate::{authentication_step, AuthenticationSuccess};
use super::commands::LoginRequest;
use super::errors::LoginError;
use crate::text::{
    decimal_string, decimal_text, lemma_decimal_text_digits, lemma_decimal_text_injective,
};

verus! {

/// Seconds for which an issued reset token stays valid.
pub const RESET_TOKEN_TTL_SECONDS: u64 = 900;

#[derive(Debug)]
pub struct ForgotPasswordRequest {
    pub username: String,
}

#[derive(Debug, PartialEq, Eq)]
pub struct ForgotPasswordResponse {
    pub message: String,
    pub reset_token: String,
}

#[derive(Debug)]
pub struct ResetPasswordRequest {
    pub token: String,
    pub new_password: String,
}

#[derive(Debug, PartialEq, Eq)]
pub struct ResetPasswordResponse {
    pub message: String,
}

#[derive(Debug, Clone, Copy, PartialEq, Eq)]
pub enum ResetPasswordError {
    InvalidToken,
    PasswordReuseNotAllowed,
}

pub type ResetPasswordResult = Result<ResetPasswordResponse, ResetPasswordError>;

/// `now` is the current Unix time in seconds.
pub trait PasswordResetUseCase: Sized {
    /// Whether a reset request for `req` at `now` in the current state may answer `response`
    /// and leave `after`.
    spec fn reset_request_step(
        &self,
        req: ForgotPasswordRequest,
        now: u64,
        response: ForgotPasswordResponse,
        after: Self,
    ) -> bool;

    /// Whether a reset of `req` at `now` in the current state may answer `result` and leave
    /// `after`.
    spec fn reset_step(
        &self,
        req: ResetPasswordRequest,
        now: u64,
        result: ResetPasswordResult,
        after: Self,
    ) -> bool;

    fn request_reset(&mut self, req: ForgotPasswordRequest, now: u64) -> (response:
        ForgotPasswordResponse)
        requires
            now <= u64::MAX - RESET_TOKEN_TTL_SECONDS,
        ensures
            old(self).reset_request_step(req, now, response, *final(self)),
    ;

    fn reset_password(&mut self, req: ResetPasswordRequest, now: u64) -> (result: ResetPasswordResult)
        ensures
            old(self).reset_step(req, now, result, *final(self)),
    ;
}

/// The text of the reset token issued at `now` with sequence number `id`: "reset-{now}-{id}".
pub open spec fn reset_token_text(now: u64, id: u64) -> Seq<char> {
    "reset-"@ + decimal_text(now as nat) + "-"@ + decimal_text(id as nat)
}

/// The message returned for every reset request, whether or not the account exists.
pub open spec fn reset_requested_message() -> Seq<char> {
    "If the account exists, reset instructions have been issued"@
}

/// A reset request's effect, given the account stored under the requested username and the
/// token issued for it: the account to save and the events to emit.
pub open spec fn reset_request_outcome(
    req: ForgotPasswordRequest,
    stored: Option<AuthAccount>,
    token: String,
    now: u64,
) -> (Option<AuthAccount>, Seq<AuthBusinessEvent>) {
    (
        match stored {
            Some(account) => Some(
                account.with_password_reset(token, (now + RESET_TOKEN_TTL_SECONDS) as u64),
            ),
            None => None,
        },
        seq![
            AuthBusinessEvent::PasswordResetRequested {
                username: req.username,
                account_found: stored is Some,
            },
        ],
    )
}

/// Decides a reset request: the response, the account to save, and the events to emit.
pub fn decide_reset_request(
    req: ForgotPasswordRequest,
    stored: Option<AuthAccount>,
    reset_token: String,
    now: u64,
) -> (decision: (ForgotPasswordResponse, Option<AuthAccount>, Vec<AuthBusinessEvent>))
    requires
        now <= u64::MAX - RESET_TOKEN_TTL_SECONDS,
    ensures
        decision.0.message@ == reset_requested_message(),
        decision.0.reset_token == reset_token,
        (decision.1, decision.2@) == reset_request_outcome(req, stored, reset_token, now),
{
    let account_found = stored.is_some();
    let saved = match stored {
        Some(account) => {
            let mut account = account;
            account.issue_password_reset(reset_token.clone(), now + RESET_TOKEN_TTL_SECONDS);
            Some(account)
        },
        None => None,
    };
    let mut events = Vec::new();
    events.push(AuthBusinessEvent::PasswordResetRequested { username: req.username, account_found });
    let response = ForgotPasswordResponse {
        message: String::from_str("If the account exists, reset instructions have been issued"),
        reset_token,
    };
    (response, saved, events)
}

/// The reset decision, given the account bound to the supplied token: the error (`None` on
/// success), the account to save, and the events to emit.
pub open spec fn password_reset_outcome(
    req: ResetPasswordRequest,
    stored: Option<AuthAccount>,
    now: u64,
) -> (Option<ResetPasswordError>, Option<AuthAccount>, Seq<AuthBusinessEvent>) {
    let invalid = (
        Some(ResetPasswordError::InvalidToken),
        None,
        seq![AuthBusinessEvent::PasswordResetFailed { reason: PasswordResetFailureReason::InvalidToken }],
    );
    match stored {
        None => invalid,
        Some(account) => if !account.accepts_reset(req.token@, now) {
            invalid
        } else if account.password_hash@ == req.new_password@ {
            (
                Some(ResetPasswordError::PasswordReuseNotAllowed),
                None,
                seq![
                    AuthBusinessEvent::PasswordResetFailed {
                        reason: PasswordResetFailureReason::PasswordReuseNotAllowed,
                    },
                ],
            )
        } else {
            (
                None,
                Some(account.with_password(req.new_password)),
                seq![
                    AuthBusinessEvent::PasswordResetCompleted {
                        account_id: account.id,
                        username: account.username,
                    },
                ],
            )
        },
    }
}

/// Whether `result` is the use case's answer for the decided error (`None` on success).
pub open spec fn password_reset_result(
    result: ResetPasswordResult,
    error: Option<ResetPasswordError>,
) -> bool {
    match error {
        Some(e) => result == Err::<ResetPasswordResponse, ResetPasswordError>(e),
        None => result matches Ok(response) && response.message@ == "Password reset"@,
    }
}

fn invalid_reset_token() -> (decision: (
    ResetPasswordResult,
    Option<AuthAccount>,
    Vec<AuthBusinessEvent>,
))
    ensures
        decision.0 == Err::<ResetPasswordResponse, ResetPasswordError>(
            ResetPasswordError::InvalidToken,
        ),
        decision.1 is None,
        decision.2@ == seq![
            AuthBusinessEvent::PasswordResetFailed {
                reason: PasswordResetFailureReason::InvalidToken,
            },
        ],
{
    let mut events = Vec::new();
    events.push(
        AuthBusinessEvent::PasswordResetFailed { reason: PasswordResetFailureReason::InvalidToken },
    );
    (Err(ResetPasswordError::InvalidToken), None, events)
}

/// Decides a password reset against the account bound to the supplied token: the result, the
/// account to save, and the events to emit.
pub fn decide_password_reset(req: ResetPasswordRequest, stored: Option<AuthAccount>, now: u64) -> (
decision: (ResetPasswordResult, Option<AuthAccount>, Vec<AuthBusinessEvent>))
    ensures
        ({
            let (error, saved, events) = password_reset_outcome(req, stored, now);
            &&& password_reset_result(decision.0, error)
            &&& decision.1 == saved
            &&& decision.2@ == events
        }),
{
    match stored {
        None => invalid_reset_token(),
        Some(account) => {
            let mut account = account;
            if !account.can_reset_with(req.token.as_str(), now) {
                invalid_reset_token()
            } else if account.password_hash == req.new_password {
                let mut events = Vec::new();
                events.push(
                    AuthBusinessEvent::PasswordResetFailed {
                        reason: PasswordResetFailureReason::PasswordReuseNotAllowed,
                    },
                );
                (Err(ResetPasswordError::PasswordReuseNotAllowed), None, events)
            } else {
                let account_id = account.id;
                let username = account.username.clone();
                account.set_password(req.new_password);
                let mut events = Vec::new();
                events.push(AuthBusinessEvent::PasswordResetCompleted { account_id, username });
                let response = ResetPasswordResponse { message: String::from_str("Password reset") };
                (Ok(response), Some(account), events)
            }
        },
    }
}

/// Issues password reset tokens and applies password resets for matching accounts.
pub struct PasswordResetService<R: AuthAccountRepository, O: Observability> {
    auth_accounts: R,
    next_token_id: u64,
    observability: O,
}

impl<R: AuthAccountRepository, O: Observability> PasswordResetService<R, O> {
    /// The sequence number the next issued reset token carries.
    pub closed spec fn next_token_id(&self) -> u64 {
        self.next_token_id
    }

    /// The account repository the service reads and saves through.
    pub closed spec fn auth_accounts(&self) -> R {
        self.auth_accounts
    }

    /// The observability port the service reports to.
    pub closed spec fn observability(&self) -> O {
        self.observability
    }

    pub fn new(auth_accounts: R, observability: O) -> (service: Self)
        ensures
            service.auth_accounts() == auth_accounts,
            service.observability() == observability,
            service.next_token_id() == 1,
    {
        PasswordResetService { auth_accounts, next_token_id: 1, observability }
    }

    /// Issues the next reset token, "reset-{now}-{n}", and advances the sequence number
    /// (wrapping, as an atomic counter does).
    fn next_reset_token(&mut self, now: u64) -> (token: String)
        ensures
            token@ == reset_token_text(now, old(self).next_token_id),
            final(self).next_token_id == following_token_id(old(self).next_token_id),
            final(self).auth_accounts == old(self).auth_accounts,
            final(self).observability == old(self).observability,
    {
        let id = self.next_token_id;
        self.next_token_id = if id == u64::MAX {
            0
        } else {
            id + 1
        };
        let mut token = String::from_str("reset-");
        let stamp = decimal_string(now);
        token.append(stamp.as_str());
        token.append("-");
        let sequence = decimal_string(id);
        token.append(sequence.as_str());
        token
    }
}

impl<R: AuthAccountRepository, O: Observability> PasswordResetUseCase for PasswordResetService<
    R,
    O,
> {
    /// The one generic message and the token "reset-{now}-{n}", `n` the next sequence number,
    /// which advances; the token bound to the account stored under the username, which is
    /// saved; the request event emitted.
    open spec fn reset_request_step(
        &self,
        req: ForgotPasswordRequest,
        now: u64,
        response: ForgotPasswordResponse,
        after: Self,
    ) -> bool {
        let outcome = reset_request_outcome(
            req,
            account_under(self.auth_accounts().accounts(), req.username@),
            response.reset_token,
            now,
        );
        &&& response.message@ == reset_requested_message()
        &&& response.reset_token@ == reset_token_text(now, self.next_token_id())
        &&& after.next_token_id() == following_token_id(self.next_token_id())
        &&& after.auth_accounts().accounts() == accounts_after_save(
            self.auth_accounts().accounts(),
            outcome.0,
        )
        &&& after.observability().emitted() == self.observability().emitted() + outcome.1
    }

    /// For an account the repository may return for the token: the answer, save and events
    /// of `password_reset_outcome`; the sequence number unchanged.
    open spec fn reset_step(
        &self,
        req: ResetPasswordRequest,
        now: u64,
        result: ResetPasswordResult,
        after: Self,
    ) -> bool {
        &&& exists|found: Option<AuthAccount>|
            {
                let outcome = password_reset_outcome(req, found, now);
                &&& #[trigger] found_by_reset_token(
                    self.auth_accounts().accounts(),
                    req.token@,
                    found,
                )
                &&& password_reset_result(result, outcome.0)
                &&& after.auth_accounts().accounts() == accounts_after_save(
                    self.auth_accounts().accounts(),
                    outcome.1,
                )
                &&& after.observability().emitted() == self.observability().emitted()
                    + outcome.2
            }
        &&& after.next_token_id() == self.next_token_id()
    }

    /// Issues a fresh token, binds it (valid for `RESET_TOKEN_TTL_SECONDS`) to the account
    /// stored under the username if there is one, saves that account, emits the request
    /// event, and always answers with the same message and the token.
    fn request_reset(&mut self, req: ForgotPasswordRequest, now: u64) -> (response:
        ForgotPasswordResponse)
    {
        let reset_token = self.next_reset_token(now);
        let stored = self.auth_accounts.get_by_username(req.username.as_str());
        let (response, saved, events) = decide_reset_request(req, stored, reset_token, now);
        match saved {
            Some(account) => {
                self.auth_accounts.save(account);
            },
            None => {},
        }
        emit_all(&mut self.observability, events);
        response
    }

    /// Looks up an account bound to the token and, for the one it returns, answers, saves and
    /// emits as `password_reset_outcome` says.
    fn reset_password(&mut self, req: ResetPasswordRequest, now: u64) -> (result:
        ResetPasswordResult)
    {
        let found = self.auth_accounts.get_by_reset_token(req.token.as_str());
        let ghost found_snapshot = found;
        let ghost request = req;
        let (result, saved, events) = decide_password_reset(req, found, now);
        match saved {
            Some(account) => {
                self.auth_accounts.save(account);
            },
            None => {},
        }
        emit_all(&mut self.observability, events);
        assert(found_by_reset_token(old(self).auth_accounts().accounts(), request.token@, found_snapshot));
        result
    }
}

/// A token bound by a reset request at `now` resets the password (to one that differs from the
/// current one) at any time up to and including `now + RESET_TOKEN_TTL_SECONDS`, and at no
/// later time.
pub proof fn lemma_issued_token_resets_until_expiry(
    request: ForgotPasswordRequest,
    account: AuthAccount,
    token: String,
    now: u64,
    reset: ResetPasswordRequest,
    later: u64,
)
    requires
        now <= u64::MAX - RESET_TOKEN_TTL_SECONDS,
        reset.token@ == token@,
        reset.new_password@ != account.password_hash@,
    ensures
        ({
            let bound = reset_request_outcome(request, Some(account), token, now).0.unwrap();
            let outcome = password_reset_outcome(reset, Some(bound), later);
            &&& later <= now + RESET_TOKEN_TTL_SECONDS ==> outcome.0 is None && outcome.1 == Some(
                bound.with_password(reset.new_password),
            )
            &&& later > now + RESET_TOKEN_TTL_SECONDS ==> outcome.0 == Some(
                ResetPasswordError::InvalidToken,
            ) && outcome.1 is None
        }),
{
}

/// A reset request for an unknown username changes no account.
pub proof fn lemma_unknown_username_reset_changes_nothing(
    request: ForgotPasswordRequest,
    token: String,
    now: u64,
)
    ensures
        reset_request_outcome(request, None, token, now).0 is None,
{
}

/// A successful reset leaves the account unlocked, with no failures and no pending reset, so
/// the token cannot be used again.
pub proof fn lemma_reset_token_is_single_use(
    req: ResetPasswordRequest,
    stored: Option<AuthAccount>,
    now: u64,
    again: ResetPasswordRequest,
    later: u64,
)
    requires
        password_reset_outcome(req, stored, now).0 is None,
    ensures
        ({
            let saved = password_reset_outcome(req, stored, now).1.unwrap();
            &&& !saved.is_locked
            &&& saved.failed_login_attempts == 0
            &&& saved.password_reset_token is None
            &&& password_reset_outcome(again, Some(saved), later).0 == Some(
                ResetPasswordError::InvalidToken,
            )
        }),
{
}

/// The sequence number that follows `id` (wrapping to zero past `u64::MAX`).
pub open spec fn following_token_id(id: u64) -> u64 {
    if id == u64::MAX {
        0
    } else {
        (id + 1) as u64
    }
}

/// Reset tokens with different sequence numbers differ, whatever the times they are issued
/// at; so tokens issued by fewer than 2^64 successive requests are pairwise different.
pub proof fn lemma_reset_tokens_differ(first_now: u64, first_id: u64, second_now: u64, second_id: u64)
    requires
        first_id != second_id,
    ensures
        reset_token_text(first_now, first_id) != reset_token_text(second_now, second_id),
{
    let first = decimal_text(first_id as nat);
    let second = decimal_text(second_id as nat);
    let a = reset_token_text(first_now, first_id);
    let b = reset_token_text(second_now, second_id);
    if a == b {
        lemma_decimal_text_digits(first_id as nat);
        lemma_decimal_text_digits(second_id as nat);
        reveal_strlit("-");
        if first.len() < second.len() {
            let k = a.len() - first.len() - 1;
            assert(a[k] == '-');
            assert(b[k] == second[k - (b.len() - second.len())]);
        } else if second.len() < first.len() {
            let k = b.len() - second.len() - 1;
            assert(b[k] == '-');
            assert(a[k] == first[k - (a.len() - first.len())]);
        } else {
            assert(a.skip(a.len() - first.len()) =~= first);
            assert(b.skip(b.len() - second.len()) =~= second);
            lemma_decimal_text_injective(first_id as nat, second_id as nat);
        }
    }
}

/// Two successive reset requests issue different tokens, whatever the times they are made at.
pub proof fn lemma_successive_reset_tokens_differ(first_now: u64, second_now: u64, id: u64)
    ensures
        reset_token_text(first_now, id) != reset_token_text(second_now, following_token_id(id)),
{
    lemma_reset_tokens_differ(first_now, id, second_now, following_token_id(id));
}

/// Across a reset request and a reset against the stored accounts: the request binds the
/// issued token to the account stored under the username; when no other stored account is
/// bound to that token, a reset with it finds that account; up to `RESET_TOKEN_TTL_SECONDS`
/// after the request it stores the new password with the account unlocked, its failures and
/// the token cleared, after which the token finds no account; later than that it is refused
/// as invalid and nothing changes.
pub proof fn lemma_reset_request_then_reset(
    accounts: Map<Seq<char>, AuthAccount>,
    request: ForgotPasswordRequest,
    token: String,
    now: u64,
    reset: ResetPasswordRequest,
    later: u64,
    found: Option<AuthAccount>,
)
    requires
        now <= u64::MAX - RESET_TOKEN_TTL_SECONDS,
        accounts.contains_key(request.username@),
        accounts[request.username@].username@ == request.username@,
        forall|u: Seq<char>|
            #[trigger] accounts.contains_key(u) && u != request.username@ ==> !bound_to_token(
                accounts[u],
                token@,
            ),
        reset.token@ == token@,
        reset.new_password@ != accounts[request.username@].password_hash@,
        found_by_reset_token(
            accounts_after_save(
                accounts,
                reset_request_outcome(
                    request,
                    account_under(accounts, request.username@),
                    token,
                    now,
                ).0,
            ),
            token@,
            found,
        ),
    ensures
        ({
            let u = request.username@;
            let requested = accounts_after_save(
                accounts,
                reset_request_outcome(request, account_under(accounts, u), token, now).0,
            );
            let outcome = password_reset_outcome(reset, found, later);
            let after = accounts_after_save(requested, outcome.1);
            &&& requested[u] == accounts[u].with_password_reset(
                token,
                (now + RESET_TOKEN_TTL_SECONDS) as u64,
            )
            &&& found == Some(requested[u])
            &&& later <= now + RESET_TOKEN_TTL_SECONDS ==> {
                &&& outcome.0 is None
                &&& after[u] == requested[u].with_password(reset.new_password)
                &&& !after[u].is_locked
                &&& after[u].failed_login_attempts == 0
                &&& forall|again: Option<AuthAccount>|
                    #[trigger] found_by_reset_token(after, token@, again) ==> again is None
            }
            &&& later > now + RESET_TOKEN_TTL_SECONDS ==> outcome.0 == Some(
                ResetPasswordError::InvalidToken,
            ) && after == requested
        }),
{
    let u = request.username@;
    let requested = accounts_after_save(
        accounts,
        reset_request_outcome(request, account_under(accounts, u), token, now).0,
    );
    assert(requested.contains_key(u));
    assert(bound_to_token(requested[u], token@));
    match found {
        None => {
            assert(!bound_to_token(requested[u], token@));
        },
        Some(a) => {
            let v = a.username@;
            if v != u {
                assert(requested[v] == accounts[v]);
                assert(accounts.contains_key(v));
            }
        },
    }
    let outcome = password_reset_outcome(reset, found, later);
    let after = accounts_after_save(requested, outcome.1);
    if later <= now + RESET_TOKEN_TTL_SECONDS {
        assert forall|again: Option<AuthAccount>|
            #[trigger] found_by_reset_token(after, token@, again) implies again is None by {
            if let Some(b) = again {
                let w = b.username@;
                if w != u {
                    assert(after[w] == accounts[w]);
                    assert(accounts.contains_key(w));
                }
            }
        }
    }
}

/// The sequence number the next reset token carries after `calls` reset requests on a new
/// service.
pub open spec fn token_id_after(calls: nat) -> u64
    decreases calls,
{
    if calls == 0 {
        1
    } else {
        following_token_id(token_id_after((calls - 1) as nat))
    }
}

/// Below 2^64 - 1 requests, the request made after `calls` earlier ones on a new service
/// carries sequence number `calls + 1`, so it issues "reset-{now}-{calls + 1}".
pub proof fn lemma_token_id_after(calls: nat)
    requires
        calls < u64::MAX,
    ensures
        token_id_after(calls) == calls + 1,
    decreases calls,
{
    if calls > 0 {
        lemma_token_id_after((calls - 1) as nat);
    }
}

/// Tokens issued by two different requests among the first 2^64 - 1 on a service differ,
/// whatever the times they are made at.
pub proof fn lemma_tokens_of_different_requests_differ(
    first: nat,
    first_now: u64,
    second: nat,
    second_now: u64,
)
    requires
        first != second,
        first < u64::MAX,
        second < u64::MAX,
    ensures
        reset_token_text(first_now, token_id_after(first)) != reset_token_text(
            second_now,
            token_id_after(second),
        ),
{
    lemma_token_id_after(first);
    lemma_token_id_after(second);
    lemma_reset_tokens_differ(first_now, token_id_after(first), second_now, token_id_after(second));
}

/// A reset request changes only the pending reset of the account stored under the username:
/// its id, username, password, lock flag and failure count stay as they were and it is bound
/// to the answered token; so on an unlocked account the right password still logs in
/// afterwards, with the same account id.
pub proof fn lemma_reset_request_leaves_login_working<R: AuthAccountRepository, O: Observability>(
    service: PasswordResetService<R, O>,
    req: ForgotPasswordRequest,
    now: u64,
    response: ForgotPasswordResponse,
    after: PasswordResetService<R, O>,
    login: LoginRequest,
)
    requires
        service.reset_request_step(req, now, response, after),
        service.auth_accounts().accounts().contains_key(req.username@),
        service.auth_accounts().accounts()[req.username@].username@ == req.username@,
    ensures
        ({
            let before = service.auth_accounts().accounts()[req.username@];
            let stored = after.auth_accounts().accounts()[req.username@];
            &&& after.auth_accounts().accounts().contains_key(req.username@)
            &&& stored.id == before.id
            &&& stored.username == before.username
            &&& stored.password_hash == before.password_hash
            &&& stored.is_locked == before.is_locked
            &&& stored.failed_login_attempts == before.failed_login_attempts
            &&& stored.password_reset_token matches Some(t) && t@ == response.reset_token@
            &&& !before.is_locked && login.username@ == req.username@ && login.password@
                == before.password_hash@ ==> (authentication_step(
                after.auth_accounts().accounts(),
                false,
                login,
            ).0 matches Ok(success) && success.account.id == before.id)
        }),
{
}

/// A successful reset keeps the identity of the account the token was bound to: afterwards
/// the account stored under its username has the same id and username, the new password, and
/// is unlocked with no failures and no pending reset; so a login with the new password gives
/// the same account id.
pub proof fn lemma_reset_keeps_identity<R: AuthAccountRepository, O: Observability>(
    service: PasswordResetService<R, O>,
    req: ResetPasswordRequest,
    now: u64,
    result: ResetPasswordResult,
    after: PasswordResetService<R, O>,
    login: LoginRequest,
)
    requires
        service.reset_step(req, now, result, after),
        result is Ok,
    ensures
        exists|account: AuthAccount|
            {
                let stored = after.auth_accounts().accounts()[account.username@];
                &&& #[trigger] service.auth_accounts().accounts().contains_key(account.username@)
                &&& service.auth_accounts().accounts()[account.username@] == account
                &&& bound_to_token(account, req.token@)
                &&& after.auth_accounts().accounts().contains_key(account.username@)
                &&& stored.id == account.id
                &&& stored.username == account.username
                &&& stored.password_hash@ == req.new_password@
                &&& !stored.is_locked
                &&& stored.failed_login_attempts == 0
                &&& stored.password_reset_token is None
                &&& login.username@ == account.username@ && login.password@ == req.new_password@
                    ==> (authentication_step(after.auth_accounts().accounts(), false, login).0 matches Ok(
                    success,
                ) && success.account.id == account.id)
            },
{
    let found = choose|found: Option<AuthAccount>|
        {
            let outcome = password_reset_outcome(req, found, now);
            &&& #[trigger] found_by_reset_token(
                service.auth_accounts().accounts(),
                req.token@,
                found,
            )
            &&& password_reset_result(result, outcome.0)
            &&& after.auth_accounts().accounts() == accounts_after_save(
                service.auth_accounts().accounts(),
                outcome.1,
            )
            &&& after.observability().emitted() == service.observability().emitted()
                + outcome.2
        };
    let account = found.unwrap();
    assert(service.auth_accounts().accounts().contains_key(account.username@));
}

} // verus!
