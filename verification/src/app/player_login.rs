//! Player login: the first login flow, against player records and a compliance check.

use vstd::prelude::*;
use vstd::string::*;

use crate::domain::player::Player;

verus! {

#[derive(Debug)]
pub struct LoginRequest {
    pub username: String,
    pub password: String,
}

#[derive(Debug)]
pub struct LoginResponse {
    pub success: bool,
    pub message: String,
}

pub trait PlayerRepository {
    /// The player a lookup of `username` finds in the current state.
    spec fn player_named(&self, username: Seq<char>) -> Option<Player>;

    fn get_by_username(&self, username: &str) -> (player: Option<Player>)
        ensures
            player == self.player_named(username@),
    ;
}

pub trait ComplianceService {
    /// Whether the player is currently excluded.
    spec fn excluded(&self, player_id: u64) -> bool;

    fn is_excluded(&self, player_id: u64) -> (excluded: bool)
        ensures
            excluded == self.excluded(player_id),
    ;
}

/// The message for a rejected username or password.
pub open spec fn invalid_credentials_message() -> Seq<char> {
    "Invalid username or password"@
}

/// Whether the stored player exists, is not locked, and holds the supplied password.
pub open spec fn player_verified(req: LoginRequest, player: Option<Player>) -> bool {
    player matches Some(p) && !p.is_locked && req.password@ == p.password_hash@
}

/// The login answer as (success, message), given the player stored under the username and,
/// for a verified password, the compliance answer.
pub open spec fn player_login_outcome(req: LoginRequest, player: Option<Player>, excluded: bool) -> (
    bool,
    Seq<char>,
) {
    match player {
        None => (false, invalid_credentials_message()),
        Some(p) => if p.is_locked {
            (false, "Account locked"@)
        } else if req.password@ != p.password_hash@ {
            (false, invalid_credentials_message())
        } else if excluded {
            (false, "Self-excluded"@)
        } else {
            (true, "OK"@)
        },
    }
}

/// Checks the password against the stored player: the player's id when it is verified,
/// otherwise the rejection to return.
pub fn check_player(req: &LoginRequest, player: Option<Player>) -> (check: Result<
    u64,
    LoginResponse,
>)
    ensures
        match check {
            Ok(id) => player_verified(*req, player) && id == player.unwrap().id,
            Err(response) => !player_verified(*req, player) && (
                response.success,
                response.message@,
            ) == player_login_outcome(*req, player, false),
        },
{
    match player {
        None => Err(
            LoginResponse {
                success: false,
                message: String::from_str("Invalid username or password"),
            },
        ),
        Some(p) => {
            if p.is_locked {
                Err(LoginResponse { success: false, message: String::from_str("Account locked") })
            } else if !(req.password == p.password_hash) {
                Err(
                    LoginResponse {
                        success: false,
                        message: String::from_str("Invalid username or password"),
                    },
                )
            } else {
                Ok(p.id)
            }
        },
    }
}

/// The answer for a verified player, given the compliance answer.
pub fn compliance_response(excluded: bool) -> (response: LoginResponse)
    ensures
        response.success == !excluded,
        response.message@ == (if excluded {
            "Self-excluded"@
        } else {
            "OK"@
        }),
{
    if excluded {
        LoginResponse { success: false, message: String::from_str("Self-excluded") }
    } else {
        LoginResponse { success: true, message: String::from_str("OK") }
    }
}

pub struct LoginService<R: PlayerRepository, C: ComplianceService> {
    players: R,
    compliance: C,
}

impl<R: PlayerRepository, C: ComplianceService> LoginService<R, C> {
    /// The player repository the service reads.
    pub closed spec fn players(&self) -> R {
        self.players
    }

    /// The compliance check the service consults.
    pub closed spec fn compliance(&self) -> C {
        self.compliance
    }

    pub fn new(players: R, compliance: C) -> (service: Self)
        ensures
            service.players() == players,
            service.compliance() == compliance,
    {
        LoginService { players, compliance }
    }

    /// The answer is `player_login_outcome` for the player the repository finds under the
    /// username and, for that player, the compliance answer; compliance is consulted only for
    /// a verified password.
    pub fn login(&self, req: LoginRequest) -> (response: LoginResponse)
        ensures
            ({
                let player = self.players().player_named(req.username@);
                let excluded = match player {
                    Some(p) => self.compliance().excluded(p.id),
                    None => false,
                };
                (response.success, response.message@) == player_login_outcome(req, player, excluded)
            }),
    {
        let player = self.players.get_by_username(req.username.as_str());
        let ghost stored = player;
        match check_player(&req, player) {
            Err(response) => {
                assert((response.success, response.message@) == player_login_outcome(
                    req,
                    stored,
                    false,
                ));
                response
            },
            Ok(id) => {
                let excluded = self.compliance.is_excluded(id);
                let response = compliance_response(excluded);
                assert((response.success, response.message@) == player_login_outcome(
                    req,
                    stored,
                    excluded,
                ));
                response
            },
        }
    }
}

/// Player login answers an unknown username and a wrong password alike.
pub proof fn lemma_unknown_player_and_wrong_password_answer_alike(
    req: LoginRequest,
    player: Player,
    first: bool,
    second: bool,
)
    requires
        !player.is_locked,
        req.password@ != player.password_hash@,
    ensures
        player_login_outcome(req, None, first) == player_login_outcome(req, Some(player), second),
{
}

/// A locked player is refused whatever the password and whatever compliance says.
pub proof fn lemma_locked_player_is_refused(req: LoginRequest, player: Player, excluded: bool)
    requires
        player.is_locked,
    ensures
        player_login_outcome(req, Some(player), excluded) == (false, "Account locked"@),
{
}

} // verus!
