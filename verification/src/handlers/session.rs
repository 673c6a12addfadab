use vstd::prelude::*;
use crate::effects::{refusal, refuse, reports_failure, Effect, Handler, Notice, Outcome, Reply};
use crate::models::{later_by, User, REFRESH_TOKEN_LIFETIME};
use crate::schemas::{login_issues, user_data_of, LoginResponse, LoginUserRequest, LogoutRequest, UserData};
use crate::status::HttpStatus;
use crate::handlers::refresh::{refresh_begin, RefreshFlow};
use crate::world::{
    draws_library_tokens, has_email, new_refresh_row, refresh_tokens_random, run, trace, user_by_email, World,
};
use crate::token::is_random_uuid_text;

verus! {

/// Where `POST /api/users/login` stands.
///
/// The account is found by its email; the password is not compared with the
/// stored hash.
pub enum LoginFlow {
    /// Waiting for the account with the given email.
    FindUser,
    /// Waiting for the signing secret.
    Secret { user: User },
    /// Waiting for the access token.
    Sign { user: User },
    /// Waiting for a fresh refresh token.
    Generate { user: User, access_token: String },
    /// Waiting for the refresh token to be stored.
    Store { user: User, access_token: String, refresh_token: String },
    Finished,
}

/// How a login begins: with the rules of the body checked, then a lookup of
/// its email.
pub open spec fn login_begin(request: LoginUserRequest) -> (LoginFlow, Effect) {
    if login_issues(request.user).len() != 0 {
        (LoginFlow::Finished, refusal(HttpStatus::BadRequest))
    } else {
        (LoginFlow::FindUser, Effect::FindUserByEmail(request.user.email))
    }
}

impl LoginFlow {
    /// Begin handling a login.
    pub fn start(request: LoginUserRequest) -> (r: (LoginFlow, Effect))
        ensures
            r == login_begin(request),
    {
        let data = request.user;
        match data.validate() {
            Err(_) => (LoginFlow::Finished, refuse(HttpStatus::BadRequest)),
            Ok(()) => (LoginFlow::FindUser, Effect::FindUserByEmail(data.email)),
        }
    }
}

impl Handler for LoginFlow {
    open spec fn transition(self, outcome: Outcome) -> (LoginFlow, Effect) {
        match self {
            LoginFlow::FindUser => match outcome {
                Outcome::UserLookup(Ok(Some(user))) => (LoginFlow::Secret { user }, Effect::ReadJwtSecret),
                Outcome::UserLookup(Ok(None)) => (LoginFlow::Finished, refusal(HttpStatus::Unauthorized)),
                _ => (LoginFlow::Finished, refusal(HttpStatus::InternalServerError)),
            },
            LoginFlow::Secret { user } => match outcome {
                Outcome::Secret(Some(secret)) => (
                    LoginFlow::Sign { user },
                    Effect::GenerateJwt { user_id: user.id, secret },
                ),
                _ => (LoginFlow::Finished, refusal(HttpStatus::InternalServerError)),
            },
            LoginFlow::Sign { user } => match outcome {
                Outcome::Jwt(Ok(access_token)) => (
                    LoginFlow::Generate { user, access_token },
                    Effect::GenerateRefreshToken,
                ),
                _ => (LoginFlow::Finished, refusal(HttpStatus::InternalServerError)),
            },
            LoginFlow::Generate { user, access_token } => match outcome {
                Outcome::Generated(refresh_token) => (
                    LoginFlow::Store { user, access_token, refresh_token },
                    Effect::CreateRefreshToken { user_id: user.id, token: refresh_token },
                ),
                _ => (LoginFlow::Finished, refusal(HttpStatus::InternalServerError)),
            },
            LoginFlow::Store { user, access_token, refresh_token } => match outcome {
                Outcome::RefreshCreated(Ok(_)) => (
                    LoginFlow::Finished,
                    Effect::Respond(Ok(Reply::Login(LoginResponse {
                        user: user_data_of(user, access_token),
                        access_token,
                        refresh_token,
                    }))),
                ),
                _ => (LoginFlow::Finished, refusal(HttpStatus::InternalServerError)),
            },
            LoginFlow::Finished => (LoginFlow::Finished, refusal(HttpStatus::InternalServerError)),
        }
    }

    fn step(self, outcome: Outcome) -> (r: (LoginFlow, Effect)) {
        match self {
            LoginFlow::FindUser => match outcome {
                Outcome::UserLookup(Ok(Some(user))) => (LoginFlow::Secret { user }, Effect::ReadJwtSecret),
                Outcome::UserLookup(Ok(None)) => (LoginFlow::Finished, refuse(HttpStatus::Unauthorized)),
                _ => (LoginFlow::Finished, refuse(HttpStatus::InternalServerError)),
            },
            LoginFlow::Secret { user } => match outcome {
                Outcome::Secret(Some(secret)) => {
                    let user_id = user.id;
                    (LoginFlow::Sign { user }, Effect::GenerateJwt { user_id, secret })
                },
                _ => (LoginFlow::Finished, refuse(HttpStatus::InternalServerError)),
            },
            LoginFlow::Sign { user } => match outcome {
                Outcome::Jwt(Ok(access_token)) => (
                    LoginFlow::Generate { user, access_token },
                    Effect::GenerateRefreshToken,
                ),
                _ => (LoginFlow::Finished, refuse(HttpStatus::InternalServerError)),
            },
            LoginFlow::Generate { user, access_token } => match outcome {
                Outcome::Generated(refresh_token) => {
                    let user_id = user.id;
                    let stored = refresh_token.clone();
                    (
                        LoginFlow::Store { user, access_token, refresh_token },
                        Effect::CreateRefreshToken { user_id, token: stored },
                    )
                },
                _ => (LoginFlow::Finished, refuse(HttpStatus::InternalServerError)),
            },
            LoginFlow::Store { user, access_token, refresh_token } => match outcome {
                Outcome::RefreshCreated(Ok(_)) => {
                    let profile = UserData::from_user_with_token(user, access_token.clone());
                    (
                        LoginFlow::Finished,
                        Effect::Respond(Ok(Reply::Login(LoginResponse { user: profile, access_token, refresh_token }))),
                    )
                },
                _ => (LoginFlow::Finished, refuse(HttpStatus::InternalServerError)),
            },
            LoginFlow::Finished => (LoginFlow::Finished, refuse(HttpStatus::InternalServerError)),
        }
    }
}

/// Where `POST /api/auth/logout` stands: the presented refresh token is
/// deleted.
pub enum LogoutFlow {
    /// Waiting for the token to be deleted.
    Deleting,
    Finished,
}

impl LogoutFlow {
    /// Begin handling a logout: delete the presented refresh token.
    pub fn start(request: LogoutRequest) -> (r: (LogoutFlow, Effect))
        ensures
            r == (LogoutFlow::Deleting, Effect::DeleteRefreshToken(request.refresh_token)),
    {
        (LogoutFlow::Deleting, Effect::DeleteRefreshToken(request.refresh_token))
    }
}

impl Handler for LogoutFlow {
    open spec fn transition(self, outcome: Outcome) -> (LogoutFlow, Effect) {
        match self {
            LogoutFlow::Deleting => match outcome {
                Outcome::Written(Ok(())) => (LogoutFlow::Finished, Effect::Respond(Ok(Reply::Message(Notice::LoggedOut)))),
                _ => (LogoutFlow::Finished, refusal(HttpStatus::InternalServerError)),
            },
            LogoutFlow::Finished => (LogoutFlow::Finished, refusal(HttpStatus::InternalServerError)),
        }
    }

    fn step(self, outcome: Outcome) -> (r: (LogoutFlow, Effect)) {
        match self {
            LogoutFlow::Deleting => match outcome {
                Outcome::Written(Ok(())) => (LogoutFlow::Finished, Effect::Respond(Ok(Reply::Message(Notice::LoggedOut)))),
                _ => (LogoutFlow::Finished, refuse(HttpStatus::InternalServerError)),
            },
            LogoutFlow::Finished => (LogoutFlow::Finished, refuse(HttpStatus::InternalServerError)),
        }
    }
}

/// Logging out deletes the presented refresh token and confirms it.
pub proof fn lemma_logout_deletes_token(w: World, token: String, fuel: nat)
    requires
        fuel >= 1,
    ensures
        run(LogoutFlow::Deleting, Effect::DeleteRefreshToken(token), w, fuel) == (
            World { refresh_tokens: w.refresh_tokens.remove(token@), ..w },
            Some(Ok::<Reply, HttpStatus>(Reply::Message(Notice::LoggedOut))),
        ),
{
    let w2 = World { refresh_tokens: w.refresh_tokens.remove(token@), ..w };
    assert(run(LogoutFlow::Deleting, Effect::DeleteRefreshToken(token), w, fuel)
        == run(LogoutFlow::Finished, Effect::Respond(Ok(Reply::Message(Notice::LoggedOut))), w2, (fuel - 1) as nat));
}

/// After a logout, the refresh token that was presented no longer refreshes:
/// presenting it is refused with 401 and changes nothing.
pub proof fn lemma_token_refused_after_logout(w: World, token: String, fuel: nat)
    requires
        fuel >= 1,
    ensures
        ({
            let after = run(LogoutFlow::Deleting, Effect::DeleteRefreshToken(token), w, fuel).0;
            run(refresh_begin(token), Effect::FindRefreshToken(token), after, fuel)
                == (after, Some(Err::<Reply, HttpStatus>(HttpStatus::Unauthorized)))
        }),
{
    lemma_logout_deletes_token(w, token, fuel);
    let after = World { refresh_tokens: w.refresh_tokens.remove(token@), ..w };
    assert(run(refresh_begin(token), Effect::FindRefreshToken(token), after, fuel)
        == run(RefreshFlow::Finished, refusal(HttpStatus::Unauthorized), after, (fuel - 1) as nat));
}

/// A login with an email that no account has is refused with 401 and
/// changes nothing.
pub proof fn lemma_login_unknown_email_refused(w: World, email: String, fuel: nat)
    requires
        !has_email(w.users, email@),
        fuel >= 1,
    ensures
        run(LoginFlow::FindUser, Effect::FindUserByEmail(email), w, fuel)
            == (w, Some(Err::<Reply, HttpStatus>(HttpStatus::Unauthorized))),
{
    assert(run(LoginFlow::FindUser, Effect::FindUserByEmail(email), w, fuel)
        == run(LoginFlow::Finished, refusal(HttpStatus::Unauthorized), w, (fuel - 1) as nat));
}

/// A login with the email of an account opens a session: a fresh refresh
/// token of that account is stored, and the answer carries the profile, the
/// new access token and that refresh token.
pub proof fn lemma_login_opens_session(w: World, email: String, fuel: nat)
    requires
        has_email(w.users, email@),
        w.jwt_secret is Some,
        w.signed is Ok,
        !w.refresh_tokens.contains_key(w.fresh_token@),
        later_by(w.now, REFRESH_TOKEN_LIFETIME) is Some,
        fuel >= 5,
    ensures
        ({
            let user = user_by_email(w.users, email@)->Some_0;
            let access_token = w.signed->Ok_0;
            run(LoginFlow::FindUser, Effect::FindUserByEmail(email), w, fuel) == (
                World {
                    refresh_tokens: w.refresh_tokens.insert(w.fresh_token@, new_refresh_row(w, user.id, w.fresh_token)),
                    ..w
                },
                Some(Ok::<Reply, HttpStatus>(Reply::Login(LoginResponse {
                    user: user_data_of(user, access_token),
                    access_token,
                    refresh_token: w.fresh_token,
                }))),
            )
        }),
        trace(LoginFlow::FindUser, Effect::FindUserByEmail(email), w, fuel) == seq![
            Effect::FindUserByEmail(email),
            Effect::ReadJwtSecret,
            Effect::GenerateJwt { user_id: user_by_email(w.users, email@)->Some_0.id, secret: w.jwt_secret->Some_0 },
            Effect::GenerateRefreshToken,
            Effect::CreateRefreshToken { user_id: user_by_email(w.users, email@)->Some_0.id, token: w.fresh_token },
        ],
{
    let user = user_by_email(w.users, email@)->Some_0;
    let access_token = w.signed->Ok_0;
    let secret = w.jwt_secret->Some_0;
    let fresh = w.fresh_token;
    let w2 = World { refresh_tokens: w.refresh_tokens.insert(fresh@, new_refresh_row(w, user.id, fresh)), ..w };
    assert(run(LoginFlow::FindUser, Effect::FindUserByEmail(email), w, fuel)
        == run(LoginFlow::Secret { user }, Effect::ReadJwtSecret, w, (fuel - 1) as nat));
    assert(run(LoginFlow::Secret { user }, Effect::ReadJwtSecret, w, (fuel - 1) as nat)
        == run(LoginFlow::Sign { user }, Effect::GenerateJwt { user_id: user.id, secret }, w, (fuel - 2) as nat));
    assert(run(LoginFlow::Sign { user }, Effect::GenerateJwt { user_id: user.id, secret }, w, (fuel - 2) as nat)
        == run(LoginFlow::Generate { user, access_token }, Effect::GenerateRefreshToken, w, (fuel - 3) as nat));
    let create = Effect::CreateRefreshToken { user_id: user.id, token: fresh };
    let store = LoginFlow::Store { user, access_token, refresh_token: fresh };
    assert(run(LoginFlow::Generate { user, access_token }, Effect::GenerateRefreshToken, w, (fuel - 3) as nat)
        == run(store, create, w, (fuel - 4) as nat));
    let reply = Reply::Login(LoginResponse { user: user_data_of(user, access_token), access_token, refresh_token: fresh });
    assert(run(store, create, w, (fuel - 4) as nat)
        == run(LoginFlow::Finished, Effect::Respond(Ok(reply)), w2, (fuel - 5) as nat));
    assert(trace(LoginFlow::FindUser, Effect::FindUserByEmail(email), w, fuel) =~= seq![
        Effect::FindUserByEmail(email),
        Effect::ReadJwtSecret,
        Effect::GenerateJwt { user_id: user.id, secret },
        Effect::GenerateRefreshToken,
        create,
    ]);
}

/// A login, from its request: a body that breaks the rules is refused with
/// 400; otherwise the account is looked up by the body's email. Where no
/// account has that email, the login is refused with 401; where one has it,
/// a session of that account is opened: its refresh token is stored, the
/// only access token signed is that account's, and the answer carries the
/// account's profile and both tokens. Nothing changes on a refusal.
pub proof fn lemma_login_request(w: World, request: LoginUserRequest, fuel: nat)
    requires
        fuel >= 6,
    ensures
        ({
            let (h, e) = login_begin(request);
            let email = request.user.email;
            let user = user_by_email(w.users, email@)->Some_0;
            let access_token = w.signed->Ok_0;
            &&& login_issues(request.user).len() != 0
                ==> run(h, e, w, fuel) == (w, Some(Err::<Reply, HttpStatus>(HttpStatus::BadRequest)))
            &&& login_issues(request.user).len() == 0 && !has_email(w.users, email@)
                ==> run(h, e, w, fuel) == (w, Some(Err::<Reply, HttpStatus>(HttpStatus::Unauthorized)))
            &&& login_issues(request.user).len() == 0 && has_email(w.users, email@) && w.jwt_secret is Some
                && w.signed is Ok && !w.refresh_tokens.contains_key(w.fresh_token@)
                && later_by(w.now, REFRESH_TOKEN_LIFETIME) is Some ==> {
                &&& run(h, e, w, fuel) == (
                    World {
                        refresh_tokens: w.refresh_tokens.insert(w.fresh_token@, new_refresh_row(w, user.id, w.fresh_token)),
                        ..w
                    },
                    Some(Ok::<Reply, HttpStatus>(Reply::Login(LoginResponse {
                        user: user_data_of(user, access_token),
                        access_token,
                        refresh_token: w.fresh_token,
                    }))),
                )
                &&& trace(h, e, w, fuel) == seq![
                    Effect::FindUserByEmail(email),
                    Effect::ReadJwtSecret,
                    Effect::GenerateJwt { user_id: user.id, secret: w.jwt_secret->Some_0 },
                    Effect::GenerateRefreshToken,
                    Effect::CreateRefreshToken { user_id: user.id, token: w.fresh_token },
                ]
            }
        }),
{
    if login_issues(request.user).len() == 0 {
        assert(login_begin(request) == (LoginFlow::FindUser, Effect::FindUserByEmail(request.user.email)));
        if has_email(w.users, request.user.email@) {
            if w.jwt_secret is Some && w.signed is Ok && !w.refresh_tokens.contains_key(w.fresh_token@)
                && later_by(w.now, REFRESH_TOKEN_LIFETIME) is Some {
                lemma_login_opens_session(w, request.user.email, fuel);
            }
        } else {
            lemma_login_unknown_email_refused(w, request.user.email, fuel);
        }
    }
}

/// Where the refresh token of a login cannot be stored, the login is
/// refused with 500 and nothing changes: no session is opened.
pub proof fn lemma_login_store_failure(w: World, email: String, fuel: nat)
    requires
        has_email(w.users, email@),
        w.jwt_secret is Some,
        w.signed is Ok,
        w.refresh_tokens.contains_key(w.fresh_token@) || later_by(w.now, REFRESH_TOKEN_LIFETIME) is None,
        fuel >= 5,
    ensures
        run(LoginFlow::FindUser, Effect::FindUserByEmail(email), w, fuel)
            == (w, Some(Err::<Reply, HttpStatus>(HttpStatus::InternalServerError))),
{
    let user = user_by_email(w.users, email@)->Some_0;
    let access_token = w.signed->Ok_0;
    let secret = w.jwt_secret->Some_0;
    let fresh = w.fresh_token;
    assert(run(LoginFlow::FindUser, Effect::FindUserByEmail(email), w, fuel)
        == run(LoginFlow::Secret { user }, Effect::ReadJwtSecret, w, (fuel - 1) as nat));
    assert(run(LoginFlow::Secret { user }, Effect::ReadJwtSecret, w, (fuel - 1) as nat)
        == run(LoginFlow::Sign { user }, Effect::GenerateJwt { user_id: user.id, secret }, w, (fuel - 2) as nat));
    assert(run(LoginFlow::Sign { user }, Effect::GenerateJwt { user_id: user.id, secret }, w, (fuel - 2) as nat)
        == run(LoginFlow::Generate { user, access_token }, Effect::GenerateRefreshToken, w, (fuel - 3) as nat));
    let create = Effect::CreateRefreshToken { user_id: user.id, token: fresh };
    let store = LoginFlow::Store { user, access_token, refresh_token: fresh };
    assert(run(LoginFlow::Generate { user, access_token }, Effect::GenerateRefreshToken, w, (fuel - 3) as nat)
        == run(store, create, w, (fuel - 4) as nat));
    assert(run(store, create, w, (fuel - 4) as nat)
        == run(LoginFlow::Finished, refusal(HttpStatus::InternalServerError), w, (fuel - 5) as nat));
}

/// Where the runtime draws tokens with the library's generators, the
/// refresh token that a login issues is a random UUID in simple form, and a
/// table that held only such tokens still does.
pub proof fn lemma_login_issues_random_token(w: World, email: String, fuel: nat)
    requires
        has_email(w.users, email@),
        w.jwt_secret is Some,
        w.signed is Ok,
        !w.refresh_tokens.contains_key(w.fresh_token@),
        later_by(w.now, REFRESH_TOKEN_LIFETIME) is Some,
        draws_library_tokens(w),
        refresh_tokens_random(w.refresh_tokens),
        fuel >= 5,
    ensures
        ({
            let (after, answer) = run(LoginFlow::FindUser, Effect::FindUserByEmail(email), w, fuel);
            &&& answer matches Some(Ok(Reply::Login(r))) && is_random_uuid_text(r.refresh_token@)
            &&& refresh_tokens_random(after.refresh_tokens)
        }),
{
    lemma_login_opens_session(w, email, fuel);
    let after = run(LoginFlow::FindUser, Effect::FindUserByEmail(email), w, fuel).0;
    assert forall|k: Seq<char>| #[trigger] after.refresh_tokens.contains_key(k) implies is_random_uuid_text(k) by {
        if k != w.fresh_token@ {
            assert(w.refresh_tokens.contains_key(k));
        }
    }
}


/// Where the database, the signer or the hasher fails, a login ends at once
/// with 500.
pub proof fn lemma_login_failure_is_server_error(h: LoginFlow, outcome: Outcome)
    requires
        reports_failure(outcome),
    ensures
        h.transition(outcome) == (LoginFlow::Finished, refusal(HttpStatus::InternalServerError)),
{
}

/// Where the refresh token cannot be deleted, a logout ends with 500.
pub proof fn lemma_logout_failure_is_server_error(h: LogoutFlow, outcome: Outcome)
    requires
        reports_failure(outcome),
    ensures
        h.transition(outcome) == (LogoutFlow::Finished, refusal(HttpStatus::InternalServerError)),
{
}

} // verus!
