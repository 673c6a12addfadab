use vstd::prelude::*;
use crate::auth::{
    admin_decision, auth_next, bearer_token, header_text, AuthFlow, AuthMode, AuthStep, RequireAdmin, RequireAuth,
};
use crate::effects::{refusal, refuse, reports_failure, Effect, Handler, Notice, Outcome, Reply};
use crate::models::User;
use crate::schemas::{user_data_of, UserData, UserResponse};
use crate::status::HttpStatus;
use crate::models::UserRole;
use crate::token::uuid_from_text;
use crate::world::{run, trace, World};

verus! {

/// Where `GET /api/user` stands: the caller's profile with a fresh access
/// token.
pub enum CurrentUserFlow {
    Authenticating(AuthFlow),
    /// Waiting for the signing secret.
    Secret { user: User },
    /// Waiting for the new access token.
    Sign { user: User },
    Finished,
}

/// How the profile handler goes on after a step of authentication.
pub open spec fn current_user_after_auth(step: AuthStep) -> (CurrentUserFlow, Effect) {
    match step {
        AuthStep::Continue(flow, effect) => (CurrentUserFlow::Authenticating(flow), effect),
        AuthStep::Authenticated(Some(user)) => (CurrentUserFlow::Secret { user }, Effect::ReadJwtSecret),
        AuthStep::Authenticated(None) => (CurrentUserFlow::Finished, refusal(HttpStatus::Unauthorized)),
        AuthStep::Rejected(status) => (CurrentUserFlow::Finished, refusal(status)),
    }
}

fn current_user_after_auth_exec(step: AuthStep) -> (r: (CurrentUserFlow, Effect))
    ensures
        r == current_user_after_auth(step),
{
    match step {
        AuthStep::Continue(flow, effect) => (CurrentUserFlow::Authenticating(flow), effect),
        AuthStep::Authenticated(Some(user)) => (CurrentUserFlow::Secret { user }, Effect::ReadJwtSecret),
        AuthStep::Authenticated(None) => (CurrentUserFlow::Finished, refuse(HttpStatus::Unauthorized)),
        AuthStep::Rejected(status) => (CurrentUserFlow::Finished, refuse(status)),
    }
}

impl CurrentUserFlow {
    /// Begin answering `GET /api/user` for a request with this
    /// `Authorization` header.
    pub fn start(authorization: Option<&str>) -> (r: (CurrentUserFlow, Effect))
        ensures
            match bearer_token(header_text(authorization)) {
                None => r == (CurrentUserFlow::Finished, refusal(HttpStatus::Unauthorized)),
                Some(t) => r matches (
                    CurrentUserFlow::Authenticating(AuthFlow::Secret { mode: AuthMode::Required, token: tok }),
                    Effect::ReadJwtSecret,
                ) && tok@ == t,
            },
    {
        current_user_after_auth_exec(AuthFlow::start(AuthMode::Required, authorization))
    }
}

impl Handler for CurrentUserFlow {
    open spec fn transition(self, outcome: Outcome) -> (CurrentUserFlow, Effect) {
        match self {
            CurrentUserFlow::Authenticating(flow) => current_user_after_auth(auth_next(flow, outcome)),
            CurrentUserFlow::Secret { user } => match outcome {
                Outcome::Secret(Some(secret)) => (
                    CurrentUserFlow::Sign { user },
                    Effect::GenerateJwt { user_id: user.id, secret },
                ),
                _ => (CurrentUserFlow::Finished, refusal(HttpStatus::InternalServerError)),
            },
            CurrentUserFlow::Sign { user } => match outcome {
                Outcome::Jwt(Ok(token)) => (
                    CurrentUserFlow::Finished,
                    Effect::Respond(Ok(Reply::User(UserResponse { user: user_data_of(user, token) }))),
                ),
                _ => (CurrentUserFlow::Finished, refusal(HttpStatus::InternalServerError)),
            },
            CurrentUserFlow::Finished => (CurrentUserFlow::Finished, refusal(HttpStatus::InternalServerError)),
        }
    }

    fn step(self, outcome: Outcome) -> (r: (CurrentUserFlow, Effect)) {
        match self {
            CurrentUserFlow::Authenticating(flow) => current_user_after_auth_exec(flow.step(outcome)),
            CurrentUserFlow::Secret { user } => match outcome {
                Outcome::Secret(Some(secret)) => {
                    let user_id = user.id;
                    (CurrentUserFlow::Sign { user }, Effect::GenerateJwt { user_id, secret })
                },
                _ => (CurrentUserFlow::Finished, refuse(HttpStatus::InternalServerError)),
            },
            CurrentUserFlow::Sign { user } => match outcome {
                Outcome::Jwt(Ok(token)) => (
                    CurrentUserFlow::Finished,
                    Effect::Respond(Ok(Reply::User(UserResponse { user: UserData::from_user_with_token(user, token) }))),
                ),
                _ => (CurrentUserFlow::Finished, refuse(HttpStatus::InternalServerError)),
            },
            CurrentUserFlow::Finished => (CurrentUserFlow::Finished, refuse(HttpStatus::InternalServerError)),
        }
    }
}

/// Where `DELETE /api/user` stands: the caller deletes their own account.
pub enum DeleteUserFlow {
    Authenticating(AuthFlow),
    /// Waiting for the account to be deleted.
    Deleting,
    Finished,
}

/// How the deletion handler goes on after a step of authentication.
pub open spec fn delete_user_after_auth(step: AuthStep) -> (DeleteUserFlow, Effect) {
    match step {
        AuthStep::Continue(flow, effect) => (DeleteUserFlow::Authenticating(flow), effect),
        AuthStep::Authenticated(Some(user)) => (DeleteUserFlow::Deleting, Effect::DeleteUser(user.id)),
        AuthStep::Authenticated(None) => (DeleteUserFlow::Finished, refusal(HttpStatus::Unauthorized)),
        AuthStep::Rejected(status) => (DeleteUserFlow::Finished, refusal(status)),
    }
}

fn delete_user_after_auth_exec(step: AuthStep) -> (r: (DeleteUserFlow, Effect))
    ensures
        r == delete_user_after_auth(step),
{
    match step {
        AuthStep::Continue(flow, effect) => (DeleteUserFlow::Authenticating(flow), effect),
        AuthStep::Authenticated(Some(user)) => (DeleteUserFlow::Deleting, Effect::DeleteUser(user.id)),
        AuthStep::Authenticated(None) => (DeleteUserFlow::Finished, refuse(HttpStatus::Unauthorized)),
        AuthStep::Rejected(status) => (DeleteUserFlow::Finished, refuse(status)),
    }
}

impl DeleteUserFlow {
    /// Begin answering `DELETE /api/user` for a request with this
    /// `Authorization` header.
    pub fn start(authorization: Option<&str>) -> (r: (DeleteUserFlow, Effect))
        ensures
            match bearer_token(header_text(authorization)) {
                None => r == (DeleteUserFlow::Finished, refusal(HttpStatus::Unauthorized)),
                Some(t) => r matches (
                    DeleteUserFlow::Authenticating(AuthFlow::Secret { mode: AuthMode::Required, token: tok }),
                    Effect::ReadJwtSecret,
                ) && tok@ == t,
            },
    {
        delete_user_after_auth_exec(AuthFlow::start(AuthMode::Required, authorization))
    }
}

impl Handler for DeleteUserFlow {
    open spec fn transition(self, outcome: Outcome) -> (DeleteUserFlow, Effect) {
        match self {
            DeleteUserFlow::Authenticating(flow) => delete_user_after_auth(auth_next(flow, outcome)),
            DeleteUserFlow::Deleting => match outcome {
                Outcome::Written(Ok(())) => (
                    DeleteUserFlow::Finished,
                    Effect::Respond(Ok(Reply::Message(Notice::UserDeleted))),
                ),
                _ => (DeleteUserFlow::Finished, refusal(HttpStatus::InternalServerError)),
            },
            DeleteUserFlow::Finished => (DeleteUserFlow::Finished, refusal(HttpStatus::InternalServerError)),
        }
    }

    fn step(self, outcome: Outcome) -> (r: (DeleteUserFlow, Effect)) {
        match self {
            DeleteUserFlow::Authenticating(flow) => delete_user_after_auth_exec(flow.step(outcome)),
            DeleteUserFlow::Deleting => match outcome {
                Outcome::Written(Ok(())) => (
                    DeleteUserFlow::Finished,
                    Effect::Respond(Ok(Reply::Message(Notice::UserDeleted))),
                ),
                _ => (DeleteUserFlow::Finished, refuse(HttpStatus::InternalServerError)),
            },
            DeleteUserFlow::Finished => (DeleteUserFlow::Finished, refuse(HttpStatus::InternalServerError)),
        }
    }
}

/// Where `GET /api/admin` stands: a greeting for administrators only.
pub enum AdminFlow {
    Authenticating(AuthFlow),
    Finished,
}

/// The answer of the administrator route once authentication has ended with
/// `auth`.
pub open spec fn admin_answer(auth: Result<User, HttpStatus>) -> Effect {
    match admin_decision(auth) {
        Ok(_) => Effect::Respond(Ok(Reply::Message(Notice::WelcomeAdmin))),
        Err(status) => refusal(status),
    }
}

/// How the administrator route goes on after a step of authentication.
pub open spec fn admin_after_auth(step: AuthStep) -> (AdminFlow, Effect) {
    match step {
        AuthStep::Continue(flow, effect) => (AdminFlow::Authenticating(flow), effect),
        AuthStep::Authenticated(Some(user)) => (AdminFlow::Finished, admin_answer(Ok(user))),
        AuthStep::Authenticated(None) => (AdminFlow::Finished, admin_answer(Err(HttpStatus::Unauthorized))),
        AuthStep::Rejected(status) => (AdminFlow::Finished, admin_answer(Err(status))),
    }
}

fn admin_answer_exec(auth: Result<RequireAuth, HttpStatus>) -> (e: Effect)
    ensures
        e == admin_answer(match auth { Ok(RequireAuth(user)) => Ok(user), Err(s) => Err(s) }),
{
    match RequireAdmin::from_auth(auth) {
        Ok(_) => Effect::Respond(Ok(Reply::Message(Notice::WelcomeAdmin))),
        Err(status) => refuse(status),
    }
}

fn admin_after_auth_exec(step: AuthStep) -> (r: (AdminFlow, Effect))
    ensures
        r == admin_after_auth(step),
{
    match step {
        AuthStep::Continue(flow, effect) => (AdminFlow::Authenticating(flow), effect),
        AuthStep::Authenticated(Some(user)) => (AdminFlow::Finished, admin_answer_exec(Ok(RequireAuth(user)))),
        AuthStep::Authenticated(None) => (AdminFlow::Finished, admin_answer_exec(Err(HttpStatus::Unauthorized))),
        AuthStep::Rejected(status) => (AdminFlow::Finished, admin_answer_exec(Err(status))),
    }
}

impl AdminFlow {
    /// Begin answering `GET /api/admin` for a request with this
    /// `Authorization` header.
    pub fn start(authorization: Option<&str>) -> (r: (AdminFlow, Effect))
        ensures
            match bearer_token(header_text(authorization)) {
                None => r == (AdminFlow::Finished, refusal(HttpStatus::Unauthorized)),
                Some(t) => r matches (
                    AdminFlow::Authenticating(AuthFlow::Secret { mode: AuthMode::Required, token: tok }),
                    Effect::ReadJwtSecret,
                ) && tok@ == t,
            },
    {
        admin_after_auth_exec(AuthFlow::start(AuthMode::Required, authorization))
    }
}

impl Handler for AdminFlow {
    open spec fn transition(self, outcome: Outcome) -> (AdminFlow, Effect) {
        match self {
            AdminFlow::Authenticating(flow) => admin_after_auth(auth_next(flow, outcome)),
            AdminFlow::Finished => (AdminFlow::Finished, refusal(HttpStatus::InternalServerError)),
        }
    }

    fn step(self, outcome: Outcome) -> (r: (AdminFlow, Effect)) {
        match self {
            AdminFlow::Authenticating(flow) => admin_after_auth_exec(flow.step(outcome)),
            AdminFlow::Finished => (AdminFlow::Finished, refuse(HttpStatus::InternalServerError)),
        }
    }
}

/// The handler state in which a protected route that holds `token` begins.
pub open spec fn checking(token: String) -> AuthFlow {
    AuthFlow::Secret { mode: AuthMode::Required, token }
}

/// Whether the access token checks out in `w` and names the account `id`.
pub open spec fn token_names(w: World, id: u128) -> bool {
    &&& w.jwt_secret is Some
    &&& w.claims is Ok
    &&& uuid_from_text(w.claims->Ok_0@) == Some(id)
}

/// The profile route answers the account that a valid access token names
/// with its profile and a fresh access token; where the token does not check
/// out, it refuses with 401.
pub proof fn lemma_current_user_answers_token_owner(w: World, token: String, fuel: nat)
    requires
        w.jwt_secret is Some,
        w.signed is Ok,
        fuel >= 5,
    ensures
        ({
            let answer = run(CurrentUserFlow::Authenticating(checking(token)), Effect::ReadJwtSecret, w, fuel);
            &&& answer.0 == w
            &&& w.claims is Err ==> answer.1 == Some(Err::<Reply, HttpStatus>(HttpStatus::Unauthorized))
            &&& forall|id: u128| token_names(w, id) && w.users.contains_key(id) ==> answer.1
                == Some(Ok::<Reply, HttpStatus>(Reply::User(UserResponse { user: user_data_of(w.users[id], w.signed->Ok_0) })))
        }),
        forall|id: u128| token_names(w, id) && w.users.contains_key(id)
            ==> trace(CurrentUserFlow::Authenticating(checking(token)), Effect::ReadJwtSecret, w, fuel) == seq![
                Effect::ReadJwtSecret,
                Effect::ValidateJwt { token, secret: w.jwt_secret->Some_0 },
                Effect::FindUserById(id),
                Effect::ReadJwtSecret,
                Effect::GenerateJwt { user_id: w.users[id].id, secret: w.jwt_secret->Some_0 },
            ],
{
    let secret = w.jwt_secret->Some_0;
    let validate = Effect::ValidateJwt { token, secret };
    let s1 = CurrentUserFlow::Authenticating(AuthFlow::Validate { mode: AuthMode::Required });
    assert(run(CurrentUserFlow::Authenticating(checking(token)), Effect::ReadJwtSecret, w, fuel)
        == run(s1, validate, w, (fuel - 1) as nat));
    if w.claims is Err {
        assert(run(s1, validate, w, (fuel - 1) as nat)
            == run(CurrentUserFlow::Finished, refusal(HttpStatus::Unauthorized), w, (fuel - 2) as nat));
    } else {
        match uuid_from_text(w.claims->Ok_0@) {
            Some(id) => {
                let s2 = CurrentUserFlow::Authenticating(AuthFlow::Lookup { mode: AuthMode::Required });
                assert(run(s1, validate, w, (fuel - 1) as nat)
                    == run(s2, Effect::FindUserById(id), w, (fuel - 2) as nat));
                if w.users.contains_key(id) {
                    let user = w.users[id];
                    let sign = Effect::GenerateJwt { user_id: user.id, secret };
                    assert(run(s2, Effect::FindUserById(id), w, (fuel - 2) as nat)
                        == run(CurrentUserFlow::Secret { user }, Effect::ReadJwtSecret, w, (fuel - 3) as nat));
                    assert(run(CurrentUserFlow::Secret { user }, Effect::ReadJwtSecret, w, (fuel - 3) as nat)
                        == run(CurrentUserFlow::Sign { user }, sign, w, (fuel - 4) as nat));
                    let reply = Reply::User(UserResponse { user: user_data_of(user, w.signed->Ok_0) });
                    assert(run(CurrentUserFlow::Sign { user }, sign, w, (fuel - 4) as nat)
                        == run(CurrentUserFlow::Finished, Effect::Respond(Ok(reply)), w, (fuel - 5) as nat));
                    assert(trace(CurrentUserFlow::Authenticating(checking(token)), Effect::ReadJwtSecret, w, fuel) =~= seq![
                        Effect::ReadJwtSecret,
                        validate,
                        Effect::FindUserById(id),
                        Effect::ReadJwtSecret,
                        sign,
                    ]);
                } else {
                    assert(run(s2, Effect::FindUserById(id), w, (fuel - 2) as nat)
                        == run(CurrentUserFlow::Finished, refusal(HttpStatus::Unauthorized), w, (fuel - 3) as nat));
                }
            },
            None => {
                assert(run(s1, validate, w, (fuel - 1) as nat)
                    == run(CurrentUserFlow::Finished, refusal(HttpStatus::Unauthorized), w, (fuel - 2) as nat));
            },
        }
    }
}

/// Deleting one's account removes exactly the account that the access token
/// names, and confirms it.
pub proof fn lemma_delete_user_removes_token_owner(w: World, token: String, id: u128, fuel: nat)
    requires
        token_names(w, id),
        w.users.contains_key(id),
        w.users[id].id == id,
        fuel >= 4,
    ensures
        run(DeleteUserFlow::Authenticating(checking(token)), Effect::ReadJwtSecret, w, fuel) == (
            World { users: w.users.remove(id), ..w },
            Some(Ok::<Reply, HttpStatus>(Reply::Message(Notice::UserDeleted))),
        ),
        trace(DeleteUserFlow::Authenticating(checking(token)), Effect::ReadJwtSecret, w, fuel) == seq![
            Effect::ReadJwtSecret,
            Effect::ValidateJwt { token, secret: w.jwt_secret->Some_0 },
            Effect::FindUserById(id),
            Effect::DeleteUser(id),
        ],
{
    let secret = w.jwt_secret->Some_0;
    let validate = Effect::ValidateJwt { token, secret };
    let s1 = DeleteUserFlow::Authenticating(AuthFlow::Validate { mode: AuthMode::Required });
    let s2 = DeleteUserFlow::Authenticating(AuthFlow::Lookup { mode: AuthMode::Required });
    let w2 = World { users: w.users.remove(id), ..w };
    assert(run(DeleteUserFlow::Authenticating(checking(token)), Effect::ReadJwtSecret, w, fuel)
        == run(s1, validate, w, (fuel - 1) as nat));
    assert(run(s1, validate, w, (fuel - 1) as nat) == run(s2, Effect::FindUserById(id), w, (fuel - 2) as nat));
    assert(run(s2, Effect::FindUserById(id), w, (fuel - 2) as nat)
        == run(DeleteUserFlow::Deleting, Effect::DeleteUser(id), w, (fuel - 3) as nat));
    assert(run(DeleteUserFlow::Deleting, Effect::DeleteUser(id), w, (fuel - 3) as nat)
        == run(DeleteUserFlow::Finished, Effect::Respond(Ok(Reply::Message(Notice::UserDeleted))), w2, (fuel - 4) as nat));
    assert(trace(DeleteUserFlow::Authenticating(checking(token)), Effect::ReadJwtSecret, w, fuel) =~= seq![
        Effect::ReadJwtSecret,
        validate,
        Effect::FindUserById(id),
        Effect::DeleteUser(id),
    ]);
}

/// The administrator route greets the account that a valid access token
/// names only where it is an administrator, and refuses other accounts with
/// 403; where authentication fails in any way, even for want of a signing
/// secret, it refuses with 401.
pub proof fn lemma_admin_route_admits_only_admins(w: World, token: String, fuel: nat)
    requires
        fuel >= 3,
    ensures
        ({
            let answer = run(AdminFlow::Authenticating(checking(token)), Effect::ReadJwtSecret, w, fuel);
            &&& answer.0 == w
            &&& (w.jwt_secret is None || w.claims is Err) ==> answer.1 == Some(Err::<Reply, HttpStatus>(HttpStatus::Unauthorized))
            &&& forall|id: u128| token_names(w, id) && w.users.contains_key(id) ==> answer.1 == Some(
                if w.users[id].role == UserRole::Admin {
                    Ok::<Reply, HttpStatus>(Reply::Message(Notice::WelcomeAdmin))
                } else {
                    Err::<Reply, HttpStatus>(HttpStatus::Forbidden)
                },
            )
        }),
        w.jwt_secret is Some ==> ({
            let t = trace(AdminFlow::Authenticating(checking(token)), Effect::ReadJwtSecret, w, fuel);
            t.len() >= 2 && t[1] == Effect::ValidateJwt { token, secret: w.jwt_secret->Some_0 }
        }),
{
    let start = AdminFlow::Authenticating(checking(token));
    if w.jwt_secret is None {
        assert(run(start, Effect::ReadJwtSecret, w, fuel)
            == run(AdminFlow::Finished, refusal(HttpStatus::Unauthorized), w, (fuel - 1) as nat));
    } else {
        let secret = w.jwt_secret->Some_0;
        let validate = Effect::ValidateJwt { token, secret };
        let s1 = AdminFlow::Authenticating(AuthFlow::Validate { mode: AuthMode::Required });
        assert(run(start, Effect::ReadJwtSecret, w, fuel) == run(s1, validate, w, (fuel - 1) as nat));
        if w.claims is Err {
            assert(run(s1, validate, w, (fuel - 1) as nat)
                == run(AdminFlow::Finished, refusal(HttpStatus::Unauthorized), w, (fuel - 2) as nat));
        } else {
            match uuid_from_text(w.claims->Ok_0@) {
                Some(id) => {
                    let s2 = AdminFlow::Authenticating(AuthFlow::Lookup { mode: AuthMode::Required });
                    assert(run(s1, validate, w, (fuel - 1) as nat) == run(s2, Effect::FindUserById(id), w, (fuel - 2) as nat));
                    if w.users.contains_key(id) {
                        let answer = admin_answer(Ok(w.users[id]));
                        assert(run(s2, Effect::FindUserById(id), w, (fuel - 2) as nat)
                            == run(AdminFlow::Finished, answer, w, (fuel - 3) as nat));
                    } else {
                        assert(run(s2, Effect::FindUserById(id), w, (fuel - 2) as nat)
                            == run(AdminFlow::Finished, refusal(HttpStatus::Unauthorized), w, (fuel - 3) as nat));
                    }
                },
                None => {
                    assert(run(s1, validate, w, (fuel - 1) as nat)
                        == run(AdminFlow::Finished, refusal(HttpStatus::Unauthorized), w, (fuel - 2) as nat));
                },
            }
        }
    }
}


/// Where the database or the signer fails, the profile route ends at once
/// with 500.
pub proof fn lemma_current_user_failure_is_server_error(h: CurrentUserFlow, outcome: Outcome)
    requires
        reports_failure(outcome),
    ensures
        h.transition(outcome) == (CurrentUserFlow::Finished, refusal(HttpStatus::InternalServerError)),
{
}

/// Where the database fails, deleting one's account ends at once with 500.
pub proof fn lemma_delete_user_failure_is_server_error(h: DeleteUserFlow, outcome: Outcome)
    requires
        reports_failure(outcome),
    ensures
        h.transition(outcome) == (DeleteUserFlow::Finished, refusal(HttpStatus::InternalServerError)),
{
}

/// Where the database fails while the caller is being authenticated, the
/// administrator route refuses with 401, as it does any failed
/// authentication.
pub proof fn lemma_admin_failure_is_unauthorized(h: AdminFlow, outcome: Outcome)
    requires
        reports_failure(outcome),
        h is Authenticating,
    ensures
        h.transition(outcome) == (AdminFlow::Finished, refusal(HttpStatus::Unauthorized)),
{
}

} // verus!
