use vstd::prelude::*;
use crate::effects::{refusal, refuse, reports_failure, Effect, Handler, Notice, Outcome, Reply};
use crate::models::{expired_at, expiry_after, later_by, MailToken, User, UserRole, VERIFICATION_TOKEN_LIFETIME};
use crate::schemas::{register_issues, user_data_of, RegisterUserData, RegisterUserRequest, UserData, UserResponse};
use crate::status::HttpStatus;
use crate::world::{
    creates_verification_token, has_email, has_username, lemma_effects_keep_verification_token_absent, new_user_row,
    perform_all, run, trace, with_email_verified, World,
};

verus! {

/// Where `POST /api/users` stands.
pub enum RegisterFlow {
    /// Waiting to learn whether the email is taken.
    CheckEmail { data: RegisterUserData },
    /// Waiting to learn whether the username is taken.
    CheckUsername { data: RegisterUserData },
    /// Waiting for the password hash.
    Hash { username: String, email: String },
    /// Waiting for the new account.
    Create,
    /// Waiting for a verification token.
    Generate { user: User },
    /// Waiting for the clock, to date the token's expiry.
    Clock { user: User, token: String },
    /// Waiting for the token to be stored.
    StoreToken { user: User, token: String },
    /// Waiting for the verification mail to go out.
    Mail { user: User },
    /// Waiting for the signing secret.
    Secret { user: User },
    /// Waiting for the access token.
    Sign { user: User },
    Finished,
}

/// How a registration begins: with the rules of the body checked, then a
/// lookup of its email.
pub open spec fn register_begin(request: RegisterUserRequest) -> (RegisterFlow, Effect) {
    if register_issues(request.user).len() != 0 {
        (RegisterFlow::Finished, refusal(HttpStatus::BadRequest))
    } else {
        (RegisterFlow::CheckEmail { data: request.user }, Effect::FindUserByEmail(request.user.email))
    }
}

impl RegisterFlow {
    /// Begin handling a registration.
    pub fn start(request: RegisterUserRequest) -> (r: (RegisterFlow, Effect))
        ensures
            r == register_begin(request),
    {
        let data = request.user;
        match data.validate() {
            Err(_) => (RegisterFlow::Finished, refuse(HttpStatus::BadRequest)),
            Ok(()) => {
                let email = data.email.clone();
                (RegisterFlow::CheckEmail { data }, Effect::FindUserByEmail(email))
            },
        }
    }
}

impl Handler for RegisterFlow {
    open spec fn transition(self, outcome: Outcome) -> (RegisterFlow, Effect) {
        match self {
            RegisterFlow::CheckEmail { data } => match outcome {
                Outcome::UserLookup(Ok(None)) => (
                    RegisterFlow::CheckUsername { data },
                    Effect::FindUserByUsername(data.username),
                ),
                Outcome::UserLookup(Ok(Some(_))) => (RegisterFlow::Finished, refusal(HttpStatus::Conflict)),
                _ => (RegisterFlow::Finished, refusal(HttpStatus::InternalServerError)),
            },
            RegisterFlow::CheckUsername { data } => match outcome {
                Outcome::UserLookup(Ok(None)) => (
                    RegisterFlow::Hash { username: data.username, email: data.email },
                    Effect::HashPassword(data.password),
                ),
                Outcome::UserLookup(Ok(Some(_))) => (RegisterFlow::Finished, refusal(HttpStatus::Conflict)),
                _ => (RegisterFlow::Finished, refusal(HttpStatus::InternalServerError)),
            },
            RegisterFlow::Hash { username, email } => match outcome {
                Outcome::Hashed(Ok(password_hash)) => (
                    RegisterFlow::Create,
                    Effect::CreateUser { username, email, password_hash, role: UserRole::User },
                ),
                _ => (RegisterFlow::Finished, refusal(HttpStatus::InternalServerError)),
            },
            RegisterFlow::Create => match outcome {
                Outcome::UserCreated(Ok(user)) => (RegisterFlow::Generate { user }, Effect::GenerateVerificationToken),
                _ => (RegisterFlow::Finished, refusal(HttpStatus::InternalServerError)),
            },
            RegisterFlow::Generate { user } => match outcome {
                Outcome::Generated(token) => (RegisterFlow::Clock { user, token }, Effect::ReadClock),
                _ => (RegisterFlow::Finished, refusal(HttpStatus::InternalServerError)),
            },
            RegisterFlow::Clock { user, token } => match outcome {
                Outcome::Clock(now) => match later_by(now, VERIFICATION_TOKEN_LIFETIME) {
                    Some(expires_at) => (
                        RegisterFlow::StoreToken { user, token },
                        Effect::CreateVerificationToken { user_id: user.id, token, expires_at },
                    ),
                    None => (RegisterFlow::Finished, refusal(HttpStatus::InternalServerError)),
                },
                _ => (RegisterFlow::Finished, refusal(HttpStatus::InternalServerError)),
            },
            RegisterFlow::StoreToken { user, token } => match outcome {
                Outcome::Written(Ok(())) => (
                    RegisterFlow::Mail { user },
                    Effect::SendVerificationEmail { to: user.email, username: user.username, token },
                ),
                _ => (RegisterFlow::Finished, refusal(HttpStatus::InternalServerError)),
            },
            RegisterFlow::Mail { user } => match outcome {
                Outcome::Sent(Ok(())) => (RegisterFlow::Secret { user }, Effect::ReadJwtSecret),
                _ => (RegisterFlow::Finished, refusal(HttpStatus::InternalServerError)),
            },
            RegisterFlow::Secret { user } => match outcome {
                Outcome::Secret(Some(secret)) => (
                    RegisterFlow::Sign { user },
                    Effect::GenerateJwt { user_id: user.id, secret },
                ),
                _ => (RegisterFlow::Finished, refusal(HttpStatus::InternalServerError)),
            },
            RegisterFlow::Sign { user } => match outcome {
                Outcome::Jwt(Ok(token)) => (
                    RegisterFlow::Finished,
                    Effect::Respond(Ok(Reply::User(UserResponse { user: user_data_of(user, token) }))),
                ),
                _ => (RegisterFlow::Finished, refusal(HttpStatus::InternalServerError)),
            },
            RegisterFlow::Finished => (RegisterFlow::Finished, refusal(HttpStatus::InternalServerError)),
        }
    }

    fn step(self, outcome: Outcome) -> (r: (RegisterFlow, Effect)) {
        match self {
            RegisterFlow::CheckEmail { data } => match outcome {
                Outcome::UserLookup(Ok(None)) => {
                    let username = data.username.clone();
                    (RegisterFlow::CheckUsername { data }, Effect::FindUserByUsername(username))
                },
                Outcome::UserLookup(Ok(Some(_))) => (RegisterFlow::Finished, refuse(HttpStatus::Conflict)),
                _ => (RegisterFlow::Finished, refuse(HttpStatus::InternalServerError)),
            },
            RegisterFlow::CheckUsername { data } => match outcome {
                Outcome::UserLookup(Ok(None)) => (
                    RegisterFlow::Hash { username: data.username, email: data.email },
                    Effect::HashPassword(data.password),
                ),
                Outcome::UserLookup(Ok(Some(_))) => (RegisterFlow::Finished, refuse(HttpStatus::Conflict)),
                _ => (RegisterFlow::Finished, refuse(HttpStatus::InternalServerError)),
            },
            RegisterFlow::Hash { username, email } => match outcome {
                Outcome::Hashed(Ok(password_hash)) => (
                    RegisterFlow::Create,
                    Effect::CreateUser { username, email, password_hash, role: UserRole::User },
                ),
                _ => (RegisterFlow::Finished, refuse(HttpStatus::InternalServerError)),
            },
            RegisterFlow::Create => match outcome {
                Outcome::UserCreated(Ok(user)) => (RegisterFlow::Generate { user }, Effect::GenerateVerificationToken),
                _ => (RegisterFlow::Finished, refuse(HttpStatus::InternalServerError)),
            },
            RegisterFlow::Generate { user } => match outcome {
                Outcome::Generated(token) => (RegisterFlow::Clock { user, token }, Effect::ReadClock),
                _ => (RegisterFlow::Finished, refuse(HttpStatus::InternalServerError)),
            },
            RegisterFlow::Clock { user, token } => match outcome {
                Outcome::Clock(now) => match expiry_after(now, VERIFICATION_TOKEN_LIFETIME) {
                    Some(expires_at) => {
                        let user_id = user.id;
                        let stored = token.clone();
                        (
                            RegisterFlow::StoreToken { user, token },
                            Effect::CreateVerificationToken { user_id, token: stored, expires_at },
                        )
                    },
                    None => (RegisterFlow::Finished, refuse(HttpStatus::InternalServerError)),
                },
                _ => (RegisterFlow::Finished, refuse(HttpStatus::InternalServerError)),
            },
            RegisterFlow::StoreToken { user, token } => match outcome {
                Outcome::Written(Ok(())) => {
                    let to = user.email.clone();
                    let username = user.username.clone();
                    (RegisterFlow::Mail { user }, Effect::SendVerificationEmail { to, username, token })
                },
                _ => (RegisterFlow::Finished, refuse(HttpStatus::InternalServerError)),
            },
            RegisterFlow::Mail { user } => match outcome {
                Outcome::Sent(Ok(())) => (RegisterFlow::Secret { user }, Effect::ReadJwtSecret),
                _ => (RegisterFlow::Finished, refuse(HttpStatus::InternalServerError)),
            },
            RegisterFlow::Secret { user } => match outcome {
                Outcome::Secret(Some(secret)) => {
                    let user_id = user.id;
                    (RegisterFlow::Sign { user }, Effect::GenerateJwt { user_id, secret })
                },
                _ => (RegisterFlow::Finished, refuse(HttpStatus::InternalServerError)),
            },
            RegisterFlow::Sign { user } => match outcome {
                Outcome::Jwt(Ok(token)) => (
                    RegisterFlow::Finished,
                    Effect::Respond(Ok(Reply::User(UserResponse { user: UserData::from_user_with_token(user, token) }))),
                ),
                _ => (RegisterFlow::Finished, refuse(HttpStatus::InternalServerError)),
            },
            RegisterFlow::Finished => (RegisterFlow::Finished, refuse(HttpStatus::InternalServerError)),
        }
    }
}

/// Where `GET /api/auth/verify-email` stands: a single-use link proves
/// control of the mailbox.
pub enum VerifyEmailFlow {
    /// Waiting for the stored token.
    Lookup { token: String },
    /// Waiting for the clock, to check the token for expiry.
    CheckExpiry { token: String, record: MailToken },
    /// Waiting for the expired token to be deleted.
    DiscardExpired,
    /// Waiting for the account to be marked verified.
    Verify { token: String },
    /// Waiting for the used token to be deleted.
    Consume,
    Finished,
}

/// How an email verification begins, given the `token` query parameter.
pub open spec fn verify_email_begin(token: Option<String>) -> (VerifyEmailFlow, Effect) {
    match token {
        Some(t) => (VerifyEmailFlow::Lookup { token: t }, Effect::FindVerificationToken(t)),
        None => (VerifyEmailFlow::Finished, refusal(HttpStatus::BadRequest)),
    }
}

impl VerifyEmailFlow {
    /// Begin handling an email verification; `token` is the `token` query
    /// parameter, where the request has one.
    pub fn start(token: Option<String>) -> (r: (VerifyEmailFlow, Effect))
        ensures
            r == verify_email_begin(token),
    {
        match token {
            Some(t) => {
                let lookup = t.clone();
                (VerifyEmailFlow::Lookup { token: t }, Effect::FindVerificationToken(lookup))
            },
            None => (VerifyEmailFlow::Finished, refuse(HttpStatus::BadRequest)),
        }
    }
}

impl Handler for VerifyEmailFlow {
    open spec fn transition(self, outcome: Outcome) -> (VerifyEmailFlow, Effect) {
        match self {
            VerifyEmailFlow::Lookup { token } => match outcome {
                Outcome::MailTokenLookup(Ok(Some(record))) => (
                    VerifyEmailFlow::CheckExpiry { token, record },
                    Effect::ReadClock,
                ),
                Outcome::MailTokenLookup(Ok(None)) => (VerifyEmailFlow::Finished, refusal(HttpStatus::NotFound)),
                _ => (VerifyEmailFlow::Finished, refusal(HttpStatus::InternalServerError)),
            },
            VerifyEmailFlow::CheckExpiry { token, record } => match outcome {
                Outcome::Clock(now) => if expired_at(record.expires_at, now) {
                    (VerifyEmailFlow::DiscardExpired, Effect::DeleteVerificationToken(token))
                } else {
                    (VerifyEmailFlow::Verify { token }, Effect::VerifyUserEmail(record.user_id))
                },
                _ => (VerifyEmailFlow::Finished, refusal(HttpStatus::InternalServerError)),
            },
            VerifyEmailFlow::DiscardExpired => match outcome {
                Outcome::Written(Ok(())) => (VerifyEmailFlow::Finished, refusal(HttpStatus::Gone)),
                _ => (VerifyEmailFlow::Finished, refusal(HttpStatus::InternalServerError)),
            },
            VerifyEmailFlow::Verify { token } => match outcome {
                Outcome::Written(Ok(())) => (VerifyEmailFlow::Consume, Effect::DeleteVerificationToken(token)),
                _ => (VerifyEmailFlow::Finished, refusal(HttpStatus::InternalServerError)),
            },
            VerifyEmailFlow::Consume => match outcome {
                Outcome::Written(Ok(())) => (
                    VerifyEmailFlow::Finished,
                    Effect::Respond(Ok(Reply::Message(Notice::EmailVerified))),
                ),
                _ => (VerifyEmailFlow::Finished, refusal(HttpStatus::InternalServerError)),
            },
            VerifyEmailFlow::Finished => (VerifyEmailFlow::Finished, refusal(HttpStatus::InternalServerError)),
        }
    }

    fn step(self, outcome: Outcome) -> (r: (VerifyEmailFlow, Effect)) {
        match self {
            VerifyEmailFlow::Lookup { token } => match outcome {
                Outcome::MailTokenLookup(Ok(Some(record))) => (
                    VerifyEmailFlow::CheckExpiry { token, record },
                    Effect::ReadClock,
                ),
                Outcome::MailTokenLookup(Ok(None)) => (VerifyEmailFlow::Finished, refuse(HttpStatus::NotFound)),
                _ => (VerifyEmailFlow::Finished, refuse(HttpStatus::InternalServerError)),
            },
            VerifyEmailFlow::CheckExpiry { token, record } => match outcome {
                Outcome::Clock(now) => if record.is_expired(now) {
                    (VerifyEmailFlow::DiscardExpired, Effect::DeleteVerificationToken(token))
                } else {
                    (VerifyEmailFlow::Verify { token }, Effect::VerifyUserEmail(record.user_id))
                },
                _ => (VerifyEmailFlow::Finished, refuse(HttpStatus::InternalServerError)),
            },
            VerifyEmailFlow::DiscardExpired => match outcome {
                Outcome::Written(Ok(())) => (VerifyEmailFlow::Finished, refuse(HttpStatus::Gone)),
                _ => (VerifyEmailFlow::Finished, refuse(HttpStatus::InternalServerError)),
            },
            VerifyEmailFlow::Verify { token } => match outcome {
                Outcome::Written(Ok(())) => (VerifyEmailFlow::Consume, Effect::DeleteVerificationToken(token)),
                _ => (VerifyEmailFlow::Finished, refuse(HttpStatus::InternalServerError)),
            },
            VerifyEmailFlow::Consume => match outcome {
                Outcome::Written(Ok(())) => (
                    VerifyEmailFlow::Finished,
                    Effect::Respond(Ok(Reply::Message(Notice::EmailVerified))),
                ),
                _ => (VerifyEmailFlow::Finished, refuse(HttpStatus::InternalServerError)),
            },
            VerifyEmailFlow::Finished => (VerifyEmailFlow::Finished, refuse(HttpStatus::InternalServerError)),
        }
    }
}

/// An expired verification link is refused with 410 and its token deleted.
pub proof fn lemma_expired_verification_link_discarded(w: World, token: String, fuel: nat)
    requires
        w.verification_tokens.contains_key(token@),
        expired_at(w.verification_tokens[token@].expires_at, w.now),
        fuel >= 3,
    ensures
        run(VerifyEmailFlow::Lookup { token }, Effect::FindVerificationToken(token), w, fuel) == (
            World { verification_tokens: w.verification_tokens.remove(token@), ..w },
            Some(Err::<Reply, HttpStatus>(HttpStatus::Gone)),
        ),
{
    let record = w.verification_tokens[token@];
    let check = VerifyEmailFlow::CheckExpiry { token, record };
    let w2 = World { verification_tokens: w.verification_tokens.remove(token@), ..w };
    assert(run(VerifyEmailFlow::Lookup { token }, Effect::FindVerificationToken(token), w, fuel)
        == run(check, Effect::ReadClock, w, (fuel - 1) as nat));
    assert(run(check, Effect::ReadClock, w, (fuel - 1) as nat)
        == run(VerifyEmailFlow::DiscardExpired, Effect::DeleteVerificationToken(token), w, (fuel - 2) as nat));
    assert(run(VerifyEmailFlow::DiscardExpired, Effect::DeleteVerificationToken(token), w, (fuel - 2) as nat)
        == run(VerifyEmailFlow::Finished, refusal(HttpStatus::Gone), w2, (fuel - 3) as nat));
}

/// A live verification link marks its account's email verified and is
/// consumed: its token is deleted.
pub proof fn lemma_verification_link_verifies(w: World, token: String, fuel: nat)
    requires
        w.verification_tokens.contains_key(token@),
        !expired_at(w.verification_tokens[token@].expires_at, w.now),
        fuel >= 4,
    ensures
        run(VerifyEmailFlow::Lookup { token }, Effect::FindVerificationToken(token), w, fuel) == (
            World {
                users: with_email_verified(w.users, w.verification_tokens[token@].user_id),
                verification_tokens: w.verification_tokens.remove(token@),
                ..w
            },
            Some(Ok::<Reply, HttpStatus>(Reply::Message(Notice::EmailVerified))),
        ),
{
    let record = w.verification_tokens[token@];
    let check = VerifyEmailFlow::CheckExpiry { token, record };
    let w2 = World { users: with_email_verified(w.users, record.user_id), ..w };
    let w3 = World { verification_tokens: w.verification_tokens.remove(token@), ..w2 };
    assert(run(VerifyEmailFlow::Lookup { token }, Effect::FindVerificationToken(token), w, fuel)
        == run(check, Effect::ReadClock, w, (fuel - 1) as nat));
    assert(run(check, Effect::ReadClock, w, (fuel - 1) as nat)
        == run(VerifyEmailFlow::Verify { token }, Effect::VerifyUserEmail(record.user_id), w, (fuel - 2) as nat));
    assert(run(VerifyEmailFlow::Verify { token }, Effect::VerifyUserEmail(record.user_id), w, (fuel - 2) as nat)
        == run(VerifyEmailFlow::Consume, Effect::DeleteVerificationToken(token), w2, (fuel - 3) as nat));
    assert(run(VerifyEmailFlow::Consume, Effect::DeleteVerificationToken(token), w2, (fuel - 3) as nat)
        == run(VerifyEmailFlow::Finished, Effect::Respond(Ok(Reply::Message(Notice::EmailVerified))), w3, (fuel - 4) as nat));
}

/// A verification link whose token is not stored is refused with 404, and
/// nothing changes: no account is marked verified.
pub proof fn lemma_unknown_verification_link_refused(w: World, token: String, fuel: nat)
    requires
        !w.verification_tokens.contains_key(token@),
        fuel >= 1,
    ensures
        run(VerifyEmailFlow::Lookup { token }, Effect::FindVerificationToken(token), w, fuel)
            == (w, Some(Err::<Reply, HttpStatus>(HttpStatus::NotFound))),
        trace(VerifyEmailFlow::Lookup { token }, Effect::FindVerificationToken(token), w, fuel)
            == seq![Effect::FindVerificationToken(token)],
{
    assert(run(VerifyEmailFlow::Lookup { token }, Effect::FindVerificationToken(token), w, fuel)
        == run(VerifyEmailFlow::Finished, refusal(HttpStatus::NotFound), w, (fuel - 1) as nat));
    assert(trace(VerifyEmailFlow::Lookup { token }, Effect::FindVerificationToken(token), w, fuel)
        =~= seq![Effect::FindVerificationToken(token)]);
}

/// An email verification, from its `token` query parameter: without one it
/// is refused with 400; a token that is not stored is refused with 404 and
/// changes nothing; an expired one is refused with 410 and deleted; a live
/// one marks the email of the token's account verified and is deleted.
pub proof fn lemma_verify_email_request(w: World, token: Option<String>, fuel: nat)
    requires
        fuel >= 4,
    ensures
        ({
            let (h, e) = verify_email_begin(token);
            let t = token->Some_0;
            &&& token is None ==> run(h, e, w, fuel) == (w, Some(Err::<Reply, HttpStatus>(HttpStatus::BadRequest)))
            &&& token is Some && !w.verification_tokens.contains_key(t@)
                ==> run(h, e, w, fuel) == (w, Some(Err::<Reply, HttpStatus>(HttpStatus::NotFound)))
            &&& token is Some && w.verification_tokens.contains_key(t@)
                && expired_at(w.verification_tokens[t@].expires_at, w.now) ==> run(h, e, w, fuel) == (
                    World { verification_tokens: w.verification_tokens.remove(t@), ..w },
                    Some(Err::<Reply, HttpStatus>(HttpStatus::Gone)),
                )
            &&& token is Some && w.verification_tokens.contains_key(t@)
                && !expired_at(w.verification_tokens[t@].expires_at, w.now) ==> run(h, e, w, fuel) == (
                    World {
                        users: with_email_verified(w.users, w.verification_tokens[t@].user_id),
                        verification_tokens: w.verification_tokens.remove(t@),
                        ..w
                    },
                    Some(Ok::<Reply, HttpStatus>(Reply::Message(Notice::EmailVerified))),
                )
        }),
{
    if let Some(t) = token {
        assert(verify_email_begin(token) == (VerifyEmailFlow::Lookup { token: t }, Effect::FindVerificationToken(t)));
        if !w.verification_tokens.contains_key(t@) {
            lemma_unknown_verification_link_refused(w, t, fuel);
        } else if expired_at(w.verification_tokens[t@].expires_at, w.now) {
            lemma_expired_verification_link_discarded(w, t, fuel);
        } else {
            lemma_verification_link_verifies(w, t, fuel);
        }
    }
}

/// A verification that succeeds consumes its token: it is no longer stored.
pub proof fn lemma_verification_success_consumes_token(w: World, token: String, fuel: nat)
    requires
        fuel >= 4,
    ensures
        ({
            let (after, answer) = run(VerifyEmailFlow::Lookup { token }, Effect::FindVerificationToken(token), w, fuel);
            answer matches Some(Ok(_)) ==> !after.verification_tokens.contains_key(token@)
        }),
{
    if !w.verification_tokens.contains_key(token@) {
        lemma_unknown_verification_link_refused(w, token, fuel);
    } else if expired_at(w.verification_tokens[token@].expires_at, w.now) {
        lemma_expired_verification_link_discarded(w, token, fuel);
    } else {
        lemma_verification_link_verifies(w, token, fuel);
    }
}

/// A verification link works once. Once a verification has succeeded, any
/// later verification with the same token, after any other requests that do
/// not store that token text again, is refused with 404 and changes nothing:
/// no account is marked verified by it.
pub proof fn lemma_verification_link_works_once(
    w: World,
    token: String,
    between: Seq<Effect>,
    later: World,
    fuel: nat,
)
    requires
        run(VerifyEmailFlow::Lookup { token }, Effect::FindVerificationToken(token), w, fuel).1 matches Some(Ok(_)),
        forall|i: int| 0 <= i < between.len() ==> !creates_verification_token(#[trigger] between[i], token@),
        later.verification_tokens == perform_all(
            run(VerifyEmailFlow::Lookup { token }, Effect::FindVerificationToken(token), w, fuel).0,
            between,
        ).verification_tokens,
        fuel >= 4,
    ensures
        run(VerifyEmailFlow::Lookup { token }, Effect::FindVerificationToken(token), later, fuel)
            == (later, Some(Err::<Reply, HttpStatus>(HttpStatus::NotFound))),
{
    lemma_verification_success_consumes_token(w, token, fuel);
    let first = run(VerifyEmailFlow::Lookup { token }, Effect::FindVerificationToken(token), w, fuel).0;
    lemma_effects_keep_verification_token_absent(first, between, token@);
    lemma_unknown_verification_link_refused(later, token, fuel);
}

/// A verification link works once, from the requests: once a verification
/// with the `token` parameter `t` has succeeded, a later verification with
/// the same parameter, after any other requests that do not store `t` again,
/// is refused with 404, changes nothing, and performs nothing but the
/// lookup: no account is marked verified by it.
pub proof fn lemma_verify_email_request_works_once(
    w: World,
    t: String,
    between: Seq<Effect>,
    later: World,
    fuel: nat,
)
    requires
        run(verify_email_begin(Some(t)).0, verify_email_begin(Some(t)).1, w, fuel).1 matches Some(Ok(_)),
        forall|i: int| 0 <= i < between.len() ==> !creates_verification_token(#[trigger] between[i], t@),
        later.verification_tokens == perform_all(
            run(verify_email_begin(Some(t)).0, verify_email_begin(Some(t)).1, w, fuel).0,
            between,
        ).verification_tokens,
        fuel >= 4,
    ensures
        run(verify_email_begin(Some(t)).0, verify_email_begin(Some(t)).1, later, fuel)
            == (later, Some(Err::<Reply, HttpStatus>(HttpStatus::NotFound))),
        trace(verify_email_begin(Some(t)).0, verify_email_begin(Some(t)).1, later, fuel)
            == seq![Effect::FindVerificationToken(t)],
{
    assert(verify_email_begin(Some(t)) == (VerifyEmailFlow::Lookup { token: t }, Effect::FindVerificationToken(t)));
    lemma_verification_success_consumes_token(w, t, fuel);
    lemma_effects_keep_verification_token_absent(
        run(verify_email_begin(Some(t)).0, verify_email_begin(Some(t)).1, w, fuel).0,
        between,
        t@,
    );
    lemma_unknown_verification_link_refused(later, t, fuel);
}

/// A registration whose email or username is taken is refused with 409 and
/// changes nothing.
pub proof fn lemma_register_taken_refused(w: World, data: RegisterUserData, fuel: nat)
    requires
        has_email(w.users, data.email@) || has_username(w.users, data.username@),
        fuel >= 2,
    ensures
        run(RegisterFlow::CheckEmail { data }, Effect::FindUserByEmail(data.email), w, fuel)
            == (w, Some(Err::<Reply, HttpStatus>(HttpStatus::Conflict))),
{
    let start = RegisterFlow::CheckEmail { data };
    if has_email(w.users, data.email@) {
        assert(run(start, Effect::FindUserByEmail(data.email), w, fuel)
            == run(RegisterFlow::Finished, refusal(HttpStatus::Conflict), w, (fuel - 1) as nat));
    } else {
        assert(run(start, Effect::FindUserByEmail(data.email), w, fuel)
            == run(RegisterFlow::CheckUsername { data }, Effect::FindUserByUsername(data.username), w, (fuel - 1) as nat));
        assert(run(RegisterFlow::CheckUsername { data }, Effect::FindUserByUsername(data.username), w, (fuel - 1) as nat)
            == run(RegisterFlow::Finished, refusal(HttpStatus::Conflict), w, (fuel - 2) as nat));
    }
}

/// A registration with a free email and username creates an unverified
/// account with the hashed password, stores a verification token that
/// expires in 24 hours, mails the link, and answers with the new profile and
/// an access token.
pub proof fn lemma_register_creates_account(w: World, data: RegisterUserData, fuel: nat)
    requires
        !has_email(w.users, data.email@),
        !has_username(w.users, data.username@),
        !w.users.contains_key(w.fresh_id),
        w.hashed is Ok,
        !w.verification_tokens.contains_key(w.fresh_token@),
        later_by(w.now, VERIFICATION_TOKEN_LIFETIME) is Some,
        w.mail is Ok,
        w.jwt_secret is Some,
        w.signed is Ok,
        fuel >= 10,
    ensures
        ({
            let user = new_user_row(w, data.username, data.email, w.hashed->Ok_0, UserRole::User);
            let token_row = MailToken {
                user_id: w.fresh_id,
                token: w.fresh_token,
                expires_at: later_by(w.now, VERIFICATION_TOKEN_LIFETIME)->Some_0,
            };
            run(RegisterFlow::CheckEmail { data }, Effect::FindUserByEmail(data.email), w, fuel) == (
                World {
                    users: w.users.insert(w.fresh_id, user),
                    verification_tokens: w.verification_tokens.insert(w.fresh_token@, token_row),
                    ..w
                },
                Some(Ok::<Reply, HttpStatus>(Reply::User(UserResponse { user: user_data_of(user, w.signed->Ok_0) }))),
            )
        }),
        trace(RegisterFlow::CheckEmail { data }, Effect::FindUserByEmail(data.email), w, fuel) == seq![
            Effect::FindUserByEmail(data.email),
            Effect::FindUserByUsername(data.username),
            Effect::HashPassword(data.password),
            Effect::CreateUser {
                username: data.username,
                email: data.email,
                password_hash: w.hashed->Ok_0,
                role: UserRole::User,
            },
            Effect::GenerateVerificationToken,
            Effect::ReadClock,
            Effect::CreateVerificationToken {
                user_id: w.fresh_id,
                token: w.fresh_token,
                expires_at: later_by(w.now, VERIFICATION_TOKEN_LIFETIME)->Some_0,
            },
            Effect::SendVerificationEmail { to: data.email, username: data.username, token: w.fresh_token },
            Effect::ReadJwtSecret,
            Effect::GenerateJwt { user_id: w.fresh_id, secret: w.jwt_secret->Some_0 },
        ],
{
    let hash = w.hashed->Ok_0;
    let user = new_user_row(w, data.username, data.email, hash, UserRole::User);
    let token = w.fresh_token;
    let expires_at = later_by(w.now, VERIFICATION_TOKEN_LIFETIME)->Some_0;
    let token_row = MailToken { user_id: w.fresh_id, token, expires_at };
    let secret = w.jwt_secret->Some_0;
    let w2 = World { users: w.users.insert(w.fresh_id, user), ..w };
    let w3 = World { verification_tokens: w.verification_tokens.insert(token@, token_row), ..w2 };
    let s1 = RegisterFlow::CheckUsername { data };
    let s2 = RegisterFlow::Hash { username: data.username, email: data.email };
    let create = Effect::CreateUser { username: data.username, email: data.email, password_hash: hash, role: UserRole::User };
    let store = Effect::CreateVerificationToken { user_id: user.id, token, expires_at };
    let mail = Effect::SendVerificationEmail { to: user.email, username: user.username, token };
    assert(run(RegisterFlow::CheckEmail { data }, Effect::FindUserByEmail(data.email), w, fuel)
        == run(s1, Effect::FindUserByUsername(data.username), w, (fuel - 1) as nat));
    assert(run(s1, Effect::FindUserByUsername(data.username), w, (fuel - 1) as nat)
        == run(s2, Effect::HashPassword(data.password), w, (fuel - 2) as nat));
    assert(run(s2, Effect::HashPassword(data.password), w, (fuel - 2) as nat)
        == run(RegisterFlow::Create, create, w, (fuel - 3) as nat));
    assert(run(RegisterFlow::Create, create, w, (fuel - 3) as nat)
        == run(RegisterFlow::Generate { user }, Effect::GenerateVerificationToken, w2, (fuel - 4) as nat));
    assert(run(RegisterFlow::Generate { user }, Effect::GenerateVerificationToken, w2, (fuel - 4) as nat)
        == run(RegisterFlow::Clock { user, token }, Effect::ReadClock, w2, (fuel - 5) as nat));
    assert(run(RegisterFlow::Clock { user, token }, Effect::ReadClock, w2, (fuel - 5) as nat)
        == run(RegisterFlow::StoreToken { user, token }, store, w2, (fuel - 6) as nat));
    assert(run(RegisterFlow::StoreToken { user, token }, store, w2, (fuel - 6) as nat)
        == run(RegisterFlow::Mail { user }, mail, w3, (fuel - 7) as nat));
    assert(run(RegisterFlow::Mail { user }, mail, w3, (fuel - 7) as nat)
        == run(RegisterFlow::Secret { user }, Effect::ReadJwtSecret, w3, (fuel - 8) as nat));
    let sign = Effect::GenerateJwt { user_id: user.id, secret };
    assert(run(RegisterFlow::Secret { user }, Effect::ReadJwtSecret, w3, (fuel - 8) as nat)
        == run(RegisterFlow::Sign { user }, sign, w3, (fuel - 9) as nat));
    let reply = Reply::User(UserResponse { user: user_data_of(user, w.signed->Ok_0) });
    assert(run(RegisterFlow::Sign { user }, sign, w3, (fuel - 9) as nat)
        == run(RegisterFlow::Finished, Effect::Respond(Ok(reply)), w3, (fuel - 10) as nat));
    assert(trace(RegisterFlow::CheckEmail { data }, Effect::FindUserByEmail(data.email), w, fuel) =~= seq![
        Effect::FindUserByEmail(data.email),
        Effect::FindUserByUsername(data.username),
        Effect::HashPassword(data.password),
        create,
        Effect::GenerateVerificationToken,
        Effect::ReadClock,
        store,
        mail,
        Effect::ReadJwtSecret,
        sign,
    ]);
}

/// A registration, from its request: a body that breaks the rules is
/// refused with 400; a body whose email or username an account already has
/// is refused with 409; either way nothing changes. A body with a free email
/// and username creates the account with that email and username, stores
/// its verification token, mails the link to that email, naming that
/// username, and signs an access token for the new account alone.
pub proof fn lemma_register_request(w: World, request: RegisterUserRequest, fuel: nat)
    requires
        fuel >= 10,
    ensures
        ({
            let (h, e) = register_begin(request);
            let data = request.user;
            let user = new_user_row(w, data.username, data.email, w.hashed->Ok_0, UserRole::User);
            let expires_at = later_by(w.now, VERIFICATION_TOKEN_LIFETIME)->Some_0;
            &&& register_issues(data).len() != 0
                ==> run(h, e, w, fuel) == (w, Some(Err::<Reply, HttpStatus>(HttpStatus::BadRequest)))
            &&& register_issues(data).len() == 0 && (has_email(w.users, data.email@) || has_username(w.users, data.username@))
                ==> run(h, e, w, fuel) == (w, Some(Err::<Reply, HttpStatus>(HttpStatus::Conflict)))
            &&& register_issues(data).len() == 0 && !has_email(w.users, data.email@)
                && !has_username(w.users, data.username@) && !w.users.contains_key(w.fresh_id) && w.hashed is Ok
                && !w.verification_tokens.contains_key(w.fresh_token@)
                && later_by(w.now, VERIFICATION_TOKEN_LIFETIME) is Some && w.mail is Ok && w.jwt_secret is Some
                && w.signed is Ok ==> {
                &&& run(h, e, w, fuel) == (
                    World {
                        users: w.users.insert(w.fresh_id, user),
                        verification_tokens: w.verification_tokens.insert(
                            w.fresh_token@,
                            MailToken { user_id: w.fresh_id, token: w.fresh_token, expires_at },
                        ),
                        ..w
                    },
                    Some(Ok::<Reply, HttpStatus>(Reply::User(UserResponse { user: user_data_of(user, w.signed->Ok_0) }))),
                )
                &&& trace(h, e, w, fuel).contains(
                    Effect::SendVerificationEmail { to: data.email, username: data.username, token: w.fresh_token },
                )
                &&& trace(h, e, w, fuel).contains(Effect::HashPassword(data.password))
                &&& forall|i: int| 0 <= i < trace(h, e, w, fuel).len()
                    ==> (#[trigger] trace(h, e, w, fuel)[i] matches Effect::GenerateJwt { user_id, .. } ==> user_id == w.fresh_id)
            }
        }),
{
    let data = request.user;
    if register_issues(data).len() == 0 {
        assert(register_begin(request) == (RegisterFlow::CheckEmail { data }, Effect::FindUserByEmail(data.email)));
        if has_email(w.users, data.email@) || has_username(w.users, data.username@) {
            lemma_register_taken_refused(w, data, fuel);
        } else if !w.users.contains_key(w.fresh_id) && w.hashed is Ok
            && !w.verification_tokens.contains_key(w.fresh_token@)
            && later_by(w.now, VERIFICATION_TOKEN_LIFETIME) is Some && w.mail is Ok && w.jwt_secret is Some
            && w.signed is Ok {
            lemma_register_creates_account(w, data, fuel);
            let t = trace(RegisterFlow::CheckEmail { data }, Effect::FindUserByEmail(data.email), w, fuel);
            assert(t[7] == Effect::SendVerificationEmail { to: data.email, username: data.username, token: w.fresh_token });
            assert(t[2] == Effect::HashPassword(data.password));
        }
    }
}

/// The failures of a registration once the account exists: where the
/// token's expiry does not fit or the token cannot be stored, the request is
/// refused with 500 and the account stays, with no token; where the mail
/// cannot be sent, it is refused with 500 and the account and its token stay.
pub proof fn lemma_register_failures_after_account(w: World, data: RegisterUserData, fuel: nat)
    requires
        !has_email(w.users, data.email@),
        !has_username(w.users, data.username@),
        !w.users.contains_key(w.fresh_id),
        w.hashed is Ok,
        later_by(w.now, VERIFICATION_TOKEN_LIFETIME) is None
            || w.verification_tokens.contains_key(w.fresh_token@)
            || w.mail is Err,
        fuel >= 8,
    ensures
        ({
            let user = new_user_row(w, data.username, data.email, w.hashed->Ok_0, UserRole::User);
            let with_account = World { users: w.users.insert(w.fresh_id, user), ..w };
            let (after, answer) = run(RegisterFlow::CheckEmail { data }, Effect::FindUserByEmail(data.email), w, fuel);
            &&& answer == Some(Err::<Reply, HttpStatus>(HttpStatus::InternalServerError))
            &&& (later_by(w.now, VERIFICATION_TOKEN_LIFETIME) is None || w.verification_tokens.contains_key(w.fresh_token@))
                ==> after == with_account
            &&& (later_by(w.now, VERIFICATION_TOKEN_LIFETIME) is Some && !w.verification_tokens.contains_key(w.fresh_token@))
                ==> after == World {
                    verification_tokens: w.verification_tokens.insert(w.fresh_token@, MailToken {
                        user_id: w.fresh_id,
                        token: w.fresh_token,
                        expires_at: later_by(w.now, VERIFICATION_TOKEN_LIFETIME)->Some_0,
                    }),
                    ..with_account
                }
        }),
{
    let hash = w.hashed->Ok_0;
    let user = new_user_row(w, data.username, data.email, hash, UserRole::User);
    let token = w.fresh_token;
    let w2 = World { users: w.users.insert(w.fresh_id, user), ..w };
    let s1 = RegisterFlow::CheckUsername { data };
    let s2 = RegisterFlow::Hash { username: data.username, email: data.email };
    let create = Effect::CreateUser { username: data.username, email: data.email, password_hash: hash, role: UserRole::User };
    assert(run(RegisterFlow::CheckEmail { data }, Effect::FindUserByEmail(data.email), w, fuel)
        == run(s1, Effect::FindUserByUsername(data.username), w, (fuel - 1) as nat));
    assert(run(s1, Effect::FindUserByUsername(data.username), w, (fuel - 1) as nat)
        == run(s2, Effect::HashPassword(data.password), w, (fuel - 2) as nat));
    assert(run(s2, Effect::HashPassword(data.password), w, (fuel - 2) as nat)
        == run(RegisterFlow::Create, create, w, (fuel - 3) as nat));
    assert(run(RegisterFlow::Create, create, w, (fuel - 3) as nat)
        == run(RegisterFlow::Generate { user }, Effect::GenerateVerificationToken, w2, (fuel - 4) as nat));
    assert(run(RegisterFlow::Generate { user }, Effect::GenerateVerificationToken, w2, (fuel - 4) as nat)
        == run(RegisterFlow::Clock { user, token }, Effect::ReadClock, w2, (fuel - 5) as nat));
    match later_by(w.now, VERIFICATION_TOKEN_LIFETIME) {
        None => {
            assert(run(RegisterFlow::Clock { user, token }, Effect::ReadClock, w2, (fuel - 5) as nat)
                == run(RegisterFlow::Finished, refusal(HttpStatus::InternalServerError), w2, (fuel - 6) as nat));
        },
        Some(expires_at) => {
            let store = Effect::CreateVerificationToken { user_id: user.id, token, expires_at };
            assert(run(RegisterFlow::Clock { user, token }, Effect::ReadClock, w2, (fuel - 5) as nat)
                == run(RegisterFlow::StoreToken { user, token }, store, w2, (fuel - 6) as nat));
            if w.verification_tokens.contains_key(token@) {
                assert(run(RegisterFlow::StoreToken { user, token }, store, w2, (fuel - 6) as nat)
                    == run(RegisterFlow::Finished, refusal(HttpStatus::InternalServerError), w2, (fuel - 7) as nat));
            } else {
                let token_row = MailToken { user_id: w.fresh_id, token, expires_at };
                let w3 = World { verification_tokens: w.verification_tokens.insert(token@, token_row), ..w2 };
                let mail = Effect::SendVerificationEmail { to: user.email, username: user.username, token };
                assert(run(RegisterFlow::StoreToken { user, token }, store, w2, (fuel - 6) as nat)
                    == run(RegisterFlow::Mail { user }, mail, w3, (fuel - 7) as nat));
                assert(run(RegisterFlow::Mail { user }, mail, w3, (fuel - 7) as nat)
                    == run(RegisterFlow::Finished, refusal(HttpStatus::InternalServerError), w3, (fuel - 8) as nat));
            }
        },
    }
}


/// Where the database, the hasher, the mailer or the signer fails, a
/// registration ends at once with 500.
pub proof fn lemma_register_failure_is_server_error(h: RegisterFlow, outcome: Outcome)
    requires
        reports_failure(outcome),
    ensures
        h.transition(outcome) == (RegisterFlow::Finished, refusal(HttpStatus::InternalServerError)),
{
}

/// Where the database fails, an email verification ends at once with 500.
pub proof fn lemma_verify_email_failure_is_server_error(h: VerifyEmailFlow, outcome: Outcome)
    requires
        reports_failure(outcome),
    ensures
        h.transition(outcome) == (VerifyEmailFlow::Finished, refusal(HttpStatus::InternalServerError)),
{
}

} // verus!
