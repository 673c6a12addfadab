use vstd::prelude::*;
use crate::effects::{refusal, refuse, reports_failure, Effect, Handler, Notice, Outcome, Reply};
use crate::models::{expired_at, expiry_after, later_by, MailToken, User, RESET_TOKEN_LIFETIME};
use crate::schemas::{forgot_password_issues, reset_password_issues, ForgotPasswordRequest, ResetPasswordRequest};
use crate::status::HttpStatus;
use crate::world::{
    creates_reset_token, has_email, lemma_effects_keep_reset_token_absent, perform_all, run, trace, user_by_email,
    with_password, without_user_mail_tokens, World,
};

verus! {

/// Where `POST /api/auth/forgot-password` stands.
///
/// The answer is the same whether or not an account has the email, so that
/// the endpoint does not tell which addresses are registered.
pub enum ForgotPasswordFlow {
    /// Waiting for the account with the email.
    FindUser,
    /// Waiting for a reset token.
    Generate { user: User },
    /// Waiting for the clock, to date the token's expiry.
    Clock { user: User, token: String },
    /// Waiting for the token to be stored.
    Store { user: User, token: String },
    /// Waiting for the reset mail to go out.
    Mail,
    Finished,
}

/// The answer that every request for a reset link gets when nothing fails.
pub open spec fn reset_link_answer() -> Effect {
    Effect::Respond(Ok(Reply::Message(Notice::ResetLinkSent)))
}

/// How a request for a reset link begins: with the email checked, then a
/// lookup of it.
pub open spec fn forgot_password_begin(request: ForgotPasswordRequest) -> (ForgotPasswordFlow, Effect) {
    if forgot_password_issues(request).len() != 0 {
        (ForgotPasswordFlow::Finished, refusal(HttpStatus::BadRequest))
    } else {
        (ForgotPasswordFlow::FindUser, Effect::FindUserByEmail(request.email))
    }
}

impl ForgotPasswordFlow {
    /// Begin handling a request for a reset link.
    pub fn start(request: ForgotPasswordRequest) -> (r: (ForgotPasswordFlow, Effect))
        ensures
            r == forgot_password_begin(request),
    {
        match request.validate() {
            Err(_) => (ForgotPasswordFlow::Finished, refuse(HttpStatus::BadRequest)),
            Ok(()) => (ForgotPasswordFlow::FindUser, Effect::FindUserByEmail(request.email)),
        }
    }
}

impl Handler for ForgotPasswordFlow {
    open spec fn transition(self, outcome: Outcome) -> (ForgotPasswordFlow, Effect) {
        match self {
            ForgotPasswordFlow::FindUser => match outcome {
                Outcome::UserLookup(Ok(None)) => (ForgotPasswordFlow::Finished, reset_link_answer()),
                Outcome::UserLookup(Ok(Some(user))) => (
                    ForgotPasswordFlow::Generate { user },
                    Effect::GenerateVerificationToken,
                ),
                _ => (ForgotPasswordFlow::Finished, refusal(HttpStatus::InternalServerError)),
            },
            ForgotPasswordFlow::Generate { user } => match outcome {
                Outcome::Generated(token) => (ForgotPasswordFlow::Clock { user, token }, Effect::ReadClock),
                _ => (ForgotPasswordFlow::Finished, refusal(HttpStatus::InternalServerError)),
            },
            ForgotPasswordFlow::Clock { user, token } => match outcome {
                Outcome::Clock(now) => match later_by(now, RESET_TOKEN_LIFETIME) {
                    Some(expires_at) => (
                        ForgotPasswordFlow::Store { user, token },
                        Effect::CreateResetToken { user_id: user.id, token, expires_at },
                    ),
                    None => (ForgotPasswordFlow::Finished, refusal(HttpStatus::InternalServerError)),
                },
                _ => (ForgotPasswordFlow::Finished, refusal(HttpStatus::InternalServerError)),
            },
            ForgotPasswordFlow::Store { user, token } => match outcome {
                Outcome::Written(Ok(())) => (
                    ForgotPasswordFlow::Mail,
                    Effect::SendPasswordResetEmail { to: user.email, username: user.username, token },
                ),
                _ => (ForgotPasswordFlow::Finished, refusal(HttpStatus::InternalServerError)),
            },
            ForgotPasswordFlow::Mail => match outcome {
                Outcome::Sent(Ok(())) => (ForgotPasswordFlow::Finished, reset_link_answer()),
                _ => (ForgotPasswordFlow::Finished, refusal(HttpStatus::InternalServerError)),
            },
            ForgotPasswordFlow::Finished => (ForgotPasswordFlow::Finished, refusal(HttpStatus::InternalServerError)),
        }
    }

    fn step(self, outcome: Outcome) -> (r: (ForgotPasswordFlow, Effect)) {
        match self {
            ForgotPasswordFlow::FindUser => match outcome {
                Outcome::UserLookup(Ok(None)) => (
                    ForgotPasswordFlow::Finished,
                    Effect::Respond(Ok(Reply::Message(Notice::ResetLinkSent))),
                ),
                Outcome::UserLookup(Ok(Some(user))) => (
                    ForgotPasswordFlow::Generate { user },
                    Effect::GenerateVerificationToken,
                ),
                _ => (ForgotPasswordFlow::Finished, refuse(HttpStatus::InternalServerError)),
            },
            ForgotPasswordFlow::Generate { user } => match outcome {
                Outcome::Generated(token) => (ForgotPasswordFlow::Clock { user, token }, Effect::ReadClock),
                _ => (ForgotPasswordFlow::Finished, refuse(HttpStatus::InternalServerError)),
            },
            ForgotPasswordFlow::Clock { user, token } => match outcome {
                Outcome::Clock(now) => match expiry_after(now, RESET_TOKEN_LIFETIME) {
                    Some(expires_at) => {
                        let user_id = user.id;
                        let stored = token.clone();
                        (
                            ForgotPasswordFlow::Store { user, token },
                            Effect::CreateResetToken { user_id, token: stored, expires_at },
                        )
                    },
                    None => (ForgotPasswordFlow::Finished, refuse(HttpStatus::InternalServerError)),
                },
                _ => (ForgotPasswordFlow::Finished, refuse(HttpStatus::InternalServerError)),
            },
            ForgotPasswordFlow::Store { user, token } => match outcome {
                Outcome::Written(Ok(())) => (
                    ForgotPasswordFlow::Mail,
                    Effect::SendPasswordResetEmail { to: user.email, username: user.username, token },
                ),
                _ => (ForgotPasswordFlow::Finished, refuse(HttpStatus::InternalServerError)),
            },
            ForgotPasswordFlow::Mail => match outcome {
                Outcome::Sent(Ok(())) => (
                    ForgotPasswordFlow::Finished,
                    Effect::Respond(Ok(Reply::Message(Notice::ResetLinkSent))),
                ),
                _ => (ForgotPasswordFlow::Finished, refuse(HttpStatus::InternalServerError)),
            },
            ForgotPasswordFlow::Finished => (ForgotPasswordFlow::Finished, refuse(HttpStatus::InternalServerError)),
        }
    }
}

/// Where `POST /api/auth/reset-password` stands.
pub enum ResetPasswordFlow {
    /// Waiting for the stored reset token.
    Lookup { token: String, new_password: String },
    /// Waiting for the clock, to check the token for expiry.
    CheckExpiry { token: String, new_password: String, record: MailToken },
    /// Waiting for the expired token to be deleted.
    DiscardExpired,
    /// Waiting for the hash of the new password.
    Hash { user_id: u128 },
    /// Waiting for the new hash to be stored.
    Update { user_id: u128 },
    /// Waiting for all the user's reset tokens to be deleted.
    Purge,
    Finished,
}

/// How a password reset begins: with the new password checked, then a lookup
/// of the token.
pub open spec fn reset_password_begin(request: ResetPasswordRequest) -> (ResetPasswordFlow, Effect) {
    if reset_password_issues(request).len() != 0 {
        (ResetPasswordFlow::Finished, refusal(HttpStatus::BadRequest))
    } else {
        (
            ResetPasswordFlow::Lookup { token: request.token, new_password: request.new_password },
            Effect::FindResetToken(request.token),
        )
    }
}

impl ResetPasswordFlow {
    /// Begin handling a password reset.
    pub fn start(request: ResetPasswordRequest) -> (r: (ResetPasswordFlow, Effect))
        ensures
            r == reset_password_begin(request),
    {
        match request.validate() {
            Err(_) => (ResetPasswordFlow::Finished, refuse(HttpStatus::BadRequest)),
            Ok(()) => {
                let lookup = request.token.clone();
                (
                    ResetPasswordFlow::Lookup { token: request.token, new_password: request.new_password },
                    Effect::FindResetToken(lookup),
                )
            },
        }
    }
}

impl Handler for ResetPasswordFlow {
    open spec fn transition(self, outcome: Outcome) -> (ResetPasswordFlow, Effect) {
        match self {
            ResetPasswordFlow::Lookup { token, new_password } => match outcome {
                Outcome::MailTokenLookup(Ok(Some(record))) => (
                    ResetPasswordFlow::CheckExpiry { token, new_password, record },
                    Effect::ReadClock,
                ),
                Outcome::MailTokenLookup(Ok(None)) => (ResetPasswordFlow::Finished, refusal(HttpStatus::NotFound)),
                _ => (ResetPasswordFlow::Finished, refusal(HttpStatus::InternalServerError)),
            },
            ResetPasswordFlow::CheckExpiry { token, new_password, record } => match outcome {
                Outcome::Clock(now) => if expired_at(record.expires_at, now) {
                    (ResetPasswordFlow::DiscardExpired, Effect::DeleteResetToken(token))
                } else {
                    (ResetPasswordFlow::Hash { user_id: record.user_id }, Effect::HashPassword(new_password))
                },
                _ => (ResetPasswordFlow::Finished, refusal(HttpStatus::InternalServerError)),
            },
            ResetPasswordFlow::DiscardExpired => match outcome {
                Outcome::Written(Ok(())) => (ResetPasswordFlow::Finished, refusal(HttpStatus::Gone)),
                _ => (ResetPasswordFlow::Finished, refusal(HttpStatus::InternalServerError)),
            },
            ResetPasswordFlow::Hash { user_id } => match outcome {
                Outcome::Hashed(Ok(password_hash)) => (
                    ResetPasswordFlow::Update { user_id },
                    Effect::UpdatePassword { user_id, password_hash },
                ),
                _ => (ResetPasswordFlow::Finished, refusal(HttpStatus::InternalServerError)),
            },
            ResetPasswordFlow::Update { user_id } => match outcome {
                Outcome::Written(Ok(())) => (ResetPasswordFlow::Purge, Effect::DeleteAllResetTokens(user_id)),
                _ => (ResetPasswordFlow::Finished, refusal(HttpStatus::InternalServerError)),
            },
            ResetPasswordFlow::Purge => match outcome {
                Outcome::Written(Ok(())) => (
                    ResetPasswordFlow::Finished,
                    Effect::Respond(Ok(Reply::Message(Notice::PasswordReset))),
                ),
                _ => (ResetPasswordFlow::Finished, refusal(HttpStatus::InternalServerError)),
            },
            ResetPasswordFlow::Finished => (ResetPasswordFlow::Finished, refusal(HttpStatus::InternalServerError)),
        }
    }

    fn step(self, outcome: Outcome) -> (r: (ResetPasswordFlow, Effect)) {
        match self {
            ResetPasswordFlow::Lookup { token, new_password } => match outcome {
                Outcome::MailTokenLookup(Ok(Some(record))) => (
                    ResetPasswordFlow::CheckExpiry { token, new_password, record },
                    Effect::ReadClock,
                ),
                Outcome::MailTokenLookup(Ok(None)) => (ResetPasswordFlow::Finished, refuse(HttpStatus::NotFound)),
                _ => (ResetPasswordFlow::Finished, refuse(HttpStatus::InternalServerError)),
            },
            ResetPasswordFlow::CheckExpiry { token, new_password, record } => match outcome {
                Outcome::Clock(now) => if record.is_expired(now) {
                    (ResetPasswordFlow::DiscardExpired, Effect::DeleteResetToken(token))
                } else {
                    (ResetPasswordFlow::Hash { user_id: record.user_id }, Effect::HashPassword(new_password))
                },
                _ => (ResetPasswordFlow::Finished, refuse(HttpStatus::InternalServerError)),
            },
            ResetPasswordFlow::DiscardExpired => match outcome {
                Outcome::Written(Ok(())) => (ResetPasswordFlow::Finished, refuse(HttpStatus::Gone)),
                _ => (ResetPasswordFlow::Finished, refuse(HttpStatus::InternalServerError)),
            },
            ResetPasswordFlow::Hash { user_id } => match outcome {
                Outcome::Hashed(Ok(password_hash)) => (
                    ResetPasswordFlow::Update { user_id },
                    Effect::UpdatePassword { user_id, password_hash },
                ),
                _ => (ResetPasswordFlow::Finished, refuse(HttpStatus::InternalServerError)),
            },
            ResetPasswordFlow::Update { user_id } => match outcome {
                Outcome::Written(Ok(())) => (ResetPasswordFlow::Purge, Effect::DeleteAllResetTokens(user_id)),
                _ => (ResetPasswordFlow::Finished, refuse(HttpStatus::InternalServerError)),
            },
            ResetPasswordFlow::Purge => match outcome {
                Outcome::Written(Ok(())) => (
                    ResetPasswordFlow::Finished,
                    Effect::Respond(Ok(Reply::Message(Notice::PasswordReset))),
                ),
                _ => (ResetPasswordFlow::Finished, refuse(HttpStatus::InternalServerError)),
            },
            ResetPasswordFlow::Finished => (ResetPasswordFlow::Finished, refuse(HttpStatus::InternalServerError)),
        }
    }
}

/// A request for a reset link gets the same answer whether or not an account
/// has the email, as long as the mail goes out and the drawn token is new;
/// only where an account has it is a reset token stored for it, valid for
/// one hour.
pub proof fn lemma_reset_link_answer_hides_accounts(w: World, email: String, fuel: nat)
    requires
        w.mail is Ok,
        !w.reset_tokens.contains_key(w.fresh_token@),
        later_by(w.now, RESET_TOKEN_LIFETIME) is Some,
        fuel >= 5,
    ensures
        ({
            let (after, answer) = run(ForgotPasswordFlow::FindUser, Effect::FindUserByEmail(email), w, fuel);
            &&& answer == Some(Ok::<Reply, HttpStatus>(Reply::Message(Notice::ResetLinkSent)))
            &&& !has_email(w.users, email@) ==> after == w
            &&& has_email(w.users, email@) ==> after == World {
                reset_tokens: w.reset_tokens.insert(w.fresh_token@, MailToken {
                    user_id: user_by_email(w.users, email@)->Some_0.id,
                    token: w.fresh_token,
                    expires_at: later_by(w.now, RESET_TOKEN_LIFETIME)->Some_0,
                }),
                ..w
            }
        }),
        !has_email(w.users, email@)
            ==> trace(ForgotPasswordFlow::FindUser, Effect::FindUserByEmail(email), w, fuel) == seq![Effect::FindUserByEmail(email)],
        has_email(w.users, email@) ==> trace(ForgotPasswordFlow::FindUser, Effect::FindUserByEmail(email), w, fuel) == seq![
            Effect::FindUserByEmail(email),
            Effect::GenerateVerificationToken,
            Effect::ReadClock,
            Effect::CreateResetToken {
                user_id: user_by_email(w.users, email@)->Some_0.id,
                token: w.fresh_token,
                expires_at: later_by(w.now, RESET_TOKEN_LIFETIME)->Some_0,
            },
            Effect::SendPasswordResetEmail {
                to: user_by_email(w.users, email@)->Some_0.email,
                username: user_by_email(w.users, email@)->Some_0.username,
                token: w.fresh_token,
            },
        ],
{
    let start = ForgotPasswordFlow::FindUser;
    if !has_email(w.users, email@) {
        assert(run(start, Effect::FindUserByEmail(email), w, fuel)
            == run(ForgotPasswordFlow::Finished, reset_link_answer(), w, (fuel - 1) as nat));
        assert(trace(start, Effect::FindUserByEmail(email), w, fuel) =~= seq![Effect::FindUserByEmail(email)]);
    } else {
        let user = user_by_email(w.users, email@)->Some_0;
        let token = w.fresh_token;
        let expires_at = later_by(w.now, RESET_TOKEN_LIFETIME)->Some_0;
        let store = Effect::CreateResetToken { user_id: user.id, token, expires_at };
        let mail = Effect::SendPasswordResetEmail { to: user.email, username: user.username, token };
        let w2 = World { reset_tokens: w.reset_tokens.insert(token@, MailToken { user_id: user.id, token, expires_at }), ..w };
        assert(run(start, Effect::FindUserByEmail(email), w, fuel)
            == run(ForgotPasswordFlow::Generate { user }, Effect::GenerateVerificationToken, w, (fuel - 1) as nat));
        assert(run(ForgotPasswordFlow::Generate { user }, Effect::GenerateVerificationToken, w, (fuel - 1) as nat)
            == run(ForgotPasswordFlow::Clock { user, token }, Effect::ReadClock, w, (fuel - 2) as nat));
        assert(run(ForgotPasswordFlow::Clock { user, token }, Effect::ReadClock, w, (fuel - 2) as nat)
            == run(ForgotPasswordFlow::Store { user, token }, store, w, (fuel - 3) as nat));
        assert(run(ForgotPasswordFlow::Store { user, token }, store, w, (fuel - 3) as nat)
            == run(ForgotPasswordFlow::Mail, mail, w2, (fuel - 4) as nat));
        assert(run(ForgotPasswordFlow::Mail, mail, w2, (fuel - 4) as nat)
            == run(ForgotPasswordFlow::Finished, reset_link_answer(), w2, (fuel - 5) as nat));
        assert(trace(start, Effect::FindUserByEmail(email), w, fuel) =~= seq![
            Effect::FindUserByEmail(email),
            Effect::GenerateVerificationToken,
            Effect::ReadClock,
            store,
            mail,
        ]);
    }
}

/// A request for a reset link, from its body: an email that breaks the
/// rules is refused with 400 and changes nothing. Otherwise, where no
/// account has the email, the answer is the usual one, nothing changes and
/// no mail is sent. Where an account has it, a reset token for that account
/// is stored, valid for one hour, and the reset mail goes to that address,
/// naming the account's username and carrying the stored token.
pub proof fn lemma_forgot_password_request(w: World, request: ForgotPasswordRequest, fuel: nat)
    requires
        fuel >= 5,
    ensures
        ({
            let (h, e) = forgot_password_begin(request);
            let email = request.email;
            let user = user_by_email(w.users, email@)->Some_0;
            &&& forgot_password_issues(request).len() != 0
                ==> run(h, e, w, fuel) == (w, Some(Err::<Reply, HttpStatus>(HttpStatus::BadRequest)))
            &&& forgot_password_issues(request).len() == 0 && !has_email(w.users, email@) ==> {
                &&& run(h, e, w, fuel) == (w, Some(Ok::<Reply, HttpStatus>(Reply::Message(Notice::ResetLinkSent))))
                &&& trace(h, e, w, fuel) == seq![Effect::FindUserByEmail(email)]
            }
            &&& forgot_password_issues(request).len() == 0 && has_email(w.users, email@) && w.mail is Ok
                && !w.reset_tokens.contains_key(w.fresh_token@) && later_by(w.now, RESET_TOKEN_LIFETIME) is Some ==> {
                &&& user.email@ == email@
                &&& run(h, e, w, fuel) == (
                    World {
                        reset_tokens: w.reset_tokens.insert(w.fresh_token@, MailToken {
                            user_id: user.id,
                            token: w.fresh_token,
                            expires_at: later_by(w.now, RESET_TOKEN_LIFETIME)->Some_0,
                        }),
                        ..w
                    },
                    Some(Ok::<Reply, HttpStatus>(Reply::Message(Notice::ResetLinkSent))),
                )
                &&& trace(h, e, w, fuel).contains(
                    Effect::SendPasswordResetEmail { to: user.email, username: user.username, token: w.fresh_token },
                )
            }
        }),
{
    let email = request.email;
    if forgot_password_issues(request).len() == 0 {
        assert(forgot_password_begin(request) == (ForgotPasswordFlow::FindUser, Effect::FindUserByEmail(email)));
        if !has_email(w.users, email@) {
            assert(run(ForgotPasswordFlow::FindUser, Effect::FindUserByEmail(email), w, fuel)
                == run(ForgotPasswordFlow::Finished, reset_link_answer(), w, (fuel - 1) as nat));
            assert(trace(ForgotPasswordFlow::FindUser, Effect::FindUserByEmail(email), w, fuel)
                =~= seq![Effect::FindUserByEmail(email)]);
        } else if w.mail is Ok && !w.reset_tokens.contains_key(w.fresh_token@)
            && later_by(w.now, RESET_TOKEN_LIFETIME) is Some {
            lemma_reset_link_answer_hides_accounts(w, email, fuel);
            let user = user_by_email(w.users, email@)->Some_0;
            let t = trace(ForgotPasswordFlow::FindUser, Effect::FindUserByEmail(email), w, fuel);
            assert(t[4] == Effect::SendPasswordResetEmail { to: user.email, username: user.username, token: w.fresh_token });
        }
    }
}

/// An expired reset link is refused with 410 and its token deleted; the
/// password is unchanged.
pub proof fn lemma_expired_reset_link_discarded(w: World, token: String, new_password: String, fuel: nat)
    requires
        w.reset_tokens.contains_key(token@),
        expired_at(w.reset_tokens[token@].expires_at, w.now),
        fuel >= 3,
    ensures
        run(ResetPasswordFlow::Lookup { token, new_password }, Effect::FindResetToken(token), w, fuel) == (
            World { reset_tokens: w.reset_tokens.remove(token@), ..w },
            Some(Err::<Reply, HttpStatus>(HttpStatus::Gone)),
        ),
{
    let record = w.reset_tokens[token@];
    let check = ResetPasswordFlow::CheckExpiry { token, new_password, record };
    let w2 = World { reset_tokens: w.reset_tokens.remove(token@), ..w };
    assert(run(ResetPasswordFlow::Lookup { token, new_password }, Effect::FindResetToken(token), w, fuel)
        == run(check, Effect::ReadClock, w, (fuel - 1) as nat));
    assert(run(check, Effect::ReadClock, w, (fuel - 1) as nat)
        == run(ResetPasswordFlow::DiscardExpired, Effect::DeleteResetToken(token), w, (fuel - 2) as nat));
    assert(run(ResetPasswordFlow::DiscardExpired, Effect::DeleteResetToken(token), w, (fuel - 2) as nat)
        == run(ResetPasswordFlow::Finished, refusal(HttpStatus::Gone), w2, (fuel - 3) as nat));
}

/// A live reset link sets the account's password hash to the hash of the new
/// password and deletes every reset token of the account.
pub proof fn lemma_reset_link_sets_password(w: World, token: String, new_password: String, fuel: nat)
    requires
        w.reset_tokens.contains_key(token@),
        !expired_at(w.reset_tokens[token@].expires_at, w.now),
        w.hashed is Ok,
        fuel >= 5,
    ensures
        ({
            let user_id = w.reset_tokens[token@].user_id;
            run(ResetPasswordFlow::Lookup { token, new_password }, Effect::FindResetToken(token), w, fuel) == (
                World {
                    users: with_password(w.users, user_id, w.hashed->Ok_0),
                    reset_tokens: without_user_mail_tokens(w.reset_tokens, user_id),
                    ..w
                },
                Some(Ok::<Reply, HttpStatus>(Reply::Message(Notice::PasswordReset))),
            )
        }),
        trace(ResetPasswordFlow::Lookup { token, new_password }, Effect::FindResetToken(token), w, fuel) == seq![
            Effect::FindResetToken(token),
            Effect::ReadClock,
            Effect::HashPassword(new_password),
            Effect::UpdatePassword { user_id: w.reset_tokens[token@].user_id, password_hash: w.hashed->Ok_0 },
            Effect::DeleteAllResetTokens(w.reset_tokens[token@].user_id),
        ],
{
    let record = w.reset_tokens[token@];
    let user_id = record.user_id;
    let hash = w.hashed->Ok_0;
    let check = ResetPasswordFlow::CheckExpiry { token, new_password, record };
    let update = Effect::UpdatePassword { user_id, password_hash: hash };
    let w2 = World { users: with_password(w.users, user_id, hash), ..w };
    let w3 = World { reset_tokens: without_user_mail_tokens(w.reset_tokens, user_id), ..w2 };
    assert(run(ResetPasswordFlow::Lookup { token, new_password }, Effect::FindResetToken(token), w, fuel)
        == run(check, Effect::ReadClock, w, (fuel - 1) as nat));
    assert(run(check, Effect::ReadClock, w, (fuel - 1) as nat)
        == run(ResetPasswordFlow::Hash { user_id }, Effect::HashPassword(new_password), w, (fuel - 2) as nat));
    assert(run(ResetPasswordFlow::Hash { user_id }, Effect::HashPassword(new_password), w, (fuel - 2) as nat)
        == run(ResetPasswordFlow::Update { user_id }, update, w, (fuel - 3) as nat));
    assert(run(ResetPasswordFlow::Update { user_id }, update, w, (fuel - 3) as nat)
        == run(ResetPasswordFlow::Purge, Effect::DeleteAllResetTokens(user_id), w2, (fuel - 4) as nat));
    assert(run(ResetPasswordFlow::Purge, Effect::DeleteAllResetTokens(user_id), w2, (fuel - 4) as nat)
        == run(ResetPasswordFlow::Finished, Effect::Respond(Ok(Reply::Message(Notice::PasswordReset))), w3, (fuel - 5) as nat));
    assert(trace(ResetPasswordFlow::Lookup { token, new_password }, Effect::FindResetToken(token), w, fuel) =~= seq![
        Effect::FindResetToken(token),
        Effect::ReadClock,
        Effect::HashPassword(new_password),
        update,
        Effect::DeleteAllResetTokens(user_id),
    ]);
}

/// A password reset, from its body: a new password that breaks the rules is
/// refused with 400; otherwise the body's token is looked up. A token that
/// is not stored is refused with 404, and nothing changes; an expired one is
/// refused with 410 and deleted; a live one sets its account's password
/// hash to the hash of the body's new password and deletes every reset
/// token of that account.
pub proof fn lemma_reset_password_request(w: World, request: ResetPasswordRequest, fuel: nat)
    requires
        fuel >= 5,
    ensures
        ({
            let (h, e) = reset_password_begin(request);
            let token = request.token;
            let user_id = w.reset_tokens[token@].user_id;
            &&& reset_password_issues(request).len() != 0
                ==> run(h, e, w, fuel) == (w, Some(Err::<Reply, HttpStatus>(HttpStatus::BadRequest)))
            &&& reset_password_issues(request).len() == 0 && !w.reset_tokens.contains_key(token@)
                ==> run(h, e, w, fuel) == (w, Some(Err::<Reply, HttpStatus>(HttpStatus::NotFound)))
            &&& reset_password_issues(request).len() == 0 && w.reset_tokens.contains_key(token@)
                && expired_at(w.reset_tokens[token@].expires_at, w.now) ==> run(h, e, w, fuel) == (
                    World { reset_tokens: w.reset_tokens.remove(token@), ..w },
                    Some(Err::<Reply, HttpStatus>(HttpStatus::Gone)),
                )
            &&& reset_password_issues(request).len() == 0 && w.reset_tokens.contains_key(token@)
                && !expired_at(w.reset_tokens[token@].expires_at, w.now) && w.hashed is Ok ==> {
                &&& run(h, e, w, fuel) == (
                    World {
                        users: with_password(w.users, user_id, w.hashed->Ok_0),
                        reset_tokens: without_user_mail_tokens(w.reset_tokens, user_id),
                        ..w
                    },
                    Some(Ok::<Reply, HttpStatus>(Reply::Message(Notice::PasswordReset))),
                )
                &&& trace(h, e, w, fuel).contains(Effect::HashPassword(request.new_password))
            }
        }),
{
    let token = request.token;
    let new_password = request.new_password;
    if reset_password_issues(request).len() == 0 {
        assert(reset_password_begin(request)
            == (ResetPasswordFlow::Lookup { token, new_password }, Effect::FindResetToken(token)));
        if !w.reset_tokens.contains_key(token@) {
            lemma_unknown_reset_link_refused(w, token, new_password, fuel);
        } else if expired_at(w.reset_tokens[token@].expires_at, w.now) {
            lemma_expired_reset_link_discarded(w, token, new_password, fuel);
        } else if w.hashed is Ok {
            lemma_reset_link_sets_password(w, token, new_password, fuel);
            let t = trace(ResetPasswordFlow::Lookup { token, new_password }, Effect::FindResetToken(token), w, fuel);
            assert(t[2] == Effect::HashPassword(new_password));
        }
    }
}

/// A reset link whose token is not stored is refused with 404, and nothing
/// changes: no password is set.
pub proof fn lemma_unknown_reset_link_refused(w: World, token: String, new_password: String, fuel: nat)
    requires
        !w.reset_tokens.contains_key(token@),
        fuel >= 1,
    ensures
        run(ResetPasswordFlow::Lookup { token, new_password }, Effect::FindResetToken(token), w, fuel)
            == (w, Some(Err::<Reply, HttpStatus>(HttpStatus::NotFound))),
        trace(ResetPasswordFlow::Lookup { token, new_password }, Effect::FindResetToken(token), w, fuel)
            == seq![Effect::FindResetToken(token)],
{
    assert(run(ResetPasswordFlow::Lookup { token, new_password }, Effect::FindResetToken(token), w, fuel)
        == run(ResetPasswordFlow::Finished, refusal(HttpStatus::NotFound), w, (fuel - 1) as nat));
    assert(trace(ResetPasswordFlow::Lookup { token, new_password }, Effect::FindResetToken(token), w, fuel)
        =~= seq![Effect::FindResetToken(token)]);
}

/// A reset that succeeds consumes its token: it is no longer stored.
pub proof fn lemma_reset_success_consumes_token(w: World, token: String, new_password: String, fuel: nat)
    requires
        fuel >= 5,
    ensures
        ({
            let (after, answer) = run(
                ResetPasswordFlow::Lookup { token, new_password },
                Effect::FindResetToken(token),
                w,
                fuel,
            );
            answer matches Some(Ok(_)) ==> !after.reset_tokens.contains_key(token@)
        }),
{
    if !w.reset_tokens.contains_key(token@) {
        lemma_unknown_reset_link_refused(w, token, new_password, fuel);
    } else if expired_at(w.reset_tokens[token@].expires_at, w.now) {
        lemma_expired_reset_link_discarded(w, token, new_password, fuel);
    } else if w.hashed is Ok {
        lemma_reset_link_sets_password(w, token, new_password, fuel);
        let user_id = w.reset_tokens[token@].user_id;
        assert(!w.reset_tokens.dom().filter(|k: Seq<char>| w.reset_tokens[k].user_id != user_id).contains(token@));
    } else {
        let record = w.reset_tokens[token@];
        let check = ResetPasswordFlow::CheckExpiry { token, new_password, record };
        assert(run(ResetPasswordFlow::Lookup { token, new_password }, Effect::FindResetToken(token), w, fuel)
            == run(check, Effect::ReadClock, w, (fuel - 1) as nat));
        assert(run(check, Effect::ReadClock, w, (fuel - 1) as nat)
            == run(ResetPasswordFlow::Hash { user_id: record.user_id }, Effect::HashPassword(new_password), w, (fuel - 2) as nat));
        assert(run(ResetPasswordFlow::Hash { user_id: record.user_id }, Effect::HashPassword(new_password), w, (fuel - 2) as nat)
            == run(ResetPasswordFlow::Finished, refusal(HttpStatus::InternalServerError), w, (fuel - 3) as nat));
    }
}

/// A reset link works once. Once a reset has succeeded, any later reset with
/// the same token, after any other requests that do not store that token
/// text again, is refused with 404 and changes nothing: the password that
/// the first reset set stays.
pub proof fn lemma_reset_link_works_once(
    w: World,
    token: String,
    new_password: String,
    between: Seq<Effect>,
    later: World,
    again: String,
    fuel: nat,
)
    requires
        run(ResetPasswordFlow::Lookup { token, new_password }, Effect::FindResetToken(token), w, fuel).1 matches Some(Ok(_)),
        forall|i: int| 0 <= i < between.len() ==> !creates_reset_token(#[trigger] between[i], token@),
        later.reset_tokens == perform_all(
            run(ResetPasswordFlow::Lookup { token, new_password }, Effect::FindResetToken(token), w, fuel).0,
            between,
        ).reset_tokens,
        fuel >= 5,
    ensures
        run(ResetPasswordFlow::Lookup { token, new_password: again }, Effect::FindResetToken(token), later, fuel)
            == (later, Some(Err::<Reply, HttpStatus>(HttpStatus::NotFound))),
{
    lemma_reset_success_consumes_token(w, token, new_password, fuel);
    let first = run(ResetPasswordFlow::Lookup { token, new_password }, Effect::FindResetToken(token), w, fuel).0;
    lemma_effects_keep_reset_token_absent(first, between, token@);
    lemma_unknown_reset_link_refused(later, token, again, fuel);
}

/// A reset link works once, from the requests: once a reset with body `p`
/// has succeeded, a later reset whose body carries the same token, after any
/// other requests that do not store that token again, is refused (with 404
/// where its new password meets the rules), changes nothing and performs
/// nothing but the lookup: the password that the first reset set stays.
pub proof fn lemma_reset_password_request_works_once(
    w: World,
    p: ResetPasswordRequest,
    between: Seq<Effect>,
    later: World,
    p2: ResetPasswordRequest,
    fuel: nat,
)
    requires
        run(reset_password_begin(p).0, reset_password_begin(p).1, w, fuel).1 matches Some(Ok(_)),
        p2.token == p.token,
        forall|i: int| 0 <= i < between.len() ==> !creates_reset_token(#[trigger] between[i], p.token@),
        later.reset_tokens == perform_all(run(reset_password_begin(p).0, reset_password_begin(p).1, w, fuel).0, between).reset_tokens,
        fuel >= 5,
    ensures
        ({
            let (after, answer) = run(reset_password_begin(p2).0, reset_password_begin(p2).1, later, fuel);
            &&& answer matches Some(Err(_))
            &&& after == later
            &&& reset_password_issues(p2).len() == 0 ==> {
                &&& answer == Some(Err::<Reply, HttpStatus>(HttpStatus::NotFound))
                &&& trace(reset_password_begin(p2).0, reset_password_begin(p2).1, later, fuel)
                    == seq![Effect::FindResetToken(p.token)]
            }
        }),
{
    let token = p.token;
    if reset_password_issues(p).len() != 0 {
        assert(run(reset_password_begin(p).0, reset_password_begin(p).1, w, fuel).1
            == Some(Err::<Reply, HttpStatus>(HttpStatus::BadRequest)));
    } else {
        assert(reset_password_begin(p)
            == (ResetPasswordFlow::Lookup { token, new_password: p.new_password }, Effect::FindResetToken(token)));
        lemma_reset_link_works_once(w, token, p.new_password, between, later, p2.new_password, fuel);
        lemma_reset_success_consumes_token(w, token, p.new_password, fuel);
        lemma_effects_keep_reset_token_absent(run(reset_password_begin(p).0, reset_password_begin(p).1, w, fuel).0, between, token@);
        if reset_password_issues(p2).len() == 0 {
            assert(reset_password_begin(p2)
                == (ResetPasswordFlow::Lookup { token, new_password: p2.new_password }, Effect::FindResetToken(token)));
            lemma_unknown_reset_link_refused(later, token, p2.new_password, fuel);
        }
    }
}


/// Where the database or the mailer fails, a request for a reset link ends
/// at once with 500.
pub proof fn lemma_forgot_password_failure_is_server_error(h: ForgotPasswordFlow, outcome: Outcome)
    requires
        reports_failure(outcome),
    ensures
        h.transition(outcome) == (ForgotPasswordFlow::Finished, refusal(HttpStatus::InternalServerError)),
{
}

/// Where the database or the hasher fails, a password reset ends at once
/// with 500.
pub proof fn lemma_reset_password_failure_is_server_error(h: ResetPasswordFlow, outcome: Outcome)
    requires
        reports_failure(outcome),
    ensures
        h.transition(outcome) == (ResetPasswordFlow::Finished, refusal(HttpStatus::InternalServerError)),
{
}

} // verus!
