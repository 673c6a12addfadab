use vstd::prelude::*;
use crate::effects::{Answer, Effect, Handler, Outcome};
use crate::token::is_random_uuid_text;
use crate::models::{later_by, MailToken, RefreshToken, User, UserRole, REFRESH_TOKEN_LIFETIME};

verus! {

/// What the handlers act on, as their effects see it: the clock, the tables
/// of the database, the configuration, and what the services outside give.
///
/// The model takes the database to refuse a second account with the same
/// email or username, and a second token row with the same token text (a
/// unique constraint on each of these columns); the schema that would carry
/// these constraints is not part of this crate.
pub struct World {
    pub now: i64,
    pub users: Map<u128, User>,
    /// Rows of `refresh_tokens`, by token text.
    pub refresh_tokens: Map<Seq<char>, RefreshToken>,
    /// Rows of the email verification tokens, by token text.
    pub verification_tokens: Map<Seq<char>, MailToken>,
    /// Rows of the password reset tokens, by token text.
    pub reset_tokens: Map<Seq<char>, MailToken>,
    pub jwt_secret: Option<String>,
    /// What signing an access token gives.
    pub signed: Result<String, ()>,
    /// What checking an access token gives: its subject.
    pub claims: Result<String, ()>,
    /// What hashing a password gives.
    pub hashed: Result<String, ()>,
    /// The next random token drawn. The runtime draws it with
    /// `generate_verification_token` or `generate_refresh_token`, so in a
    /// world that `draws_library_tokens`, it is a random UUID in simple form.
    pub fresh_token: String,
    /// The identifier the database gives the next row it creates.
    pub fresh_id: u128,
    /// What sending a mail gives.
    pub mail: Result<(), ()>,
}

/// The refresh tokens that remain after deleting every token of `user_id`.
pub open spec fn without_user_tokens(rows: Map<Seq<char>, RefreshToken>, user_id: u128) -> Map<Seq<char>, RefreshToken> {
    rows.restrict(rows.dom().filter(|k: Seq<char>| rows[k].user_id != user_id))
}

/// The mail tokens that remain after deleting every token of `user_id`.
pub open spec fn without_user_mail_tokens(rows: Map<Seq<char>, MailToken>, user_id: u128) -> Map<Seq<char>, MailToken> {
    rows.restrict(rows.dom().filter(|k: Seq<char>| rows[k].user_id != user_id))
}

/// The stored user with `id`, if any.
pub open spec fn user_by_id(users: Map<u128, User>, id: u128) -> Option<User> {
    if users.contains_key(id) { Some(users[id]) } else { None }
}

/// Whether some stored user has this email.
pub open spec fn has_email(users: Map<u128, User>, email: Seq<char>) -> bool {
    exists|id: u128| users.contains_key(id) && #[trigger] users[id].email@ == email
}

/// The stored user with this email, if any.
pub open spec fn user_by_email(users: Map<u128, User>, email: Seq<char>) -> Option<User> {
    if has_email(users, email) {
        Some(users[choose|id: u128| users.contains_key(id) && #[trigger] users[id].email@ == email])
    } else {
        None
    }
}

/// Whether some stored user has this username.
pub open spec fn has_username(users: Map<u128, User>, username: Seq<char>) -> bool {
    exists|id: u128| users.contains_key(id) && #[trigger] users[id].username@ == username
}

/// The stored user with this username, if any.
pub open spec fn user_by_username(users: Map<u128, User>, username: Seq<char>) -> Option<User> {
    if has_username(users, username) {
        Some(users[choose|id: u128| users.contains_key(id) && #[trigger] users[id].username@ == username])
    } else {
        None
    }
}

/// The users after the password of `user_id` has been set to `password_hash`.
pub open spec fn with_password(users: Map<u128, User>, user_id: u128, password_hash: String) -> Map<u128, User> {
    if users.contains_key(user_id) {
        users.insert(user_id, User { password_hash, ..users[user_id] })
    } else {
        users
    }
}

/// The users after the email of `user_id` has been marked verified.
pub open spec fn with_email_verified(users: Map<u128, User>, user_id: u128) -> Map<u128, User> {
    if users.contains_key(user_id) {
        users.insert(user_id, User { email_verified: true, ..users[user_id] })
    } else {
        users
    }
}

/// The stored mail token with this text, if any.
pub open spec fn mail_token(rows: Map<Seq<char>, MailToken>, token: Seq<char>) -> Option<MailToken> {
    if rows.contains_key(token) { Some(rows[token]) } else { None }
}

/// A new refresh token row, as the database stores it.
pub open spec fn new_refresh_row(w: World, user_id: u128, token: String) -> RefreshToken {
    RefreshToken {
        id: w.fresh_id,
        user_id,
        token,
        expires_at: later_by(w.now, REFRESH_TOKEN_LIFETIME)->Some_0,
        created_at: w.now,
        used_at: None,
        is_used: false,
    }
}

/// A refresh token row once it has been exchanged at `now`.
pub open spec fn used_row(row: RefreshToken, now: i64) -> RefreshToken {
    RefreshToken { is_used: true, used_at: Some(now), ..row }
}

/// A new user row, as the database stores it.
pub open spec fn new_user_row(w: World, username: String, email: String, password_hash: String, role: UserRole) -> User {
    User {
        id: w.fresh_id,
        username,
        email,
        password_hash,
        bio: None,
        image: None,
        email_verified: false,
        role,
        created_at: w.now,
        updated_at: w.now,
    }
}

/// What performing `e` does to the world, and what it reports back: the
/// meaning of each effect, as the runtime carries it out.
pub open spec fn perform(w: World, e: Effect) -> (World, Outcome) {
    match e {
        Effect::ReadClock => (w, Outcome::Clock(w.now)),
        Effect::ReadJwtSecret => (w, Outcome::Secret(w.jwt_secret)),
        Effect::GenerateJwt { .. } => (w, Outcome::Jwt(w.signed)),
        Effect::ValidateJwt { .. } => (w, Outcome::Claims(w.claims)),
        Effect::HashPassword(_) => (w, Outcome::Hashed(w.hashed)),
        Effect::GenerateVerificationToken => (w, Outcome::Generated(w.fresh_token)),
        Effect::GenerateRefreshToken => (w, Outcome::Generated(w.fresh_token)),
        Effect::FindUserById(id) => (w, Outcome::UserLookup(Ok(user_by_id(w.users, id)))),
        Effect::FindUserByEmail(email) => (w, Outcome::UserLookup(Ok(user_by_email(w.users, email@)))),
        Effect::FindUserByUsername(name) => (w, Outcome::UserLookup(Ok(user_by_username(w.users, name@)))),
        Effect::CreateUser { username, email, password_hash, role } =>
            if w.users.contains_key(w.fresh_id) || has_email(w.users, email@) || has_username(w.users, username@) {
                (w, Outcome::UserCreated(Err(())))
            } else {
                let row = new_user_row(w, username, email, password_hash, role);
                (World { users: w.users.insert(w.fresh_id, row), ..w }, Outcome::UserCreated(Ok(row)))
            },
        Effect::DeleteUser(id) => (World { users: w.users.remove(id), ..w }, Outcome::Written(Ok(()))),
        Effect::UpdatePassword { user_id, password_hash } =>
            (World { users: with_password(w.users, user_id, password_hash), ..w }, Outcome::Written(Ok(()))),
        Effect::VerifyUserEmail(user_id) =>
            (World { users: with_email_verified(w.users, user_id), ..w }, Outcome::Written(Ok(()))),
        Effect::CreateVerificationToken { user_id, token, expires_at } =>
            if w.verification_tokens.contains_key(token@) {
                (w, Outcome::Written(Err(())))
            } else {
                let row = MailToken { user_id, token, expires_at };
                (World { verification_tokens: w.verification_tokens.insert(token@, row), ..w }, Outcome::Written(Ok(())))
            },
        Effect::FindVerificationToken(token) =>
            (w, Outcome::MailTokenLookup(Ok(mail_token(w.verification_tokens, token@)))),
        Effect::DeleteVerificationToken(token) =>
            (World { verification_tokens: w.verification_tokens.remove(token@), ..w }, Outcome::Written(Ok(()))),
        Effect::CreateResetToken { user_id, token, expires_at } =>
            if w.reset_tokens.contains_key(token@) {
                (w, Outcome::Written(Err(())))
            } else {
                let row = MailToken { user_id, token, expires_at };
                (World { reset_tokens: w.reset_tokens.insert(token@, row), ..w }, Outcome::Written(Ok(())))
            },
        Effect::FindResetToken(token) =>
            (w, Outcome::MailTokenLookup(Ok(mail_token(w.reset_tokens, token@)))),
        Effect::DeleteResetToken(token) =>
            (World { reset_tokens: w.reset_tokens.remove(token@), ..w }, Outcome::Written(Ok(()))),
        Effect::DeleteAllResetTokens(user_id) =>
            (World { reset_tokens: without_user_mail_tokens(w.reset_tokens, user_id), ..w }, Outcome::Written(Ok(()))),
        Effect::CreateRefreshToken { user_id, token } =>
            if w.refresh_tokens.contains_key(token@) || later_by(w.now, REFRESH_TOKEN_LIFETIME) is None {
                (w, Outcome::RefreshCreated(Err(())))
            } else {
                let row = new_refresh_row(w, user_id, token);
                (World { refresh_tokens: w.refresh_tokens.insert(token@, row), ..w }, Outcome::RefreshCreated(Ok(row)))
            },
        Effect::FindRefreshToken(token) => (w, Outcome::RefreshLookup(Ok(
            if w.refresh_tokens.contains_key(token@) { Some(w.refresh_tokens[token@]) } else { None },
        ))),
        Effect::DeleteRefreshToken(token) =>
            (World { refresh_tokens: w.refresh_tokens.remove(token@), ..w }, Outcome::Written(Ok(()))),
        Effect::DeleteAllRefreshTokens(user_id) =>
            (World { refresh_tokens: without_user_tokens(w.refresh_tokens, user_id), ..w }, Outcome::Written(Ok(()))),
        Effect::MarkRefreshTokenUsed(token) =>
            if w.refresh_tokens.contains_key(token@) {
                let row = used_row(w.refresh_tokens[token@], w.now);
                (World { refresh_tokens: w.refresh_tokens.insert(token@, row), ..w }, Outcome::Written(Ok(())))
            } else {
                (w, Outcome::Written(Ok(())))
            },
        Effect::SendVerificationEmail { .. } => (w, Outcome::Sent(w.mail)),
        Effect::SendPasswordResetEmail { .. } => (w, Outcome::Sent(w.mail)),
        Effect::SendSecurityAlert { .. } => (w, Outcome::Sent(w.mail)),
        Effect::Respond(_) => (w, Outcome::Written(Err(()))),
    }
}

/// Whether the tokens that this world draws come from the library's
/// generators: random UUIDs in simple form.
pub open spec fn draws_library_tokens(w: World) -> bool {
    is_random_uuid_text(w.fresh_token@)
}

/// Whether every stored refresh token is a random UUID in simple form.
pub open spec fn refresh_tokens_random(rows: Map<Seq<char>, RefreshToken>) -> bool {
    forall|k: Seq<char>| #[trigger] rows.contains_key(k) ==> is_random_uuid_text(k)
}

/// The world after performing `effects` in order.
pub open spec fn perform_all(w: World, effects: Seq<Effect>) -> World
    decreases effects.len(),
{
    if effects.len() == 0 {
        w
    } else {
        perform(perform_all(w, effects.drop_last()), effects.last()).0
    }
}

/// Whether `e` stores a refresh token with the text `token`.
pub open spec fn creates_refresh_token(e: Effect, token: Seq<char>) -> bool {
    e matches Effect::CreateRefreshToken { token: t, .. } && t@ == token
}

/// Whether `e` stores an email verification token with the text `token`.
pub open spec fn creates_verification_token(e: Effect, token: Seq<char>) -> bool {
    e matches Effect::CreateVerificationToken { token: t, .. } && t@ == token
}

/// Whether `e` stores a password reset token with the text `token`.
pub open spec fn creates_reset_token(e: Effect, token: Seq<char>) -> bool {
    e matches Effect::CreateResetToken { token: t, .. } && t@ == token
}

/// Whether the refresh token `token` can no longer be exchanged: it is not
/// stored, or its row is marked used.
pub open spec fn refresh_token_spent(rows: Map<Seq<char>, RefreshToken>, token: Seq<char>) -> bool {
    !rows.contains_key(token) || rows[token].is_used
}

/// No effect but the creation of `token` itself makes a spent refresh token
/// usable again.
pub proof fn lemma_effect_keeps_refresh_token_spent(w: World, e: Effect, token: Seq<char>)
    requires
        refresh_token_spent(w.refresh_tokens, token),
        !creates_refresh_token(e, token),
    ensures
        refresh_token_spent(perform(w, e).0.refresh_tokens, token),
{
    match e {
        Effect::DeleteAllRefreshTokens(user_id) => {
            let rows = w.refresh_tokens;
            assert(rows.dom().filter(|k: Seq<char>| rows[k].user_id != user_id).contains(token)
                ==> rows.contains_key(token));
        },
        _ => {},
    }
}

/// A spent refresh token stays spent through any effects that do not create
/// it again.
pub proof fn lemma_effects_keep_refresh_token_spent(w: World, effects: Seq<Effect>, token: Seq<char>)
    requires
        refresh_token_spent(w.refresh_tokens, token),
        forall|i: int| 0 <= i < effects.len() ==> !creates_refresh_token(#[trigger] effects[i], token),
    ensures
        refresh_token_spent(perform_all(w, effects).refresh_tokens, token),
    decreases effects.len(),
{
    if effects.len() > 0 {
        let rest = effects.drop_last();
        assert(forall|i: int| 0 <= i < rest.len() ==> rest[i] == effects[i]);
        lemma_effects_keep_refresh_token_spent(w, rest, token);
        lemma_effect_keeps_refresh_token_spent(perform_all(w, rest), effects.last(), token);
    }
}

/// An email verification token that is not stored stays so through any
/// effects that do not create it.
pub proof fn lemma_effects_keep_verification_token_absent(w: World, effects: Seq<Effect>, token: Seq<char>)
    requires
        !w.verification_tokens.contains_key(token),
        forall|i: int| 0 <= i < effects.len() ==> !creates_verification_token(#[trigger] effects[i], token),
    ensures
        !perform_all(w, effects).verification_tokens.contains_key(token),
    decreases effects.len(),
{
    if effects.len() > 0 {
        let rest = effects.drop_last();
        assert(forall|i: int| 0 <= i < rest.len() ==> rest[i] == effects[i]);
        lemma_effects_keep_verification_token_absent(w, rest, token);
        assert(!creates_verification_token(effects[effects.len() - 1], token));
    }
}

/// A password reset token that is not stored stays so through any effects
/// that do not create it.
pub proof fn lemma_effects_keep_reset_token_absent(w: World, effects: Seq<Effect>, token: Seq<char>)
    requires
        !w.reset_tokens.contains_key(token),
        forall|i: int| 0 <= i < effects.len() ==> !creates_reset_token(#[trigger] effects[i], token),
    ensures
        !perform_all(w, effects).reset_tokens.contains_key(token),
    decreases effects.len(),
{
    if effects.len() > 0 {
        let rest = effects.drop_last();
        assert(forall|i: int| 0 <= i < rest.len() ==> rest[i] == effects[i]);
        lemma_effects_keep_reset_token_absent(w, rest, token);
        assert(!creates_reset_token(effects[effects.len() - 1], token));
        let prev = perform_all(w, rest);
        match effects.last() {
            Effect::DeleteAllResetTokens(user_id) => {
                let rows = prev.reset_tokens;
                assert(rows.dom().filter(|k: Seq<char>| rows[k].user_id != user_id).contains(token)
                    ==> rows.contains_key(token));
            },
            _ => {},
        }
    }
}

/// Run handler `h`, whose pending effect is `e`, in world `w` for at most
/// `fuel` effects: the world it leaves, the answer it gives if it gives one
/// within that many effects, and the effects it performed, in order.
pub open spec fn execute<H: Handler>(h: H, e: Effect, w: World, fuel: nat) -> (World, Option<Answer>, Seq<Effect>)
    decreases fuel,
{
    match e {
        Effect::Respond(answer) => (w, Some(answer), Seq::empty()),
        _ => if fuel == 0 {
            (w, None, Seq::empty())
        } else {
            let (w2, o) = perform(w, e);
            let (h2, e2) = h.transition(o);
            let (w3, answer, done) = execute(h2, e2, w2, (fuel - 1) as nat);
            (w3, answer, seq![e] + done)
        },
    }
}

/// The world that running `h` leaves, and the answer it gives.
pub open spec fn run<H: Handler>(h: H, e: Effect, w: World, fuel: nat) -> (World, Option<Answer>) {
    (execute(h, e, w, fuel).0, execute(h, e, w, fuel).1)
}

/// The effects that running `h` performs, in order; the answer is not
/// among them.
pub open spec fn trace<H: Handler>(h: H, e: Effect, w: World, fuel: nat) -> Seq<Effect> {
    execute(h, e, w, fuel).2
}

} // verus!
