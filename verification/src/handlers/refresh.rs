use vstd::prelude::*;
use crate::effects::{refusal, refuse, reports_failure, Effect, Handler, Outcome, Reply};
use crate::models::{expired_at, later_by, RefreshToken, REFRESH_TOKEN_LIFETIME};
use crate::schemas::{RefreshTokenRequest, RefreshTokenResponse};
use crate::status::HttpStatus;
use crate::world::{
    creates_refresh_token, draws_library_tokens, lemma_effects_keep_refresh_token_spent, new_refresh_row, perform_all,
    refresh_token_spent, refresh_tokens_random, run, trace, used_row, without_user_tokens, World,
};
use crate::token::is_random_uuid_text;

verus! {

/// Where `POST /api/auth/refresh-token` stands: refresh-token rotation with
/// reuse detection.
pub enum RefreshFlow {
    /// Waiting for the stored row of the presented token.
    Lookup { presented: String },
    /// Waiting for the clock, to check the row for expiry.
    CheckExpiry { presented: String, record: RefreshToken },
    /// Waiting for the removal of the expired token.
    DiscardExpired,
    /// Reuse detected: waiting for the removal of all the owner's tokens.
    RevokeAll { user_id: u128 },
    /// Waiting for the owner's account, to alert them.
    FindOwner,
    /// Waiting for the security alert to go out.
    Alert,
    /// Waiting for the presented token to be marked used.
    MarkUsed { user_id: u128 },
    /// Waiting for a fresh refresh token.
    Generate { user_id: u128 },
    /// Waiting for the fresh refresh token to be stored.
    Store { user_id: u128, new_token: String },
    /// Waiting for the signing secret.
    Secret { user_id: u128, new_token: String },
    /// Waiting for the new access token.
    Sign { new_token: String },
    /// The request has been answered.
    Finished,
}

/// The transitions of the refresh handler.
pub open spec fn refresh_next(flow: RefreshFlow, outcome: Outcome) -> (RefreshFlow, Effect) {
    match flow {
        RefreshFlow::Lookup { presented } => match outcome {
            Outcome::RefreshLookup(Ok(Some(record))) => (
                RefreshFlow::CheckExpiry { presented, record },
                Effect::ReadClock,
            ),
            Outcome::RefreshLookup(Ok(None)) => (RefreshFlow::Finished, refusal(HttpStatus::Unauthorized)),
            _ => (RefreshFlow::Finished, refusal(HttpStatus::InternalServerError)),
        },
        RefreshFlow::CheckExpiry { presented, record } => match outcome {
            Outcome::Clock(now) => if expired_at(record.expires_at, now) {
                (RefreshFlow::DiscardExpired, Effect::DeleteRefreshToken(presented))
            } else if record.is_used {
                (
                    RefreshFlow::RevokeAll { user_id: record.user_id },
                    Effect::DeleteAllRefreshTokens(record.user_id),
                )
            } else {
                (
                    RefreshFlow::MarkUsed { user_id: record.user_id },
                    Effect::MarkRefreshTokenUsed(presented),
                )
            },
            _ => (RefreshFlow::Finished, refusal(HttpStatus::InternalServerError)),
        },
        RefreshFlow::DiscardExpired => match outcome {
            Outcome::Written(_) => (RefreshFlow::Finished, refusal(HttpStatus::Unauthorized)),
            _ => (RefreshFlow::Finished, refusal(HttpStatus::InternalServerError)),
        },
        RefreshFlow::RevokeAll { user_id } => match outcome {
            Outcome::Written(Ok(())) => (RefreshFlow::FindOwner, Effect::FindUserById(user_id)),
            _ => (RefreshFlow::Finished, refusal(HttpStatus::InternalServerError)),
        },
        RefreshFlow::FindOwner => match outcome {
            Outcome::UserLookup(Ok(Some(user))) => (
                RefreshFlow::Alert,
                Effect::SendSecurityAlert { to: user.email, username: user.username },
            ),
            _ => (RefreshFlow::Finished, refusal(HttpStatus::InternalServerError)),
        },
        RefreshFlow::Alert => match outcome {
            Outcome::Sent(_) => (RefreshFlow::Finished, refusal(HttpStatus::Unauthorized)),
            _ => (RefreshFlow::Finished, refusal(HttpStatus::InternalServerError)),
        },
        RefreshFlow::MarkUsed { user_id } => match outcome {
            Outcome::Written(Ok(())) => (RefreshFlow::Generate { user_id }, Effect::GenerateRefreshToken),
            _ => (RefreshFlow::Finished, refusal(HttpStatus::InternalServerError)),
        },
        RefreshFlow::Generate { user_id } => match outcome {
            Outcome::Generated(new_token) => (
                RefreshFlow::Store { user_id, new_token },
                Effect::CreateRefreshToken { user_id, token: new_token },
            ),
            _ => (RefreshFlow::Finished, refusal(HttpStatus::InternalServerError)),
        },
        RefreshFlow::Store { user_id, new_token } => match outcome {
            Outcome::RefreshCreated(Ok(_)) => (
                RefreshFlow::Secret { user_id, new_token },
                Effect::ReadJwtSecret,
            ),
            _ => (RefreshFlow::Finished, refusal(HttpStatus::InternalServerError)),
        },
        RefreshFlow::Secret { user_id, new_token } => match outcome {
            Outcome::Secret(Some(secret)) => (
                RefreshFlow::Sign { new_token },
                Effect::GenerateJwt { user_id, secret },
            ),
            _ => (RefreshFlow::Finished, refusal(HttpStatus::InternalServerError)),
        },
        RefreshFlow::Sign { new_token } => match outcome {
            Outcome::Jwt(Ok(access_token)) => (
                RefreshFlow::Finished,
                Effect::Respond(Ok(Reply::Tokens(RefreshTokenResponse { access_token, refresh_token: new_token }))),
            ),
            _ => (RefreshFlow::Finished, refusal(HttpStatus::InternalServerError)),
        },
        RefreshFlow::Finished => (RefreshFlow::Finished, refusal(HttpStatus::InternalServerError)),
    }
}

impl RefreshFlow {
    /// Begin handling a refresh request: look the presented token up.
    pub fn start(request: RefreshTokenRequest) -> (r: (RefreshFlow, Effect))
        ensures
            r == (RefreshFlow::Lookup { presented: request.refresh_token }, Effect::FindRefreshToken(request.refresh_token)),
    {
        let presented = request.refresh_token;
        let lookup = presented.clone();
        (RefreshFlow::Lookup { presented }, Effect::FindRefreshToken(lookup))
    }

}

impl Handler for RefreshFlow {
    open spec fn transition(self, outcome: Outcome) -> (RefreshFlow, Effect) {
        refresh_next(self, outcome)
    }

    fn step(self, outcome: Outcome) -> (r: (RefreshFlow, Effect)) {
        match self {
            RefreshFlow::Lookup { presented } => match outcome {
                Outcome::RefreshLookup(Ok(Some(record))) => (
                    RefreshFlow::CheckExpiry { presented, record },
                    Effect::ReadClock,
                ),
                Outcome::RefreshLookup(Ok(None)) => (RefreshFlow::Finished, refuse(HttpStatus::Unauthorized)),
                _ => (RefreshFlow::Finished, refuse(HttpStatus::InternalServerError)),
            },
            RefreshFlow::CheckExpiry { presented, record } => match outcome {
                Outcome::Clock(now) => if record.is_expired(now) {
                    (RefreshFlow::DiscardExpired, Effect::DeleteRefreshToken(presented))
                } else if record.is_used {
                    (
                        RefreshFlow::RevokeAll { user_id: record.user_id },
                        Effect::DeleteAllRefreshTokens(record.user_id),
                    )
                } else {
                    (
                        RefreshFlow::MarkUsed { user_id: record.user_id },
                        Effect::MarkRefreshTokenUsed(presented),
                    )
                },
                _ => (RefreshFlow::Finished, refuse(HttpStatus::InternalServerError)),
            },
            RefreshFlow::DiscardExpired => match outcome {
                Outcome::Written(_) => (RefreshFlow::Finished, refuse(HttpStatus::Unauthorized)),
                _ => (RefreshFlow::Finished, refuse(HttpStatus::InternalServerError)),
            },
            RefreshFlow::RevokeAll { user_id } => match outcome {
                Outcome::Written(Ok(())) => (RefreshFlow::FindOwner, Effect::FindUserById(user_id)),
                _ => (RefreshFlow::Finished, refuse(HttpStatus::InternalServerError)),
            },
            RefreshFlow::FindOwner => match outcome {
                Outcome::UserLookup(Ok(Some(user))) => (
                    RefreshFlow::Alert,
                    Effect::SendSecurityAlert { to: user.email, username: user.username },
                ),
                _ => (RefreshFlow::Finished, refuse(HttpStatus::InternalServerError)),
            },
            RefreshFlow::Alert => match outcome {
                Outcome::Sent(_) => (RefreshFlow::Finished, refuse(HttpStatus::Unauthorized)),
                _ => (RefreshFlow::Finished, refuse(HttpStatus::InternalServerError)),
            },
            RefreshFlow::MarkUsed { user_id } => match outcome {
                Outcome::Written(Ok(())) => (RefreshFlow::Generate { user_id }, Effect::GenerateRefreshToken),
                _ => (RefreshFlow::Finished, refuse(HttpStatus::InternalServerError)),
            },
            RefreshFlow::Generate { user_id } => match outcome {
                Outcome::Generated(new_token) => {
                    let stored = new_token.clone();
                    (
                        RefreshFlow::Store { user_id, new_token },
                        Effect::CreateRefreshToken { user_id, token: stored },
                    )
                },
                _ => (RefreshFlow::Finished, refuse(HttpStatus::InternalServerError)),
            },
            RefreshFlow::Store { user_id, new_token } => match outcome {
                Outcome::RefreshCreated(Ok(_)) => (
                    RefreshFlow::Secret { user_id, new_token },
                    Effect::ReadJwtSecret,
                ),
                _ => (RefreshFlow::Finished, refuse(HttpStatus::InternalServerError)),
            },
            RefreshFlow::Secret { user_id, new_token } => match outcome {
                Outcome::Secret(Some(secret)) => (
                    RefreshFlow::Sign { new_token },
                    Effect::GenerateJwt { user_id, secret },
                ),
                _ => (RefreshFlow::Finished, refuse(HttpStatus::InternalServerError)),
            },
            RefreshFlow::Sign { new_token } => match outcome {
                Outcome::Jwt(Ok(access_token)) => (
                    RefreshFlow::Finished,
                    Effect::Respond(Ok(Reply::Tokens(RefreshTokenResponse { access_token, refresh_token: new_token }))),
                ),
                _ => (RefreshFlow::Finished, refuse(HttpStatus::InternalServerError)),
            },
            RefreshFlow::Finished => (RefreshFlow::Finished, refuse(HttpStatus::InternalServerError)),
        }
    }
}

/// The handler state in which a refresh of `token` begins.
pub open spec fn refresh_begin(token: String) -> RefreshFlow {
    RefreshFlow::Lookup { presented: token }
}

/// An expired refresh token is refused with 401 and deleted; nothing else in
/// the world changes.
pub proof fn lemma_expired_refresh_token_is_discarded(w: World, token: String, fuel: nat)
    requires
        w.refresh_tokens.contains_key(token@),
        expired_at(w.refresh_tokens[token@].expires_at, w.now),
        fuel >= 3,
    ensures
        run(refresh_begin(token), Effect::FindRefreshToken(token), w, fuel) == (
            World { refresh_tokens: w.refresh_tokens.remove(token@), ..w },
            Some(Err::<Reply, HttpStatus>(HttpStatus::Unauthorized)),
        ),
{
    let row = w.refresh_tokens[token@];
    let h1 = RefreshFlow::CheckExpiry { presented: token, record: row };
    assert(run(refresh_begin(token), Effect::FindRefreshToken(token), w, fuel)
        == run(h1, Effect::ReadClock, w, (fuel - 1) as nat));
    assert(run(h1, Effect::ReadClock, w, (fuel - 1) as nat)
        == run(RefreshFlow::DiscardExpired, Effect::DeleteRefreshToken(token), w, (fuel - 2) as nat));
    let w3 = World { refresh_tokens: w.refresh_tokens.remove(token@), ..w };
    assert(run(RefreshFlow::DiscardExpired, Effect::DeleteRefreshToken(token), w, (fuel - 2) as nat)
        == run(RefreshFlow::Finished, refusal(HttpStatus::Unauthorized), w3, (fuel - 3) as nat));
}

/// Presenting a refresh token that was already exchanged deletes every
/// refresh token of its owner, so that all their sessions end; the request
/// is refused with 401 once the owner has been alerted (500 where the owner
/// no longer exists).
pub proof fn lemma_reused_refresh_token_revokes_all_sessions(w: World, token: String, fuel: nat)
    requires
        w.refresh_tokens.contains_key(token@),
        !expired_at(w.refresh_tokens[token@].expires_at, w.now),
        w.refresh_tokens[token@].is_used,
        fuel >= 5,
    ensures
        ({
            let owner = w.refresh_tokens[token@].user_id;
            run(refresh_begin(token), Effect::FindRefreshToken(token), w, fuel) == (
                World { refresh_tokens: without_user_tokens(w.refresh_tokens, owner), ..w },
                Some(Err::<Reply, HttpStatus>(
                    if w.users.contains_key(owner) { HttpStatus::Unauthorized } else { HttpStatus::InternalServerError },
                )),
            )
        }),
        ({
            let owner = w.refresh_tokens[token@].user_id;
            w.users.contains_key(owner) ==> trace(refresh_begin(token), Effect::FindRefreshToken(token), w, fuel) == seq![
                Effect::FindRefreshToken(token),
                Effect::ReadClock,
                Effect::DeleteAllRefreshTokens(owner),
                Effect::FindUserById(owner),
                Effect::SendSecurityAlert { to: w.users[owner].email, username: w.users[owner].username },
            ]
        }),
{
    let row = w.refresh_tokens[token@];
    let owner = row.user_id;
    let h1 = RefreshFlow::CheckExpiry { presented: token, record: row };
    let w2 = World { refresh_tokens: without_user_tokens(w.refresh_tokens, owner), ..w };
    assert(run(refresh_begin(token), Effect::FindRefreshToken(token), w, fuel)
        == run(h1, Effect::ReadClock, w, (fuel - 1) as nat));
    assert(run(h1, Effect::ReadClock, w, (fuel - 1) as nat)
        == run(RefreshFlow::RevokeAll { user_id: owner }, Effect::DeleteAllRefreshTokens(owner), w, (fuel - 2) as nat));
    assert(run(RefreshFlow::RevokeAll { user_id: owner }, Effect::DeleteAllRefreshTokens(owner), w, (fuel - 2) as nat)
        == run(RefreshFlow::FindOwner, Effect::FindUserById(owner), w2, (fuel - 3) as nat));
    if w.users.contains_key(owner) {
        let user = w.users[owner];
        let alert = Effect::SendSecurityAlert { to: user.email, username: user.username };
        assert(run(RefreshFlow::FindOwner, Effect::FindUserById(owner), w2, (fuel - 3) as nat)
            == run(RefreshFlow::Alert, alert, w2, (fuel - 4) as nat));
        assert(run(RefreshFlow::Alert, alert, w2, (fuel - 4) as nat)
            == run(RefreshFlow::Finished, refusal(HttpStatus::Unauthorized), w2, (fuel - 5) as nat));
        assert(trace(refresh_begin(token), Effect::FindRefreshToken(token), w, fuel) =~= seq![
            Effect::FindRefreshToken(token),
            Effect::ReadClock,
            Effect::DeleteAllRefreshTokens(owner),
            Effect::FindUserById(owner),
            alert,
        ]);
    } else {
        assert(run(RefreshFlow::FindOwner, Effect::FindUserById(owner), w2, (fuel - 3) as nat)
            == run(RefreshFlow::Finished, refusal(HttpStatus::InternalServerError), w2, (fuel - 4) as nat));
    }
}

/// The world after `token`, held by `owner`, has been exchanged for `fresh`
/// at `w.now`: the old token is marked used and the new one is stored.
pub open spec fn rotated(w: World, token: String, owner: u128, fresh: String) -> World {
    World {
        refresh_tokens: w.refresh_tokens
            .insert(token@, used_row(w.refresh_tokens[token@], w.now))
            .insert(fresh@, new_refresh_row(w, owner, fresh)),
        ..w
    }
}

/// Exchanging a live, unused refresh token marks it used, stores a fresh
/// token for the same owner that expires in seven days, and answers with the
/// new access token and the fresh refresh token.
pub proof fn lemma_refresh_rotates_token(w: World, token: String, fuel: nat)
    requires
        w.refresh_tokens.contains_key(token@),
        !expired_at(w.refresh_tokens[token@].expires_at, w.now),
        !w.refresh_tokens[token@].is_used,
        !w.refresh_tokens.contains_key(w.fresh_token@),
        later_by(w.now, REFRESH_TOKEN_LIFETIME) is Some,
        w.jwt_secret is Some,
        w.signed is Ok,
        fuel >= 7,
    ensures
        run(refresh_begin(token), Effect::FindRefreshToken(token), w, fuel) == (
            rotated(w, token, w.refresh_tokens[token@].user_id, w.fresh_token),
            Some(Ok::<Reply, HttpStatus>(Reply::Tokens(RefreshTokenResponse {
                access_token: w.signed->Ok_0,
                refresh_token: w.fresh_token,
            }))),
        ),
        trace(refresh_begin(token), Effect::FindRefreshToken(token), w, fuel) == seq![
            Effect::FindRefreshToken(token),
            Effect::ReadClock,
            Effect::MarkRefreshTokenUsed(token),
            Effect::GenerateRefreshToken,
            Effect::CreateRefreshToken { user_id: w.refresh_tokens[token@].user_id, token: w.fresh_token },
            Effect::ReadJwtSecret,
            Effect::GenerateJwt { user_id: w.refresh_tokens[token@].user_id, secret: w.jwt_secret->Some_0 },
        ],
{
    let row = w.refresh_tokens[token@];
    let owner = row.user_id;
    let fresh = w.fresh_token;
    let secret = w.jwt_secret->Some_0;
    let h1 = RefreshFlow::CheckExpiry { presented: token, record: row };
    let w2 = World { refresh_tokens: w.refresh_tokens.insert(token@, used_row(row, w.now)), ..w };
    let w3 = rotated(w, token, owner, fresh);
    assert(run(refresh_begin(token), Effect::FindRefreshToken(token), w, fuel)
        == run(h1, Effect::ReadClock, w, (fuel - 1) as nat));
    assert(run(h1, Effect::ReadClock, w, (fuel - 1) as nat)
        == run(RefreshFlow::MarkUsed { user_id: owner }, Effect::MarkRefreshTokenUsed(token), w, (fuel - 2) as nat));
    assert(run(RefreshFlow::MarkUsed { user_id: owner }, Effect::MarkRefreshTokenUsed(token), w, (fuel - 2) as nat)
        == run(RefreshFlow::Generate { user_id: owner }, Effect::GenerateRefreshToken, w2, (fuel - 3) as nat));
    let create = Effect::CreateRefreshToken { user_id: owner, token: fresh };
    assert(run(RefreshFlow::Generate { user_id: owner }, Effect::GenerateRefreshToken, w2, (fuel - 3) as nat)
        == run(RefreshFlow::Store { user_id: owner, new_token: fresh }, create, w2, (fuel - 4) as nat));
    assert(!w2.refresh_tokens.contains_key(fresh@));
    assert(run(RefreshFlow::Store { user_id: owner, new_token: fresh }, create, w2, (fuel - 4) as nat)
        == run(RefreshFlow::Secret { user_id: owner, new_token: fresh }, Effect::ReadJwtSecret, w3, (fuel - 5) as nat));
    let sign = Effect::GenerateJwt { user_id: owner, secret };
    assert(run(RefreshFlow::Secret { user_id: owner, new_token: fresh }, Effect::ReadJwtSecret, w3, (fuel - 5) as nat)
        == run(RefreshFlow::Sign { new_token: fresh }, sign, w3, (fuel - 6) as nat));
    let reply = Reply::Tokens(RefreshTokenResponse { access_token: w.signed->Ok_0, refresh_token: fresh });
    assert(run(RefreshFlow::Sign { new_token: fresh }, sign, w3, (fuel - 6) as nat)
        == run(RefreshFlow::Finished, Effect::Respond(Ok(reply)), w3, (fuel - 7) as nat));
    assert(trace(refresh_begin(token), Effect::FindRefreshToken(token), w, fuel) =~= seq![
        Effect::FindRefreshToken(token),
        Effect::ReadClock,
        Effect::MarkRefreshTokenUsed(token),
        Effect::GenerateRefreshToken,
        create,
        Effect::ReadJwtSecret,
        sign,
    ]);
}

/// A spent refresh token (one not stored, or marked used) is never
/// exchanged: the request is refused. Where the token is not stored, it is
/// refused with 401 and nothing changes; where it is stored and has not
/// expired, every refresh token of its owner is deleted, and the refusal is
/// 401 while the owner's account exists.
pub proof fn lemma_spent_refresh_token_refused(w: World, token: String, fuel: nat)
    requires
        refresh_token_spent(w.refresh_tokens, token@),
        fuel >= 5,
    ensures
        ({
            let (after, answer) = run(refresh_begin(token), Effect::FindRefreshToken(token), w, fuel);
            let owner = w.refresh_tokens[token@].user_id;
            &&& answer matches Some(Err(_))
            &&& !w.refresh_tokens.contains_key(token@)
                ==> (after, answer) == (w, Some(Err::<Reply, HttpStatus>(HttpStatus::Unauthorized)))
            &&& w.refresh_tokens.contains_key(token@) && expired_at(w.refresh_tokens[token@].expires_at, w.now)
                ==> answer == Some(Err::<Reply, HttpStatus>(HttpStatus::Unauthorized))
            &&& w.refresh_tokens.contains_key(token@) && !expired_at(w.refresh_tokens[token@].expires_at, w.now) ==> {
                &&& forall|k: Seq<char>| #[trigger] after.refresh_tokens.contains_key(k)
                    ==> after.refresh_tokens[k].user_id != owner
                &&& w.users.contains_key(owner) ==> answer == Some(Err::<Reply, HttpStatus>(HttpStatus::Unauthorized))
            }
        }),
{
    if !w.refresh_tokens.contains_key(token@) {
        assert(run(refresh_begin(token), Effect::FindRefreshToken(token), w, fuel)
            == run(RefreshFlow::Finished, refusal(HttpStatus::Unauthorized), w, (fuel - 1) as nat));
    } else if expired_at(w.refresh_tokens[token@].expires_at, w.now) {
        lemma_expired_refresh_token_is_discarded(w, token, fuel);
    } else {
        lemma_reused_refresh_token_revokes_all_sessions(w, token, fuel);
        let owner = w.refresh_tokens[token@].user_id;
        let rows = without_user_tokens(w.refresh_tokens, owner);
        assert forall|k: Seq<char>| #[trigger] rows.contains_key(k) implies rows[k].user_id != owner by {
            assert(w.refresh_tokens.dom().filter(|k: Seq<char>| w.refresh_tokens[k].user_id != owner).contains(k));
        }
    }
}

/// A refresh succeeds only on a stored, unexpired, unused token, and then
/// exactly as a rotation does: the token is marked used, a fresh token is
/// stored for its owner, the only access token signed is the owner's, and
/// the answer carries that access token and the fresh refresh token.
pub proof fn lemma_refresh_success_is_rotation(w: World, token: String, fuel: nat)
    requires
        fuel >= 7,
    ensures
        ({
            let (after, answer) = run(refresh_begin(token), Effect::FindRefreshToken(token), w, fuel);
            let owner = w.refresh_tokens[token@].user_id;
            answer matches Some(Ok(_)) ==> {
                &&& w.refresh_tokens.contains_key(token@)
                &&& !expired_at(w.refresh_tokens[token@].expires_at, w.now)
                &&& !w.refresh_tokens[token@].is_used
                &&& !w.refresh_tokens.contains_key(w.fresh_token@)
                &&& w.jwt_secret is Some
                &&& w.signed is Ok
                &&& after == rotated(w, token, owner, w.fresh_token)
                &&& answer == Some(Ok::<Reply, HttpStatus>(Reply::Tokens(RefreshTokenResponse {
                    access_token: w.signed->Ok_0,
                    refresh_token: w.fresh_token,
                })))
                &&& trace(refresh_begin(token), Effect::FindRefreshToken(token), w, fuel) == seq![
                    Effect::FindRefreshToken(token),
                    Effect::ReadClock,
                    Effect::MarkRefreshTokenUsed(token),
                    Effect::GenerateRefreshToken,
                    Effect::CreateRefreshToken { user_id: owner, token: w.fresh_token },
                    Effect::ReadJwtSecret,
                    Effect::GenerateJwt { user_id: owner, secret: w.jwt_secret->Some_0 },
                ]
            }
        }),
{
    if refresh_token_spent(w.refresh_tokens, token@) {
        lemma_spent_refresh_token_refused(w, token, fuel);
    } else if expired_at(w.refresh_tokens[token@].expires_at, w.now) {
        lemma_expired_refresh_token_is_discarded(w, token, fuel);
    } else if w.refresh_tokens.contains_key(w.fresh_token@) || later_by(w.now, REFRESH_TOKEN_LIFETIME) is None {
        lemma_refresh_store_failure_spends_token(w, token, fuel);
    } else if w.jwt_secret is Some && w.signed is Ok {
        lemma_refresh_rotates_token(w, token, fuel);
    } else {
        let row = w.refresh_tokens[token@];
        let owner = row.user_id;
        let fresh = w.fresh_token;
        let h1 = RefreshFlow::CheckExpiry { presented: token, record: row };
        let w2 = World { refresh_tokens: w.refresh_tokens.insert(token@, used_row(row, w.now)), ..w };
        let w3 = rotated(w, token, owner, fresh);
        assert(run(refresh_begin(token), Effect::FindRefreshToken(token), w, fuel)
            == run(h1, Effect::ReadClock, w, (fuel - 1) as nat));
        assert(run(h1, Effect::ReadClock, w, (fuel - 1) as nat)
            == run(RefreshFlow::MarkUsed { user_id: owner }, Effect::MarkRefreshTokenUsed(token), w, (fuel - 2) as nat));
        assert(run(RefreshFlow::MarkUsed { user_id: owner }, Effect::MarkRefreshTokenUsed(token), w, (fuel - 2) as nat)
            == run(RefreshFlow::Generate { user_id: owner }, Effect::GenerateRefreshToken, w2, (fuel - 3) as nat));
        let create = Effect::CreateRefreshToken { user_id: owner, token: fresh };
        let store = RefreshFlow::Store { user_id: owner, new_token: fresh };
        assert(run(RefreshFlow::Generate { user_id: owner }, Effect::GenerateRefreshToken, w2, (fuel - 3) as nat)
            == run(store, create, w2, (fuel - 4) as nat));
        assert(!w2.refresh_tokens.contains_key(fresh@));
        let secret_state = RefreshFlow::Secret { user_id: owner, new_token: fresh };
        assert(run(store, create, w2, (fuel - 4) as nat)
            == run(secret_state, Effect::ReadJwtSecret, w3, (fuel - 5) as nat));
        if w.jwt_secret is None {
            assert(run(secret_state, Effect::ReadJwtSecret, w3, (fuel - 5) as nat)
                == run(RefreshFlow::Finished, refusal(HttpStatus::InternalServerError), w3, (fuel - 6) as nat));
        } else {
            let sign = Effect::GenerateJwt { user_id: owner, secret: w.jwt_secret->Some_0 };
            assert(run(secret_state, Effect::ReadJwtSecret, w3, (fuel - 5) as nat)
                == run(RefreshFlow::Sign { new_token: fresh }, sign, w3, (fuel - 6) as nat));
            assert(run(RefreshFlow::Sign { new_token: fresh }, sign, w3, (fuel - 6) as nat)
                == run(RefreshFlow::Finished, refusal(HttpStatus::InternalServerError), w3, (fuel - 7) as nat));
        }
    }
}

/// A refresh that succeeds leaves the presented token spent: it is marked
/// used.
pub proof fn lemma_refresh_success_spends_token(w: World, token: String, fuel: nat)
    requires
        fuel >= 7,
    ensures
        ({
            let (after, answer) = run(refresh_begin(token), Effect::FindRefreshToken(token), w, fuel);
            answer matches Some(Ok(_)) ==> refresh_token_spent(after.refresh_tokens, token@)
        }),
{
    lemma_refresh_success_is_rotation(w, token, fuel);
    let (after, answer) = run(refresh_begin(token), Effect::FindRefreshToken(token), w, fuel);
    if answer matches Some(Ok(_)) {
        assert(w.fresh_token@ != token@);
        assert(after.refresh_tokens[token@].is_used);
    }
}

/// A refresh token is exchanged at most once. Once a refresh has succeeded,
/// any later refresh with the same token, after any other requests that do
/// not store that token text again, is refused (401 while the token's owner
/// exists); where the token is then still stored and has not expired, every
/// refresh token of its owner is deleted, the one that the first refresh
/// issued included.
pub proof fn lemma_refresh_token_never_exchanged_twice(
    w: World,
    token: String,
    between: Seq<Effect>,
    later: World,
    fuel: nat,
)
    requires
        run(refresh_begin(token), Effect::FindRefreshToken(token), w, fuel).1 matches Some(Ok(_)),
        forall|i: int| 0 <= i < between.len() ==> !creates_refresh_token(#[trigger] between[i], token@),
        later.refresh_tokens == perform_all(run(refresh_begin(token), Effect::FindRefreshToken(token), w, fuel).0, between).refresh_tokens,
        fuel >= 7,
    ensures
        ({
            let (after, answer) = run(refresh_begin(token), Effect::FindRefreshToken(token), later, fuel);
            let owner = later.refresh_tokens[token@].user_id;
            &&& answer matches Some(Err(_))
            &&& (!later.refresh_tokens.contains_key(token@) || later.users.contains_key(owner))
                ==> answer == Some(Err::<Reply, HttpStatus>(HttpStatus::Unauthorized))
            &&& later.refresh_tokens.contains_key(token@) && !expired_at(later.refresh_tokens[token@].expires_at, later.now)
                ==> forall|k: Seq<char>| #[trigger] after.refresh_tokens.contains_key(k)
                    ==> after.refresh_tokens[k].user_id != owner
        }),
{
    lemma_refresh_success_spends_token(w, token, fuel);
    let first = run(refresh_begin(token), Effect::FindRefreshToken(token), w, fuel).0;
    lemma_effects_keep_refresh_token_spent(first, between, token@);
    lemma_spent_refresh_token_refused(later, token, fuel);
}

/// Where storing the new token fails after the presented one was marked
/// used, the request is refused with 500 and the presented token stays
/// spent: no new token is issued.
pub proof fn lemma_refresh_store_failure_spends_token(w: World, token: String, fuel: nat)
    requires
        w.refresh_tokens.contains_key(token@),
        !expired_at(w.refresh_tokens[token@].expires_at, w.now),
        !w.refresh_tokens[token@].is_used,
        w.refresh_tokens.contains_key(w.fresh_token@) || later_by(w.now, REFRESH_TOKEN_LIFETIME) is None
            || w.fresh_token@ == token@,
        fuel >= 5,
    ensures
        run(refresh_begin(token), Effect::FindRefreshToken(token), w, fuel) == (
            World { refresh_tokens: w.refresh_tokens.insert(token@, used_row(w.refresh_tokens[token@], w.now)), ..w },
            Some(Err::<Reply, HttpStatus>(HttpStatus::InternalServerError)),
        ),
{
    let row = w.refresh_tokens[token@];
    let owner = row.user_id;
    let fresh = w.fresh_token;
    let h1 = RefreshFlow::CheckExpiry { presented: token, record: row };
    let w2 = World { refresh_tokens: w.refresh_tokens.insert(token@, used_row(row, w.now)), ..w };
    assert(run(refresh_begin(token), Effect::FindRefreshToken(token), w, fuel)
        == run(h1, Effect::ReadClock, w, (fuel - 1) as nat));
    assert(run(h1, Effect::ReadClock, w, (fuel - 1) as nat)
        == run(RefreshFlow::MarkUsed { user_id: owner }, Effect::MarkRefreshTokenUsed(token), w, (fuel - 2) as nat));
    assert(run(RefreshFlow::MarkUsed { user_id: owner }, Effect::MarkRefreshTokenUsed(token), w, (fuel - 2) as nat)
        == run(RefreshFlow::Generate { user_id: owner }, Effect::GenerateRefreshToken, w2, (fuel - 3) as nat));
    let create = Effect::CreateRefreshToken { user_id: owner, token: fresh };
    let store = RefreshFlow::Store { user_id: owner, new_token: fresh };
    assert(run(RefreshFlow::Generate { user_id: owner }, Effect::GenerateRefreshToken, w2, (fuel - 3) as nat)
        == run(store, create, w2, (fuel - 4) as nat));
    assert(w2.refresh_tokens.contains_key(fresh@) || later_by(w.now, REFRESH_TOKEN_LIFETIME) is None);
    assert(run(store, create, w2, (fuel - 4) as nat)
        == run(RefreshFlow::Finished, refusal(HttpStatus::InternalServerError), w2, (fuel - 5) as nat));
}

/// Where the runtime draws tokens with the library's generators, the
/// refresh token that an exchange issues is a random UUID in simple form,
/// and a table that held only such tokens still does.
pub proof fn lemma_refresh_issues_random_token(w: World, token: String, fuel: nat)
    requires
        w.refresh_tokens.contains_key(token@),
        !expired_at(w.refresh_tokens[token@].expires_at, w.now),
        !w.refresh_tokens[token@].is_used,
        !w.refresh_tokens.contains_key(w.fresh_token@),
        later_by(w.now, REFRESH_TOKEN_LIFETIME) is Some,
        w.jwt_secret is Some,
        w.signed is Ok,
        draws_library_tokens(w),
        refresh_tokens_random(w.refresh_tokens),
        fuel >= 7,
    ensures
        ({
            let (after, answer) = run(refresh_begin(token), Effect::FindRefreshToken(token), w, fuel);
            &&& answer matches Some(Ok(Reply::Tokens(r))) && is_random_uuid_text(r.refresh_token@)
            &&& refresh_tokens_random(after.refresh_tokens)
        }),
{
    lemma_refresh_rotates_token(w, token, fuel);
    let after = rotated(w, token, w.refresh_tokens[token@].user_id, w.fresh_token);
    assert forall|k: Seq<char>| #[trigger] after.refresh_tokens.contains_key(k) implies is_random_uuid_text(k) by {
        if k != w.fresh_token@ && k != token@ {
            assert(w.refresh_tokens.contains_key(k));
        }
    }
}


/// Where the database, the mailer or the signer fails, a refresh ends at
/// once with 500, with two exceptions: once the presented token has been
/// found expired, or reuse has been detected and the owner alerted, the
/// refusal is 401 whether or not the deletion or the alert went through.
pub proof fn lemma_refresh_failure_is_server_error(h: RefreshFlow, outcome: Outcome)
    requires
        reports_failure(outcome),
    ensures
        h.transition(outcome) == (
            RefreshFlow::Finished,
            refusal(
                if (h is DiscardExpired && outcome is Written) || (h is Alert && outcome is Sent) {
                    HttpStatus::Unauthorized
                } else {
                    HttpStatus::InternalServerError
                },
            ),
        ),
{
}

} // verus!
