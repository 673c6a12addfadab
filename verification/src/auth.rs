use vstd::prelude::*;
use crate::effects::{Effect, Outcome};
use crate::models::{User, UserRole};
use crate::status::HttpStatus;
use crate::token::{parse_uuid, uuid_from_text};
use crate::world::{perform, World};

verus! {

/// The scheme that precedes the access token in an `Authorization` header.
pub open spec fn token_scheme() -> Seq<char> {
    seq!['T', 'o', 'k', 'e', 'n', ' ']
}

/// Whether an `Authorization` header value carries a token: it starts with
/// `"Token "`.
pub open spec fn has_token_scheme(header: Seq<char>) -> bool {
    header.len() >= 6 && header.take(6) == token_scheme()
}

/// The text of a header, where it is present and readable.
pub open spec fn header_text(header: Option<&str>) -> Option<Seq<char>> {
    match header {
        Some(h) => Some(h@),
        None => None,
    }
}

/// The access token that an `Authorization` header carries: what follows
/// `"Token "`, where the header starts with it.
pub open spec fn bearer_token(header: Option<Seq<char>>) -> Option<Seq<char>> {
    match header {
        Some(h) => if has_token_scheme(h) { Some(h.skip(6)) } else { None },
        None => None,
    }
}

/// The access token in an `Authorization` header, given as text (`None`
/// where the header is absent or is not visible ASCII): what follows
/// `"Token "`, where the header starts with it.
pub fn extract_token_from_headers(authorization: Option<&str>) -> (r: Option<String>)
    ensures
        match bearer_token(header_text(authorization)) {
            Some(t) => r is Some && r->0@ == t,
            None => r is None,
        },
{
    match authorization {
        None => None,
        Some(h) => {
            let n = h.unicode_len();
            if n < 6 {
                return None;
            }
            if h.get_char(0) == 'T' && h.get_char(1) == 'o' && h.get_char(2) == 'k'
                && h.get_char(3) == 'e' && h.get_char(4) == 'n' && h.get_char(5) == ' ' {
                assert(h@.take(6) =~= token_scheme());
                let rest = h.substring_char(6, n);
                assert(rest@ =~= h@.skip(6));
                Some(String::from_str(rest))
            } else {
                assert(h@.take(6)[0] == h@[0]);
                assert(h@.take(6)[1] == h@[1]);
                assert(h@.take(6)[2] == h@[2]);
                assert(h@.take(6)[3] == h@[3]);
                assert(h@.take(6)[4] == h@[4]);
                assert(h@.take(6)[5] == h@[5]);
                None
            }
        },
    }
}

/// An authenticated user (the extractor of protected routes).
pub struct RequireAuth(pub User);

/// The user, where the request carries a valid access token (the extractor
/// of routes where authentication is optional).
pub struct OptionalAuth(pub Option<User>);

/// An authenticated administrator.
pub struct RequireAdmin(pub RequireAuth);

/// Whether a missing or invalid credential refuses the request
/// (`Required`) or only leaves it anonymous (`Optional`).
#[derive(PartialEq, Eq, Structural, Clone, Copy, Debug)]
pub enum AuthMode {
    Required,
    Optional,
}

/// Where the authentication of a request stands.
pub enum AuthFlow {
    /// Waiting for the signing secret, to check `token`.
    Secret { mode: AuthMode, token: String },
    /// Waiting for the subject of the checked token.
    Validate { mode: AuthMode },
    /// Waiting for the account of the subject.
    Lookup { mode: AuthMode },
}

/// What authentication does next.
pub enum AuthStep {
    /// Perform the effect and come back with its outcome.
    Continue(AuthFlow, Effect),
    /// Done: the user, or none for an anonymous request in optional mode.
    Authenticated(Option<User>),
    /// The request is refused.
    Rejected(HttpStatus),
}

/// What a missing or unusable credential leads to.
pub open spec fn anonymous(mode: AuthMode) -> AuthStep {
    match mode {
        AuthMode::Required => AuthStep::Rejected(HttpStatus::Unauthorized),
        AuthMode::Optional => AuthStep::Authenticated(None),
    }
}

fn exec_anonymous(mode: AuthMode) -> (r: AuthStep)
    ensures
        r == anonymous(mode),
{
    match mode {
        AuthMode::Required => AuthStep::Rejected(HttpStatus::Unauthorized),
        AuthMode::Optional => AuthStep::Authenticated(None),
    }
}

/// How authentication goes on once the token's subject has been read as a
/// UUID (`None` where it is not one).
pub open spec fn auth_after_subject(mode: AuthMode, user_id: Option<u128>) -> AuthStep {
    match user_id {
        Some(id) => AuthStep::Continue(AuthFlow::Lookup { mode }, Effect::FindUserById(id)),
        None => anonymous(mode),
    }
}

/// The transitions of authentication.
pub open spec fn auth_next(flow: AuthFlow, outcome: Outcome) -> AuthStep {
    match flow {
        AuthFlow::Secret { mode, token } => match outcome {
            Outcome::Secret(Some(secret)) => AuthStep::Continue(
                AuthFlow::Validate { mode },
                Effect::ValidateJwt { token, secret },
            ),
            _ => AuthStep::Rejected(HttpStatus::InternalServerError),
        },
        AuthFlow::Validate { mode } => match outcome {
            Outcome::Claims(Ok(subject)) => auth_after_subject(mode, uuid_from_text(subject@)),
            Outcome::Claims(Err(_)) => anonymous(mode),
            _ => AuthStep::Rejected(HttpStatus::InternalServerError),
        },
        AuthFlow::Lookup { mode } => match outcome {
            Outcome::UserLookup(Ok(Some(user))) => AuthStep::Authenticated(Some(user)),
            Outcome::UserLookup(Ok(None)) => anonymous(mode),
            _ => AuthStep::Rejected(HttpStatus::InternalServerError),
        },
    }
}

impl AuthFlow {
    /// Begin authenticating a request whose `Authorization` header is
    /// `authorization`.
    pub fn start(mode: AuthMode, authorization: Option<&str>) -> (r: AuthStep)
        ensures
            match bearer_token(header_text(authorization)) {
                None => r == anonymous(mode),
                Some(t) => r matches AuthStep::Continue(AuthFlow::Secret { mode: m, token: tok }, Effect::ReadJwtSecret)
                    && m == mode && tok@ == t,
            },
            r == auth_begin(mode, pending_token(r)),
    {
        match extract_token_from_headers(authorization) {
            Some(token) => AuthStep::Continue(AuthFlow::Secret { mode, token }, Effect::ReadJwtSecret),
            None => exec_anonymous(mode),
        }
    }

    /// Go on once the token's subject has been read as a UUID.
    pub fn after_subject(mode: AuthMode, user_id: Option<u128>) -> (r: AuthStep)
        ensures
            r == auth_after_subject(mode, user_id),
    {
        match user_id {
            Some(id) => AuthStep::Continue(AuthFlow::Lookup { mode }, Effect::FindUserById(id)),
            None => exec_anonymous(mode),
        }
    }

    /// Advance authentication with the outcome of its last effect.
    pub fn step(self, outcome: Outcome) -> (r: AuthStep)
        ensures
            r == auth_next(self, outcome),
    {
        match self {
            AuthFlow::Secret { mode, token } => match outcome {
                Outcome::Secret(Some(secret)) => AuthStep::Continue(
                    AuthFlow::Validate { mode },
                    Effect::ValidateJwt { token, secret },
                ),
                _ => AuthStep::Rejected(HttpStatus::InternalServerError),
            },
            AuthFlow::Validate { mode } => match outcome {
                Outcome::Claims(Ok(subject)) => AuthFlow::after_subject(mode, parse_uuid(subject.as_str())),
                Outcome::Claims(Err(_)) => exec_anonymous(mode),
                _ => AuthStep::Rejected(HttpStatus::InternalServerError),
            },
            AuthFlow::Lookup { mode } => match outcome {
                Outcome::UserLookup(Ok(Some(user))) => AuthStep::Authenticated(Some(user)),
                Outcome::UserLookup(Ok(None)) => exec_anonymous(mode),
                _ => AuthStep::Rejected(HttpStatus::InternalServerError),
            },
        }
    }
}

/// The mode in which an authentication in progress runs.
pub open spec fn mode_of(flow: AuthFlow) -> AuthMode {
    match flow {
        AuthFlow::Secret { mode, .. } => mode,
        AuthFlow::Validate { mode } => mode,
        AuthFlow::Lookup { mode } => mode,
    }
}

/// Whether a step of authentication never turns a request away for want of
/// valid credentials: it goes on in optional mode, or ends with a user or
/// anonymously, or refuses only with 500.
pub open spec fn lets_anonymous_through(step: AuthStep) -> bool {
    match step {
        AuthStep::Continue(flow, _) => mode_of(flow) == AuthMode::Optional,
        AuthStep::Authenticated(_) => true,
        AuthStep::Rejected(status) => status == HttpStatus::InternalServerError,
    }
}

/// Optional authentication never answers 401: a missing, malformed or
/// invalid token, or one whose account is gone, leaves the request
/// anonymous; only a missing signing secret or a failing database refuse it,
/// with 500.
pub proof fn lemma_optional_auth_never_unauthorized(flow: AuthFlow, outcome: Outcome, user_id: Option<u128>)
    requires
        mode_of(flow) == AuthMode::Optional,
    ensures
        lets_anonymous_through(auth_next(flow, outcome)),
        lets_anonymous_through(auth_after_subject(AuthMode::Optional, user_id)),
        lets_anonymous_through(anonymous(AuthMode::Optional)),
{
}

/// The same authentication step, run in `mode`.
pub open spec fn with_mode(flow: AuthFlow, mode: AuthMode) -> AuthFlow {
    match flow {
        AuthFlow::Secret { token, .. } => AuthFlow::Secret { mode, token },
        AuthFlow::Validate { .. } => AuthFlow::Validate { mode },
        AuthFlow::Lookup { .. } => AuthFlow::Lookup { mode },
    }
}

/// How authentication in `mode` begins for a request that carries `token`
/// (`None` where its `Authorization` header carries none).
pub open spec fn auth_begin(mode: AuthMode, token: Option<String>) -> AuthStep {
    match token {
        Some(t) => AuthStep::Continue(AuthFlow::Secret { mode, token: t }, Effect::ReadJwtSecret),
        None => anonymous(mode),
    }
}

/// The token that an authentication step is about to check, if any.
pub open spec fn pending_token(step: AuthStep) -> Option<String> {
    match step {
        AuthStep::Continue(AuthFlow::Secret { token, .. }, _) => Some(token),
        _ => None,
    }
}

/// Whether a step of required authentication and the same step of optional
/// authentication agree: they ask for the same effect, reach the same user,
/// or both fail with 500; where the required one refuses with 401, the
/// optional one goes on anonymously.
pub open spec fn modes_agree(required: AuthStep, optional: AuthStep) -> bool {
    match required {
        AuthStep::Continue(f1, e1) => optional matches AuthStep::Continue(f2, e2)
            && e1 == e2 && mode_of(f1) == AuthMode::Required && f2 == with_mode(f1, AuthMode::Optional),
        AuthStep::Authenticated(u1) => u1 is Some && optional == AuthStep::Authenticated(u1),
        AuthStep::Rejected(HttpStatus::InternalServerError) => optional == AuthStep::Rejected(HttpStatus::InternalServerError),
        AuthStep::Rejected(HttpStatus::Unauthorized) => optional == AuthStep::Authenticated(None),
        AuthStep::Rejected(_) => false,
    }
}

/// Authentication run from `step` in world `w` for at most `fuel` effects:
/// the step it ends at.
pub open spec fn auth_run(step: AuthStep, w: World, fuel: nat) -> AuthStep
    decreases fuel,
{
    match step {
        AuthStep::Continue(flow, effect) => if fuel == 0 {
            step
        } else {
            let (w2, outcome) = perform(w, effect);
            auth_run(auth_next(flow, outcome), w2, (fuel - 1) as nat)
        },
        _ => step,
    }
}

proof fn lemma_modes_agree_step(flow: AuthFlow, outcome: Outcome)
    requires
        mode_of(flow) == AuthMode::Required,
    ensures
        modes_agree(auth_next(flow, outcome), auth_next(with_mode(flow, AuthMode::Optional), outcome)),
{
}

proof fn lemma_modes_agree_run(required: AuthStep, optional: AuthStep, w: World, fuel: nat)
    requires
        modes_agree(required, optional),
    ensures
        modes_agree(auth_run(required, w, fuel), auth_run(optional, w, fuel)),
    decreases fuel,
{
    if fuel > 0 {
        if let AuthStep::Continue(f1, e1) = required {
            if let AuthStep::Continue(f2, e2) = optional {
                let (w2, outcome) = perform(w, e1);
                lemma_modes_agree_step(f1, outcome);
                lemma_modes_agree_run(auth_next(f1, outcome), auth_next(f2, outcome), w2, (fuel - 1) as nat);
            }
        }
    }
}

/// Required and optional authentication reach the same users: run on the
/// same token in the same world, required authentication admits user `u`
/// exactly when optional authentication yields `u`.
pub proof fn lemma_required_and_optional_reach_same_user(token: Option<String>, w: World, fuel: nat, u: User)
    ensures
        auth_run(auth_begin(AuthMode::Required, token), w, fuel) == AuthStep::Authenticated(Some(u))
            <==> auth_run(auth_begin(AuthMode::Optional, token), w, fuel) == AuthStep::Authenticated(Some(u)),
{
    lemma_modes_agree_run(auth_begin(AuthMode::Required, token), auth_begin(AuthMode::Optional, token), w, fuel);
}

/// What the administrator extractor decides, given what authentication gave:
/// any refusal of authentication becomes 401, and an authenticated user who
/// is not an administrator is refused with 403.
pub open spec fn admin_decision(auth: Result<User, HttpStatus>) -> Result<User, HttpStatus> {
    match auth {
        Err(_) => Err(HttpStatus::Unauthorized),
        Ok(user) => if user.role == UserRole::Admin { Ok(user) } else { Err(HttpStatus::Forbidden) },
    }
}

impl RequireAdmin {
    /// Admit an authenticated administrator.
    pub fn from_auth(auth: Result<RequireAuth, HttpStatus>) -> (r: Result<RequireAdmin, HttpStatus>)
        ensures
            match auth {
                Err(_) => r == Err::<RequireAdmin, HttpStatus>(HttpStatus::Unauthorized),
                Ok(RequireAuth(user)) => if user.role == UserRole::Admin {
                    r matches Ok(RequireAdmin(RequireAuth(u))) && u == user
                } else {
                    r == Err::<RequireAdmin, HttpStatus>(HttpStatus::Forbidden)
                },
            },
    {
        match auth {
            Err(_) => Err(HttpStatus::Unauthorized),
            Ok(a) => if a.0.role != UserRole::Admin {
                Err(HttpStatus::Forbidden)
            } else {
                Ok(RequireAdmin(a))
            },
        }
    }
}

} // verus!
