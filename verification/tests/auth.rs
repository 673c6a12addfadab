use realworld_axum_api::auth::{extract_token_from_headers, AuthFlow, AuthMode, AuthStep, RequireAdmin, RequireAuth};
use realworld_axum_api::effects::{Effect, Outcome};
use realworld_axum_api::models::{User, UserRole};
use realworld_axum_api::status::HttpStatus;

fn user(id: u128, role: UserRole) -> User {
    User {
        id,
        username: "dana".to_string(),
        email: "dana@example.com".to_string(),
        password_hash: "hash".to_string(),
        bio: None,
        image: None,
        email_verified: false,
        role,
        created_at: 0,
        updated_at: 0,
    }
}

#[test]
fn token_after_scheme_is_extracted() {
    assert_eq!(extract_token_from_headers(Some("Token abc.def")), Some("abc.def".to_string()));
    assert_eq!(extract_token_from_headers(Some("Token ")), Some(String::new()));
}

#[test]
fn other_schemes_and_missing_header_give_nothing() {
    assert_eq!(extract_token_from_headers(Some("Bearer abc")), None);
    assert_eq!(extract_token_from_headers(Some("token abc")), None);
    assert_eq!(extract_token_from_headers(Some("Token")), None);
    assert_eq!(extract_token_from_headers(None), None);
}

#[test]
fn required_auth_without_token_is_unauthorized() {
    assert!(matches!(AuthFlow::start(AuthMode::Required, None), AuthStep::Rejected(HttpStatus::Unauthorized)));
    assert!(matches!(AuthFlow::start(AuthMode::Required, Some("Basic x")), AuthStep::Rejected(HttpStatus::Unauthorized)));
}

#[test]
fn optional_auth_without_token_is_anonymous() {
    assert!(matches!(AuthFlow::start(AuthMode::Optional, None), AuthStep::Authenticated(None)));
}

#[test]
fn required_auth_walks_secret_claims_and_lookup() {
    let step = AuthFlow::start(AuthMode::Required, Some("Token jwt"));
    let flow = match step {
        AuthStep::Continue(flow, Effect::ReadJwtSecret) => flow,
        _ => panic!("expected a read of the secret"),
    };
    let step = flow.step(Outcome::Secret(Some("s3cret".to_string())));
    let flow = match step {
        AuthStep::Continue(flow, Effect::ValidateJwt { token, secret }) => {
            assert_eq!(token, "jwt");
            assert_eq!(secret, "s3cret");
            flow
        },
        _ => panic!("expected a token check"),
    };
    let step = flow.step(Outcome::Claims(Ok("550e8400-e29b-41d4-a716-446655440000".to_string())));
    let flow = match step {
        AuthStep::Continue(flow, Effect::FindUserById(id)) => {
            assert_eq!(id, 0x550e8400_e29b_41d4_a716_446655440000u128);
            flow
        },
        _ => panic!("expected a user lookup"),
    };
    match flow.step(Outcome::UserLookup(Ok(Some(user(7, UserRole::User))))) {
        AuthStep::Authenticated(Some(u)) => assert_eq!(u.id, 7),
        _ => panic!("expected the user"),
    }
}

#[test]
fn subject_that_is_not_a_uuid() {
    let flow = AuthFlow::Validate { mode: AuthMode::Required };
    assert!(matches!(
        flow.step(Outcome::Claims(Ok("not-a-uuid".to_string()))),
        AuthStep::Rejected(HttpStatus::Unauthorized)
    ));
    let flow = AuthFlow::Validate { mode: AuthMode::Optional };
    assert!(matches!(flow.step(Outcome::Claims(Ok("not-a-uuid".to_string()))), AuthStep::Authenticated(None)));
}

#[test]
fn missing_secret_is_a_server_error_in_both_modes() {
    for mode in [AuthMode::Required, AuthMode::Optional] {
        let flow = AuthFlow::Secret { mode, token: "t".to_string() };
        assert!(matches!(flow.step(Outcome::Secret(None)), AuthStep::Rejected(HttpStatus::InternalServerError)));
    }
}

#[test]
fn invalid_token_and_unknown_user() {
    let flow = AuthFlow::Validate { mode: AuthMode::Required };
    assert!(matches!(flow.step(Outcome::Claims(Err(()))), AuthStep::Rejected(HttpStatus::Unauthorized)));
    let flow = AuthFlow::Lookup { mode: AuthMode::Required };
    assert!(matches!(flow.step(Outcome::UserLookup(Ok(None))), AuthStep::Rejected(HttpStatus::Unauthorized)));
    let flow = AuthFlow::Lookup { mode: AuthMode::Optional };
    assert!(matches!(flow.step(Outcome::UserLookup(Ok(None))), AuthStep::Authenticated(None)));
    let flow = AuthFlow::Lookup { mode: AuthMode::Optional };
    assert!(matches!(flow.step(Outcome::UserLookup(Err(()))), AuthStep::Rejected(HttpStatus::InternalServerError)));
}

#[test]
fn admin_gate() {
    assert!(matches!(RequireAdmin::from_auth(Ok(RequireAuth(user(1, UserRole::Admin)))), Ok(RequireAdmin(_))));
    assert!(matches!(
        RequireAdmin::from_auth(Ok(RequireAuth(user(1, UserRole::User)))),
        Err(HttpStatus::Forbidden)
    ));
    assert!(matches!(RequireAdmin::from_auth(Err(HttpStatus::InternalServerError)), Err(HttpStatus::Unauthorized)));
}

#[test]
fn status_codes() {
    assert_eq!(HttpStatus::BadRequest.code(), 400);
    assert_eq!(HttpStatus::Unauthorized.code(), 401);
    assert_eq!(HttpStatus::Forbidden.code(), 403);
    assert_eq!(HttpStatus::NotFound.code(), 404);
    assert_eq!(HttpStatus::Conflict.code(), 409);
    assert_eq!(HttpStatus::Gone.code(), 410);
    assert_eq!(HttpStatus::TooManyRequests.code(), 429);
    assert_eq!(HttpStatus::InternalServerError.code(), 500);
}
