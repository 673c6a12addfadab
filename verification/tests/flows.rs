use realworld_axum_api::effects::{Answer, Effect, Handler, Notice, Outcome, Reply};
use realworld_axum_api::handlers::account::{AdminFlow, CurrentUserFlow, DeleteUserFlow};
use realworld_axum_api::handlers::password::{ForgotPasswordFlow, ResetPasswordFlow};
use realworld_axum_api::handlers::refresh::RefreshFlow;
use realworld_axum_api::handlers::registration::{RegisterFlow, VerifyEmailFlow};
use realworld_axum_api::handlers::session::{LoginFlow, LogoutFlow};
use realworld_axum_api::models::{expiry_after, refresh_token_expires_at, MailToken, RefreshToken, User, UserRole};
use realworld_axum_api::schemas::{
    ForgotPasswordRequest, LoginUserData, LoginUserRequest, LogoutRequest, RefreshTokenRequest, RegisterUserData,
    RegisterUserRequest, ResetPasswordRequest,
};
use realworld_axum_api::status::HttpStatus;

const UID: &str = "00000000-0000-4000-8000-00000000002a";

fn user(id: u128, role: UserRole) -> User {
    User {
        id,
        username: "erin".to_string(),
        email: "erin@example.com".to_string(),
        password_hash: "hash".to_string(),
        bio: Some("hi".to_string()),
        image: None,
        email_verified: false,
        role,
        created_at: 1,
        updated_at: 2,
    }
}

fn refresh_row(user_id: u128, expires_at: i64, is_used: bool) -> RefreshToken {
    RefreshToken {
        id: 9,
        user_id,
        token: "old".to_string(),
        expires_at,
        created_at: 0,
        used_at: None,
        is_used,
    }
}

fn kind(e: &Effect) -> &'static str {
    match e {
        Effect::ReadClock => "clock",
        Effect::ReadJwtSecret => "secret",
        Effect::GenerateJwt { .. } => "sign",
        Effect::ValidateJwt { .. } => "validate",
        Effect::HashPassword(_) => "hash",
        Effect::GenerateVerificationToken => "draw-mail-token",
        Effect::GenerateRefreshToken => "draw-refresh-token",
        Effect::FindUserById(_) => "find-user-id",
        Effect::FindUserByEmail(_) => "find-user-email",
        Effect::FindUserByUsername(_) => "find-user-name",
        Effect::CreateUser { .. } => "create-user",
        Effect::DeleteUser(_) => "delete-user",
        Effect::UpdatePassword { .. } => "update-password",
        Effect::VerifyUserEmail(_) => "verify-user",
        Effect::CreateVerificationToken { .. } => "create-verification",
        Effect::FindVerificationToken(_) => "find-verification",
        Effect::DeleteVerificationToken(_) => "delete-verification",
        Effect::CreateResetToken { .. } => "create-reset",
        Effect::FindResetToken(_) => "find-reset",
        Effect::DeleteResetToken(_) => "delete-reset",
        Effect::DeleteAllResetTokens(_) => "delete-all-reset",
        Effect::CreateRefreshToken { .. } => "create-refresh",
        Effect::FindRefreshToken(_) => "find-refresh",
        Effect::DeleteRefreshToken(_) => "delete-refresh",
        Effect::DeleteAllRefreshTokens(_) => "delete-all-refresh",
        Effect::MarkRefreshTokenUsed(_) => "mark-used",
        Effect::SendVerificationEmail { .. } => "mail-verification",
        Effect::SendPasswordResetEmail { .. } => "mail-reset",
        Effect::SendSecurityAlert { .. } => "mail-alert",
        Effect::Respond(_) => "respond",
    }
}

/// Feed the outcomes in turn; the kinds of the effects asked for, and the
/// answer once given.
fn drive<H: Handler>(start: (H, Effect), outcomes: Vec<Outcome>) -> (Vec<&'static str>, Option<Answer>) {
    let (mut h, mut e) = start;
    let mut kinds = Vec::new();
    for o in outcomes {
        kinds.push(kind(&e));
        if let Effect::Respond(a) = e {
            return (kinds, Some(a));
        }
        let (h2, e2) = h.step(o);
        h = h2;
        e = e2;
    }
    kinds.push(kind(&e));
    match e {
        Effect::Respond(a) => (kinds, Some(a)),
        _ => (kinds, None),
    }
}

fn status(a: &Option<Answer>) -> Option<u16> {
    match a {
        Some(Err(s)) => Some(s.code()),
        _ => None,
    }
}

#[test]
fn refresh_unknown_token_is_unauthorized() {
    let start = RefreshFlow::start(RefreshTokenRequest { refresh_token: "nope".to_string() });
    let (kinds, a) = drive(start, vec![Outcome::RefreshLookup(Ok(None))]);
    assert_eq!(kinds, vec!["find-refresh", "respond"]);
    assert_eq!(status(&a), Some(401));
}

#[test]
fn refresh_expired_token_is_deleted_and_refused() {
    let start = RefreshFlow::start(RefreshTokenRequest { refresh_token: "old".to_string() });
    let (kinds, a) = drive(start, vec![
        Outcome::RefreshLookup(Ok(Some(refresh_row(42, 100, false)))),
        Outcome::Clock(101),
        Outcome::Written(Err(())),
    ]);
    assert_eq!(kinds, vec!["find-refresh", "clock", "delete-refresh", "respond"]);
    assert_eq!(status(&a), Some(401));
}

#[test]
fn refresh_at_expiry_instant_is_still_live() {
    let flow = RefreshFlow::CheckExpiry { presented: "old".to_string(), record: refresh_row(42, 100, false) };
    let (_, e) = flow.step(Outcome::Clock(100));
    assert!(matches!(e, Effect::MarkRefreshTokenUsed(ref t) if t == "old"));
}

#[test]
fn refresh_reuse_revokes_everything_even_if_alert_fails() {
    let start = RefreshFlow::start(RefreshTokenRequest { refresh_token: "old".to_string() });
    let (kinds, a) = drive(start, vec![
        Outcome::RefreshLookup(Ok(Some(refresh_row(42, 1000, true)))),
        Outcome::Clock(5),
        Outcome::Written(Ok(())),
        Outcome::UserLookup(Ok(Some(user(42, UserRole::User)))),
        Outcome::Sent(Err(())),
    ]);
    assert_eq!(kinds, vec!["find-refresh", "clock", "delete-all-refresh", "find-user-id", "mail-alert", "respond"]);
    assert_eq!(status(&a), Some(401));
}

#[test]
fn refresh_reuse_with_vanished_owner_is_server_error() {
    let flow = RefreshFlow::FindOwner;
    let (_, e) = flow.step(Outcome::UserLookup(Ok(None)));
    assert!(matches!(e, Effect::Respond(Err(HttpStatus::InternalServerError))));
}

#[test]
fn refresh_rotates_tokens() {
    let start = RefreshFlow::start(RefreshTokenRequest { refresh_token: "old".to_string() });
    let (kinds, a) = drive(start, vec![
        Outcome::RefreshLookup(Ok(Some(refresh_row(42, 1000, false)))),
        Outcome::Clock(5),
        Outcome::Written(Ok(())),
        Outcome::Generated("new".to_string()),
        Outcome::RefreshCreated(Ok(refresh_row(42, 2000, false))),
        Outcome::Secret(Some("k".to_string())),
        Outcome::Jwt(Ok("access".to_string())),
    ]);
    assert_eq!(kinds, vec![
        "find-refresh", "clock", "mark-used", "draw-refresh-token", "create-refresh", "secret", "sign", "respond",
    ]);
    match a {
        Some(Ok(Reply::Tokens(t))) => {
            assert_eq!(t.access_token, "access");
            assert_eq!(t.refresh_token, "new");
        },
        _ => panic!("expected both tokens"),
    }
}

#[test]
fn refresh_new_token_is_stored_for_the_owner() {
    let flow = RefreshFlow::Generate { user_id: 42 };
    let (_, e) = flow.step(Outcome::Generated("new".to_string()));
    assert!(matches!(e, Effect::CreateRefreshToken { user_id: 42, ref token } if token == "new"));
}

#[test]
fn refresh_missing_secret_is_server_error() {
    let flow = RefreshFlow::Secret { user_id: 1, new_token: "n".to_string() };
    let (_, e) = flow.step(Outcome::Secret(None));
    assert!(matches!(e, Effect::Respond(Err(HttpStatus::InternalServerError))));
}

#[test]
fn unexpected_outcome_is_server_error() {
    let flow = RefreshFlow::Lookup { presented: "x".to_string() };
    let (_, e) = flow.step(Outcome::Clock(3));
    assert!(matches!(e, Effect::Respond(Err(HttpStatus::InternalServerError))));
}

#[test]
fn refresh_expiry_is_seven_days_later() {
    assert_eq!(refresh_token_expires_at(0), Some(604_800_000_000));
    assert_eq!(refresh_token_expires_at(i64::MAX), None);
}

#[test]
fn logout_deletes_token() {
    let start = LogoutFlow::start(LogoutRequest { refresh_token: "old".to_string() });
    assert!(matches!(start.1, Effect::DeleteRefreshToken(ref t) if t == "old"));
    let (_, a) = drive(start, vec![Outcome::Written(Ok(()))]);
    assert!(matches!(a, Some(Ok(Reply::Message(Notice::LoggedOut)))));
    assert_eq!(Notice::LoggedOut.text(), "Logged out successfully");
}

fn login_request(email: &str, password: &str) -> LoginUserRequest {
    LoginUserRequest { user: LoginUserData { email: email.to_string(), password: password.to_string() } }
}

#[test]
fn login_invalid_body_is_bad_request() {
    let (kinds, a) = drive(LoginFlow::start(login_request("nope", "pw")), vec![]);
    assert_eq!(kinds, vec!["respond"]);
    assert_eq!(status(&a), Some(400));
}

#[test]
fn login_unknown_email_is_unauthorized() {
    let (_, a) = drive(LoginFlow::start(login_request("x@example.com", "pw")), vec![Outcome::UserLookup(Ok(None))]);
    assert_eq!(status(&a), Some(401));
}

#[test]
fn login_issues_both_tokens() {
    let (kinds, a) = drive(LoginFlow::start(login_request("erin@example.com", "anything")), vec![
        Outcome::UserLookup(Ok(Some(user(3, UserRole::User)))),
        Outcome::Secret(Some("k".to_string())),
        Outcome::Jwt(Ok("access".to_string())),
        Outcome::Generated("refresh".to_string()),
        Outcome::RefreshCreated(Ok(refresh_row(3, 10, false))),
    ]);
    assert_eq!(kinds, vec!["find-user-email", "secret", "sign", "draw-refresh-token", "create-refresh", "respond"]);
    match a {
        Some(Ok(Reply::Login(l))) => {
            assert_eq!(l.access_token, "access");
            assert_eq!(l.refresh_token, "refresh");
            assert_eq!(l.user.token, "access");
            assert_eq!(l.user.email, "erin@example.com");
            assert_eq!(l.user.bio, Some("hi".to_string()));
            assert_eq!(l.user.role, UserRole::User);
        },
        _ => panic!("expected a login answer"),
    }
}

fn register_request(username: &str, email: &str, password: &str) -> RegisterUserRequest {
    RegisterUserRequest {
        user: RegisterUserData { username: username.to_string(), email: email.to_string(), password: password.to_string() },
    }
}

#[test]
fn register_invalid_is_bad_request() {
    let (_, a) = drive(RegisterFlow::start(register_request("x", "x@example.com", "12345678")), vec![]);
    assert_eq!(status(&a), Some(400));
}

#[test]
fn register_taken_email_or_username_is_conflict() {
    let taken = vec![Outcome::UserLookup(Ok(Some(user(1, UserRole::User))))];
    let (_, a) = drive(RegisterFlow::start(register_request("frank", "f@example.com", "12345678")), taken);
    assert_eq!(status(&a), Some(409));
    let (kinds, a) = drive(RegisterFlow::start(register_request("frank", "f@example.com", "12345678")), vec![
        Outcome::UserLookup(Ok(None)),
        Outcome::UserLookup(Ok(Some(user(1, UserRole::User)))),
    ]);
    assert_eq!(kinds, vec!["find-user-email", "find-user-name", "respond"]);
    assert_eq!(status(&a), Some(409));
}

#[test]
fn register_full_path() {
    let mut created = user(5, UserRole::User);
    created.username = "frank".to_string();
    let (kinds, a) = drive(RegisterFlow::start(register_request("frank", "f@example.com", "12345678")), vec![
        Outcome::UserLookup(Ok(None)),
        Outcome::UserLookup(Ok(None)),
        Outcome::Hashed(Ok("h".to_string())),
        Outcome::UserCreated(Ok(created)),
        Outcome::Generated("vtok".to_string()),
        Outcome::Clock(1_000),
        Outcome::Written(Ok(())),
        Outcome::Sent(Ok(())),
        Outcome::Secret(Some("k".to_string())),
        Outcome::Jwt(Ok("access".to_string())),
    ]);
    assert_eq!(kinds, vec![
        "find-user-email", "find-user-name", "hash", "create-user", "draw-mail-token", "clock",
        "create-verification", "mail-verification", "secret", "sign", "respond",
    ]);
    match a {
        Some(Ok(Reply::User(r))) => {
            assert_eq!(r.user.username, "frank");
            assert_eq!(r.user.token, "access");
            assert!(!r.user.email_verified);
        },
        _ => panic!("expected the new profile"),
    }
}

#[test]
fn register_token_expires_a_day_later() {
    let flow = RegisterFlow::Clock { user: user(5, UserRole::User), token: "vtok".to_string() };
    let (_, e) = flow.step(Outcome::Clock(1_000));
    assert!(matches!(e, Effect::CreateVerificationToken { user_id: 5, expires_at: 86_400_001_000, .. }));
}

#[test]
fn register_mail_failure_is_server_error() {
    let flow = RegisterFlow::Mail { user: user(5, UserRole::User) };
    let (_, e) = flow.step(Outcome::Sent(Err(())));
    assert!(matches!(e, Effect::Respond(Err(HttpStatus::InternalServerError))));
}

#[test]
fn register_hash_goes_into_new_user() {
    let flow = RegisterFlow::Hash { username: "g".to_string(), email: "g@x.io".to_string() };
    let (_, e) = flow.step(Outcome::Hashed(Ok("argon".to_string())));
    assert!(matches!(e, Effect::CreateUser { ref password_hash, role: UserRole::User, .. } if password_hash == "argon"));
}

#[test]
fn expiry_arithmetic() {
    assert_eq!(expiry_after(10, 5), Some(15));
    assert_eq!(expiry_after(i64::MAX - 1, 5), None);
}

fn mail_token(user_id: u128, expires_at: i64) -> MailToken {
    MailToken { user_id, token: "vtok".to_string(), expires_at }
}

#[test]
fn verify_email_needs_token_parameter() {
    let (_, a) = drive(VerifyEmailFlow::start(None), vec![]);
    assert_eq!(status(&a), Some(400));
}

#[test]
fn verify_email_unknown_token_is_not_found() {
    let (_, a) = drive(VerifyEmailFlow::start(Some("vtok".to_string())), vec![Outcome::MailTokenLookup(Ok(None))]);
    assert_eq!(status(&a), Some(404));
}

#[test]
fn verify_email_expired_is_gone() {
    let (kinds, a) = drive(VerifyEmailFlow::start(Some("vtok".to_string())), vec![
        Outcome::MailTokenLookup(Ok(Some(mail_token(1, 50)))),
        Outcome::Clock(51),
        Outcome::Written(Ok(())),
    ]);
    assert_eq!(kinds, vec!["find-verification", "clock", "delete-verification", "respond"]);
    assert_eq!(status(&a), Some(410));
}

#[test]
fn verify_email_marks_verified_then_consumes() {
    let (kinds, a) = drive(VerifyEmailFlow::start(Some("vtok".to_string())), vec![
        Outcome::MailTokenLookup(Ok(Some(mail_token(1, 50)))),
        Outcome::Clock(49),
        Outcome::Written(Ok(())),
        Outcome::Written(Ok(())),
    ]);
    assert_eq!(kinds, vec!["find-verification", "clock", "verify-user", "delete-verification", "respond"]);
    assert!(matches!(a, Some(Ok(Reply::Message(Notice::EmailVerified)))));
    assert_eq!(Notice::EmailVerified.text(), "Email verified successfully!");
}

#[test]
fn forgot_password_same_answer_for_unknown_email() {
    let req = || ForgotPasswordRequest { email: "x@example.com".to_string() };
    let (_, unknown) = drive(ForgotPasswordFlow::start(req()), vec![Outcome::UserLookup(Ok(None))]);
    let (kinds, known) = drive(ForgotPasswordFlow::start(req()), vec![
        Outcome::UserLookup(Ok(Some(user(2, UserRole::User)))),
        Outcome::Generated("rtok".to_string()),
        Outcome::Clock(0),
        Outcome::Written(Ok(())),
        Outcome::Sent(Ok(())),
    ]);
    assert_eq!(kinds, vec!["find-user-email", "draw-mail-token", "clock", "create-reset", "mail-reset", "respond"]);
    assert!(matches!(unknown, Some(Ok(Reply::Message(Notice::ResetLinkSent)))));
    assert!(matches!(known, Some(Ok(Reply::Message(Notice::ResetLinkSent)))));
    assert_eq!(Notice::ResetLinkSent.text(), "If that email exists, a password reset link has been sent.");
}

#[test]
fn forgot_password_token_expires_an_hour_later() {
    let flow = ForgotPasswordFlow::Clock { user: user(2, UserRole::User), token: "rtok".to_string() };
    let (_, e) = flow.step(Outcome::Clock(7));
    assert!(matches!(e, Effect::CreateResetToken { user_id: 2, expires_at: 3_600_000_007, .. }));
}

#[test]
fn forgot_password_invalid_email_is_bad_request() {
    let (_, a) = drive(ForgotPasswordFlow::start(ForgotPasswordRequest { email: "nobody".to_string() }), vec![]);
    assert_eq!(status(&a), Some(400));
}

fn reset_request(password: &str) -> ResetPasswordRequest {
    ResetPasswordRequest { token: "rtok".to_string(), new_password: password.to_string() }
}

#[test]
fn reset_password_paths() {
    let (_, a) = drive(ResetPasswordFlow::start(reset_request("short")), vec![]);
    assert_eq!(status(&a), Some(400));
    let (_, a) = drive(ResetPasswordFlow::start(reset_request("longenough")), vec![Outcome::MailTokenLookup(Ok(None))]);
    assert_eq!(status(&a), Some(404));
    let (kinds, a) = drive(ResetPasswordFlow::start(reset_request("longenough")), vec![
        Outcome::MailTokenLookup(Ok(Some(mail_token(4, 10)))),
        Outcome::Clock(11),
        Outcome::Written(Ok(())),
    ]);
    assert_eq!(kinds, vec!["find-reset", "clock", "delete-reset", "respond"]);
    assert_eq!(status(&a), Some(410));
    let (kinds, a) = drive(ResetPasswordFlow::start(reset_request("longenough")), vec![
        Outcome::MailTokenLookup(Ok(Some(mail_token(4, 10)))),
        Outcome::Clock(9),
        Outcome::Hashed(Ok("newhash".to_string())),
        Outcome::Written(Ok(())),
        Outcome::Written(Ok(())),
    ]);
    assert_eq!(kinds, vec!["find-reset", "clock", "hash", "update-password", "delete-all-reset", "respond"]);
    assert!(matches!(a, Some(Ok(Reply::Message(Notice::PasswordReset)))));
}

#[test]
fn reset_password_hashes_the_new_password() {
    let flow = ResetPasswordFlow::CheckExpiry {
        token: "rtok".to_string(),
        new_password: "longenough".to_string(),
        record: mail_token(4, 10),
    };
    let (_, e) = flow.step(Outcome::Clock(0));
    assert!(matches!(e, Effect::HashPassword(ref p) if p == "longenough"));
}

#[test]
fn current_user_answers_profile() {
    let (kinds, a) = drive(CurrentUserFlow::start(Some("Token jwt")), vec![
        Outcome::Secret(Some("k".to_string())),
        Outcome::Claims(Ok(UID.to_string())),
        Outcome::UserLookup(Ok(Some(user(42, UserRole::User)))),
        Outcome::Secret(Some("k".to_string())),
        Outcome::Jwt(Ok("fresh".to_string())),
    ]);
    assert_eq!(kinds, vec!["secret", "validate", "find-user-id", "secret", "sign", "respond"]);
    match a {
        Some(Ok(Reply::User(r))) => assert_eq!(r.user.token, "fresh"),
        _ => panic!("expected the profile"),
    }
}

#[test]
fn current_user_without_token_is_unauthorized() {
    let (_, a) = drive(CurrentUserFlow::start(None), vec![]);
    assert_eq!(status(&a), Some(401));
}

#[test]
fn delete_user_deletes_caller() {
    let (kinds, a) = drive(DeleteUserFlow::start(Some("Token jwt")), vec![
        Outcome::Secret(Some("k".to_string())),
        Outcome::Claims(Ok(UID.to_string())),
        Outcome::UserLookup(Ok(Some(user(42, UserRole::User)))),
        Outcome::Written(Ok(())),
    ]);
    assert_eq!(kinds, vec!["secret", "validate", "find-user-id", "delete-user", "respond"]);
    assert!(matches!(a, Some(Ok(Reply::Message(Notice::UserDeleted)))));
}

#[test]
fn admin_route() {
    let run = |role: UserRole| {
        drive(AdminFlow::start(Some("Token jwt")), vec![
            Outcome::Secret(Some("k".to_string())),
            Outcome::Claims(Ok(UID.to_string())),
            Outcome::UserLookup(Ok(Some(user(42, role)))),
        ])
        .1
    };
    assert!(matches!(run(UserRole::Admin), Some(Ok(Reply::Message(Notice::WelcomeAdmin)))));
    assert_eq!(status(&run(UserRole::User)), Some(403));
    let (_, a) = drive(AdminFlow::start(Some("Token jwt")), vec![Outcome::Secret(None)]);
    assert_eq!(status(&a), Some(401));
    assert_eq!(Notice::WelcomeAdmin.text(), "Welcome, admin!");
}

#[test]
fn login_refresh_store_failure_is_server_error() {
    let (kinds, a) = drive(LoginFlow::start(login_request("erin@example.com", "anything")), vec![
        Outcome::UserLookup(Ok(Some(user(3, UserRole::User)))),
        Outcome::Secret(Some("k".to_string())),
        Outcome::Jwt(Ok("access".to_string())),
        Outcome::Generated("refresh".to_string()),
        Outcome::RefreshCreated(Err(())),
    ]);
    assert_eq!(kinds, vec!["find-user-email", "secret", "sign", "draw-refresh-token", "create-refresh", "respond"]);
    assert_eq!(status(&a), Some(500));
}

#[test]
fn refresh_store_failure_after_mark_used_is_server_error() {
    let start = RefreshFlow::start(RefreshTokenRequest { refresh_token: "old".to_string() });
    let (kinds, a) = drive(start, vec![
        Outcome::RefreshLookup(Ok(Some(refresh_row(42, 1000, false)))),
        Outcome::Clock(5),
        Outcome::Written(Ok(())),
        Outcome::Generated("new".to_string()),
        Outcome::RefreshCreated(Err(())),
    ]);
    assert_eq!(kinds, vec!["find-refresh", "clock", "mark-used", "draw-refresh-token", "create-refresh", "respond"]);
    assert_eq!(status(&a), Some(500));
}

#[test]
fn register_token_store_failure_is_server_error() {
    let mut created = user(5, UserRole::User);
    created.username = "frank".to_string();
    let (kinds, a) = drive(RegisterFlow::start(register_request("frank", "f@example.com", "12345678")), vec![
        Outcome::UserLookup(Ok(None)),
        Outcome::UserLookup(Ok(None)),
        Outcome::Hashed(Ok("h".to_string())),
        Outcome::UserCreated(Ok(created)),
        Outcome::Generated("vtok".to_string()),
        Outcome::Clock(1_000),
        Outcome::Written(Err(())),
    ]);
    assert_eq!(kinds, vec![
        "find-user-email", "find-user-name", "hash", "create-user", "draw-mail-token", "clock",
        "create-verification", "respond",
    ]);
    assert_eq!(status(&a), Some(500));
}
