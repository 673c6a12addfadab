use realworld_axum_api::schemas::{
    DeleteAccountRequest, ForgotPasswordRequest, LoginUserData, LogoutRequest, RefreshTokenRequest, RegisterUserData,
    ResetPasswordRequest, TerminateSessionRequest,
};
use realworld_axum_api::validation::ValidationIssue;

fn register(username: &str, email: &str, password: &str) -> RegisterUserData {
    RegisterUserData { username: username.to_string(), email: email.to_string(), password: password.to_string() }
}

#[test]
fn register_valid_body_passes() {
    assert!(register("alice", "alice@example.com", "correcthorse").validate().is_ok());
}

#[test]
fn register_username_bounds() {
    assert!(register("abc", "a@example.com", "12345678").validate().is_ok());
    assert_eq!(register("ab", "a@example.com", "12345678").validate(), Err(vec![ValidationIssue::UsernameLength]));
    let fifty = "x".repeat(50);
    let fifty_one = "x".repeat(51);
    assert!(register(&fifty, "a@example.com", "12345678").validate().is_ok());
    assert_eq!(register(&fifty_one, "a@example.com", "12345678").validate(), Err(vec![ValidationIssue::UsernameLength]));
}

#[test]
fn register_counts_characters_not_bytes() {
    // three characters, six bytes
    assert!(register("éüß", "a@example.com", "12345678").validate().is_ok());
}

#[test]
fn register_lists_every_broken_rule_in_field_order() {
    assert_eq!(
        register("a", "not-an-email", "short").validate(),
        Err(vec![ValidationIssue::UsernameLength, ValidationIssue::InvalidEmail, ValidationIssue::PasswordTooShort])
    );
}

#[test]
fn register_password_minimum() {
    assert!(register("alice", "a@example.com", "1234567").validate().is_err());
    assert!(register("alice", "a@example.com", "12345678").validate().is_ok());
}

#[test]
fn login_rules() {
    let ok = LoginUserData { email: "bob@example.com".to_string(), password: "x".to_string() };
    assert!(ok.validate().is_ok());
    let empty = LoginUserData { email: "bob@example.com".to_string(), password: String::new() };
    assert_eq!(empty.validate(), Err(vec![ValidationIssue::PasswordRequired]));
    let bad = LoginUserData { email: "bob".to_string(), password: String::new() };
    assert_eq!(bad.validate(), Err(vec![ValidationIssue::InvalidEmail, ValidationIssue::PasswordRequired]));
}

#[test]
fn token_bodies_must_not_be_empty() {
    assert!(RefreshTokenRequest { refresh_token: "t".to_string() }.validate().is_ok());
    assert_eq!(
        RefreshTokenRequest { refresh_token: String::new() }.validate(),
        Err(vec![ValidationIssue::RefreshTokenRequired])
    );
    assert_eq!(LogoutRequest { refresh_token: String::new() }.validate(), Err(vec![ValidationIssue::RefreshTokenRequired]));
    assert_eq!(
        TerminateSessionRequest { session_id: String::new() }.validate(),
        Err(vec![ValidationIssue::SessionIdRequired])
    );
    assert_eq!(DeleteAccountRequest { password: String::new() }.validate(), Err(vec![ValidationIssue::PasswordRequired]));
    assert!(DeleteAccountRequest { password: "pw".to_string() }.validate().is_ok());
}

#[test]
fn password_reset_bodies() {
    assert!(ForgotPasswordRequest { email: "carol@example.org".to_string() }.validate().is_ok());
    assert_eq!(ForgotPasswordRequest { email: "@".to_string() }.validate(), Err(vec![ValidationIssue::InvalidEmail]));
    let short = ResetPasswordRequest { token: "t".to_string(), new_password: "1234".to_string() };
    assert_eq!(short.validate(), Err(vec![ValidationIssue::PasswordTooShort]));
}

#[test]
fn issue_messages_and_fields() {
    assert_eq!(ValidationIssue::UsernameLength.message(), "Username must be between 3 and 50 characters");
    assert_eq!(ValidationIssue::InvalidEmail.message(), "Invalid email format");
    assert_eq!(ValidationIssue::PasswordTooShort.message(), "Password must be at least 8 characters");
    assert_eq!(ValidationIssue::PasswordRequired.message(), "Password is required");
    assert_eq!(ValidationIssue::RefreshTokenRequired.message(), "Refresh token is required");
    assert_eq!(ValidationIssue::SessionIdRequired.message(), "Session ID is required");
    assert_eq!(ValidationIssue::UsernameLength.field(), "username");
    assert_eq!(ValidationIssue::SessionIdRequired.field(), "session_id");
}
