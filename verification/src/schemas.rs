use vstd::prelude::*;
use crate::models::{User, UserRole};
use crate::validation::{
    check_email, check_length, conclude, email_is_valid, issue_if, note_issue, verdict, verdict_view,
    ValidationIssue,
};

verus! {

/// Body of `POST /api/users`.
pub struct RegisterUserRequest {
    pub user: RegisterUserData,
}

/// The account that a registration asks for.
pub struct RegisterUserData {
    pub username: String,
    pub email: String,
    pub password: String,
}

/// Body of `POST /api/users/login`.
pub struct LoginUserRequest {
    pub user: LoginUserData,
}

/// Credentials of a login.
pub struct LoginUserData {
    pub email: String,
    pub password: String,
}

/// Answer to a successful login: the profile and both tokens.
pub struct LoginResponse {
    pub user: UserData,
    pub access_token: String,
    pub refresh_token: String,
}

/// Answer that carries one profile.
pub struct UserResponse {
    pub user: UserData,
}

/// The profile shown to its owner, with a fresh access token.
pub struct UserData {
    pub email: String,
    pub token: String,
    pub username: String,
    pub bio: Option<String>,
    pub image: Option<String>,
    pub email_verified: bool,
    pub role: UserRole,
}

/// The profile of `user` together with `token`.
pub open spec fn user_data_of(user: User, token: String) -> UserData {
    UserData {
        email: user.email,
        token: token,
        username: user.username,
        bio: user.bio,
        image: user.image,
        email_verified: user.email_verified,
        role: user.role,
    }
}

impl UserData {
    /// The profile of `user`, carrying `token` as its access token.
    pub fn from_user_with_token(user: User, token: String) -> (r: UserData)
        ensures
            r == user_data_of(user, token),
    {
        UserData {
            email: user.email,
            token,
            username: user.username,
            bio: user.bio,
            image: user.image,
            email_verified: user.email_verified,
            role: user.role,
        }
    }
}

/// Body of `POST /api/auth/refresh-token`.
pub struct RefreshTokenRequest {
    pub refresh_token: String,
}

/// Answer to a refresh: a new access token and the rotated refresh token.
pub struct RefreshTokenResponse {
    pub access_token: String,
    pub refresh_token: String,
}

/// Body of `POST /api/auth/logout`.
pub struct LogoutRequest {
    pub refresh_token: String,
}

/// Answer to a logout.
pub struct LogoutResponse {
    pub message: String,
}

/// One active session, as listed to its owner.
pub struct SessionResponse {
    pub id: u128,
    pub created_at: i64,
    pub expires_at: i64,
    pub is_used: bool,
}

/// The sessions of an account.
pub struct SessionsListResponse {
    pub sessions: Vec<SessionResponse>,
}

/// Body of a request that ends one session.
pub struct TerminateSessionRequest {
    pub session_id: String,
}

/// Answer to the end of a session.
pub struct TerminateSessionResponse {
    pub message: String,
}

/// Body of a request that deletes the caller's account.
pub struct DeleteAccountRequest {
    pub password: String,
}

/// Answer to the deletion of an account.
pub struct DeleteAccountResponse {
    pub message: String,
}

/// A copy of all the data kept about the caller's account.
pub struct UserDataExportResponse {
    /// The account's data, as JSON text.
    pub user: String,
    /// When the copy was made, in microseconds since the epoch.
    pub export_date: i64,
}

/// Body of `POST /api/auth/forgot-password`.
pub struct ForgotPasswordRequest {
    pub email: String,
}

/// Answer to a request for a password reset link.
pub struct ForgotPasswordResponse {
    pub message: String,
}

/// Body of `POST /api/auth/reset-password`.
pub struct ResetPasswordRequest {
    pub token: String,
    pub new_password: String,
}

/// Answer to a password reset.
pub struct ResetPasswordResponse {
    pub message: String,
}

/// Whether `text` has between `min` and `max` characters.
pub open spec fn chars_between(text: Seq<char>, min: int, max: int) -> bool {
    min <= text.len() && text.len() <= max
}

/// The rules of a registration that `d` breaks, in field order: a username
/// of 3 to 50 characters, a valid email, a password of at least 8
/// characters.
pub open spec fn register_issues(d: RegisterUserData) -> Seq<ValidationIssue> {
    issue_if(!chars_between(d.username@, 3, 50), ValidationIssue::UsernameLength)
        + issue_if(!email_is_valid(d.email@), ValidationIssue::InvalidEmail)
        + issue_if(d.password@.len() < 8, ValidationIssue::PasswordTooShort)
}

/// The rules of a login that `d` breaks: a valid email, a password that is
/// not empty.
pub open spec fn login_issues(d: LoginUserData) -> Seq<ValidationIssue> {
    issue_if(!email_is_valid(d.email@), ValidationIssue::InvalidEmail)
        + issue_if(d.password@.len() < 1, ValidationIssue::PasswordRequired)
}

/// The rule of a refresh or logout body: the refresh token is not empty.
pub open spec fn refresh_token_issues(token: Seq<char>) -> Seq<ValidationIssue> {
    issue_if(token.len() < 1, ValidationIssue::RefreshTokenRequired)
}

/// The rule of a reset link request: a valid email.
pub open spec fn forgot_password_issues(d: ForgotPasswordRequest) -> Seq<ValidationIssue> {
    issue_if(!email_is_valid(d.email@), ValidationIssue::InvalidEmail)
}

/// The rule of a password reset: a new password of at least 8 characters.
pub open spec fn reset_password_issues(d: ResetPasswordRequest) -> Seq<ValidationIssue> {
    issue_if(d.new_password@.len() < 8, ValidationIssue::PasswordTooShort)
}

impl RegisterUserData {
    /// Check the registration rules; the error lists every broken rule.
    pub fn validate(&self) -> (r: Result<(), Vec<ValidationIssue>>)
        ensures
            verdict_view(r) == verdict(register_issues(*self)),
    {
        let mut issues: Vec<ValidationIssue> = Vec::new();
        note_issue(&mut issues, !check_length(self.username.as_str(), 3, Some(50)), ValidationIssue::UsernameLength);
        note_issue(&mut issues, !check_email(self.email.as_str()), ValidationIssue::InvalidEmail);
        note_issue(&mut issues, !check_length(self.password.as_str(), 8, None), ValidationIssue::PasswordTooShort);
        assert(issues@ =~= register_issues(*self));
        conclude(issues)
    }
}

impl LoginUserData {
    /// Check the login rules; the error lists every broken rule.
    pub fn validate(&self) -> (r: Result<(), Vec<ValidationIssue>>)
        ensures
            verdict_view(r) == verdict(login_issues(*self)),
    {
        let mut issues: Vec<ValidationIssue> = Vec::new();
        note_issue(&mut issues, !check_email(self.email.as_str()), ValidationIssue::InvalidEmail);
        note_issue(&mut issues, !check_length(self.password.as_str(), 1, None), ValidationIssue::PasswordRequired);
        assert(issues@ =~= login_issues(*self));
        conclude(issues)
    }
}

impl RefreshTokenRequest {
    /// Check that the refresh token is not empty.
    pub fn validate(&self) -> (r: Result<(), Vec<ValidationIssue>>)
        ensures
            verdict_view(r) == verdict(refresh_token_issues(self.refresh_token@)),
    {
        let mut issues: Vec<ValidationIssue> = Vec::new();
        note_issue(&mut issues, !check_length(self.refresh_token.as_str(), 1, None), ValidationIssue::RefreshTokenRequired);
        assert(issues@ =~= refresh_token_issues(self.refresh_token@));
        conclude(issues)
    }
}

impl LogoutRequest {
    /// Check that the refresh token is not empty.
    pub fn validate(&self) -> (r: Result<(), Vec<ValidationIssue>>)
        ensures
            verdict_view(r) == verdict(refresh_token_issues(self.refresh_token@)),
    {
        let mut issues: Vec<ValidationIssue> = Vec::new();
        note_issue(&mut issues, !check_length(self.refresh_token.as_str(), 1, None), ValidationIssue::RefreshTokenRequired);
        assert(issues@ =~= refresh_token_issues(self.refresh_token@));
        conclude(issues)
    }
}

impl TerminateSessionRequest {
    /// Check that the session identifier is not empty.
    pub fn validate(&self) -> (r: Result<(), Vec<ValidationIssue>>)
        ensures
            verdict_view(r) == verdict(issue_if(self.session_id@.len() < 1, ValidationIssue::SessionIdRequired)),
    {
        let mut issues: Vec<ValidationIssue> = Vec::new();
        note_issue(&mut issues, !check_length(self.session_id.as_str(), 1, None), ValidationIssue::SessionIdRequired);
        assert(issues@ =~= issue_if(self.session_id@.len() < 1, ValidationIssue::SessionIdRequired));
        conclude(issues)
    }
}

impl DeleteAccountRequest {
    /// Check that the password is not empty.
    pub fn validate(&self) -> (r: Result<(), Vec<ValidationIssue>>)
        ensures
            verdict_view(r) == verdict(issue_if(self.password@.len() < 1, ValidationIssue::PasswordRequired)),
    {
        let mut issues: Vec<ValidationIssue> = Vec::new();
        note_issue(&mut issues, !check_length(self.password.as_str(), 1, None), ValidationIssue::PasswordRequired);
        assert(issues@ =~= issue_if(self.password@.len() < 1, ValidationIssue::PasswordRequired));
        conclude(issues)
    }
}

impl ForgotPasswordRequest {
    /// Check that the email is valid.
    pub fn validate(&self) -> (r: Result<(), Vec<ValidationIssue>>)
        ensures
            verdict_view(r) == verdict(forgot_password_issues(*self)),
    {
        let mut issues: Vec<ValidationIssue> = Vec::new();
        note_issue(&mut issues, !check_email(self.email.as_str()), ValidationIssue::InvalidEmail);
        assert(issues@ =~= forgot_password_issues(*self));
        conclude(issues)
    }
}

impl ResetPasswordRequest {
    /// Check that the new password has at least 8 characters.
    pub fn validate(&self) -> (r: Result<(), Vec<ValidationIssue>>)
        ensures
            verdict_view(r) == verdict(reset_password_issues(*self)),
    {
        let mut issues: Vec<ValidationIssue> = Vec::new();
        note_issue(&mut issues, !check_length(self.new_password.as_str(), 8, None), ValidationIssue::PasswordTooShort);
        assert(issues@ =~= reset_password_issues(*self));
        conclude(issues)
    }
}

} // verus!
