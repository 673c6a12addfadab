use vstd::prelude::*;
use crate::models::{MailToken, RefreshToken, User, UserRole};
use crate::schemas::{LoginResponse, RefreshTokenResponse, UserResponse};
use crate::status::HttpStatus;

verus! {

/// The fixed messages with which handlers confirm what they did.
#[derive(PartialEq, Eq, Structural, Clone, Copy, Debug)]
pub enum Notice {
    UserDeleted,
    EmailVerified,
    ResetLinkSent,
    PasswordReset,
    LoggedOut,
    WelcomeAdmin,
}

impl Notice {
    /// The text of the message.
    pub open spec fn spec_text(self) -> Seq<char> {
        match self {
            Notice::UserDeleted => "User deleted successfully!"@,
            Notice::EmailVerified => "Email verified successfully!"@,
            Notice::ResetLinkSent => "If that email exists, a password reset link has been sent."@,
            Notice::PasswordReset => "Password has been reset successfully. You can now login with your new password."@,
            Notice::LoggedOut => "Logged out successfully"@,
            Notice::WelcomeAdmin => "Welcome, admin!"@,
        }
    }

    /// The text of the message.
    pub fn text(&self) -> (t: String)
        ensures
            t@ == self.spec_text(),
    {
        match self {
            Notice::UserDeleted => String::from_str("User deleted successfully!"),
            Notice::EmailVerified => String::from_str("Email verified successfully!"),
            Notice::ResetLinkSent => String::from_str("If that email exists, a password reset link has been sent."),
            Notice::PasswordReset => String::from_str(
                "Password has been reset successfully. You can now login with your new password.",
            ),
            Notice::LoggedOut => String::from_str("Logged out successfully"),
            Notice::WelcomeAdmin => String::from_str("Welcome, admin!"),
        }
    }
}

/// A successful answer of a handler.
pub enum Reply {
    User(UserResponse),
    Login(LoginResponse),
    Tokens(RefreshTokenResponse),
    /// A JSON object `{"message": ...}`.
    Message(Notice),
}

/// What a handler is answered with: a body, or the status of a refusal.
pub type Answer = Result<Reply, HttpStatus>;

/// The work that a handler asks its runtime to do next.
///
/// Every handler is a state machine: it hands out an `Effect`, the runtime
/// performs it and hands back the matching `Outcome`, until the effect is
/// `Respond`.
pub enum Effect {
    /// Read the current time (microseconds since the epoch).
    ReadClock,
    /// Read the secret that signs access tokens.
    ReadJwtSecret,
    /// Sign an access token for a user.
    GenerateJwt { user_id: u128, secret: String },
    /// Check an access token and read its subject.
    ValidateJwt { token: String, secret: String },
    /// Hash a password for storage.
    HashPassword(String),
    /// Draw a fresh random token for a mailed link.
    GenerateVerificationToken,
    /// Draw a fresh random refresh token.
    GenerateRefreshToken,
    FindUserById(u128),
    FindUserByEmail(String),
    FindUserByUsername(String),
    CreateUser { username: String, email: String, password_hash: String, role: UserRole },
    DeleteUser(u128),
    UpdatePassword { user_id: u128, password_hash: String },
    VerifyUserEmail(u128),
    CreateVerificationToken { user_id: u128, token: String, expires_at: i64 },
    FindVerificationToken(String),
    DeleteVerificationToken(String),
    CreateResetToken { user_id: u128, token: String, expires_at: i64 },
    FindResetToken(String),
    DeleteResetToken(String),
    DeleteAllResetTokens(u128),
    CreateRefreshToken { user_id: u128, token: String },
    FindRefreshToken(String),
    DeleteRefreshToken(String),
    DeleteAllRefreshTokens(u128),
    MarkRefreshTokenUsed(String),
    SendVerificationEmail { to: String, username: String, token: String },
    SendPasswordResetEmail { to: String, username: String, token: String },
    SendSecurityAlert { to: String, username: String },
    /// Answer the request; the handler is finished.
    Respond(Answer),
}

/// What the runtime reports back after performing an `Effect`.
pub enum Outcome {
    Clock(i64),
    Secret(Option<String>),
    Jwt(Result<String, ()>),
    /// The subject of a valid access token.
    Claims(Result<String, ()>),
    Hashed(Result<String, ()>),
    Generated(String),
    UserLookup(Result<Option<User>, ()>),
    UserCreated(Result<User, ()>),
    /// A write to the database (insert, update or delete).
    Written(Result<(), ()>),
    MailTokenLookup(Result<Option<MailToken>, ()>),
    RefreshLookup(Result<Option<RefreshToken>, ()>),
    RefreshCreated(Result<RefreshToken, ()>),
    Sent(Result<(), ()>),
}

/// Whether `outcome` reports that a service the handler relies on failed:
/// the database, the password hasher, the token signer or the mailer.
pub open spec fn reports_failure(outcome: Outcome) -> bool {
    ||| outcome matches Outcome::Jwt(Err(_))
    ||| outcome matches Outcome::Hashed(Err(_))
    ||| outcome matches Outcome::UserLookup(Err(_))
    ||| outcome matches Outcome::UserCreated(Err(_))
    ||| outcome matches Outcome::Written(Err(_))
    ||| outcome matches Outcome::MailTokenLookup(Err(_))
    ||| outcome matches Outcome::RefreshLookup(Err(_))
    ||| outcome matches Outcome::RefreshCreated(Err(_))
    ||| outcome matches Outcome::Sent(Err(_))
}

/// A handler: a state machine that turns each outcome into its next effect.
pub trait Handler: Sized {
    /// The next state and effect after `outcome`.
    spec fn transition(self, outcome: Outcome) -> (Self, Effect);

    /// Advance the handler with the outcome of its last effect.
    fn step(self, outcome: Outcome) -> (r: (Self, Effect))
        ensures
            r == self.transition(outcome),
    ;
}

/// The final effect that refuses a request with `status`.
pub open spec fn refusal(status: HttpStatus) -> Effect {
    Effect::Respond(Err(status))
}

/// Refuse a request with `status`.
pub fn refuse(status: HttpStatus) -> (e: Effect)
    ensures
        e == refusal(status),
{
    Effect::Respond(Err(status))
}

} // verus!
