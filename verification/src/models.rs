use vstd::prelude::*;

verus! {

/// Role of an account; stored and serialized as `"user"` or `"admin"`.
#[derive(PartialEq, Eq, Structural, Clone, Copy, Debug)]
pub enum UserRole {
    User,
    Admin,
}

/// An account as stored in the `users` table.
///
/// Identifiers are UUIDs held as their 128-bit value; instants are
/// microseconds since the Unix epoch (UTC).
pub struct User {
    pub id: u128,
    pub username: String,
    pub email: String,
    pub password_hash: String,
    pub bio: Option<String>,
    pub image: Option<String>,
    pub email_verified: bool,
    pub role: UserRole,
    pub created_at: i64,
    pub updated_at: i64,
}

/// A row of the `refresh_tokens` table.
pub struct RefreshToken {
    pub id: u128,
    pub user_id: u128,
    pub token: String,
    pub expires_at: i64,
    pub created_at: i64,
    pub used_at: Option<i64>,
    pub is_used: bool,
}

/// A single-use token that proves control of a mailbox: an email
/// verification token or a password reset token.
pub struct MailToken {
    pub user_id: u128,
    pub token: String,
    pub expires_at: i64,
}

/// The instant `lifetime` after `now`, where it fits in the timestamp type.
pub open spec fn later_by(now: i64, lifetime: i64) -> Option<i64> {
    if now + lifetime <= i64::MAX && now + lifetime >= i64::MIN {
        Some((now + lifetime) as i64)
    } else {
        None
    }
}

/// The instant `lifetime` after `now`, where it fits in the timestamp type.
pub fn expiry_after(now: i64, lifetime: i64) -> (r: Option<i64>)
    ensures
        r == later_by(now, lifetime),
{
    now.checked_add(lifetime)
}

/// Lifetime of a refresh token: seven days, in microseconds.
pub const REFRESH_TOKEN_LIFETIME: i64 = 604_800_000_000;

/// How long an email verification link stays valid: 24 hours, in
/// microseconds.
pub const VERIFICATION_TOKEN_LIFETIME: i64 = 86_400_000_000;

/// How long a password reset link stays valid: one hour, in microseconds.
pub const RESET_TOKEN_LIFETIME: i64 = 3_600_000_000;

/// The expiry stored with a refresh token issued at `now`, or `None` where
/// that instant does not fit in the timestamp type.
pub fn refresh_token_expires_at(now: i64) -> (r: Option<i64>)
    ensures
        r == later_by(now, REFRESH_TOKEN_LIFETIME),
{
    expiry_after(now, REFRESH_TOKEN_LIFETIME)
}

/// Whether a token that expires at `expires_at` has expired at `now`.
pub open spec fn expired_at(expires_at: i64, now: i64) -> bool {
    now > expires_at
}

impl RefreshToken {
    /// Whether this token has expired at `now`.
    pub fn is_expired(&self, now: i64) -> (r: bool)
        ensures
            r == expired_at(self.expires_at, now),
    {
        now > self.expires_at
    }
}

impl MailToken {
    /// Whether this token has expired at `now`.
    pub fn is_expired(&self, now: i64) -> (r: bool)
        ensures
            r == expired_at(self.expires_at, now),
    {
        now > self.expires_at
    }
}

} // verus!
