use vstd::prelude::*;

verus! {

/// Whether `text` is an email address as the `validator` crate judges it
/// (the HTML5 form of an address, with an internationalized domain allowed).
pub uninterp spec fn email_is_valid(text: Seq<char>) -> bool;

/// Whether `text` is an email address.
///
/// Calls `validator::ValidateEmail::validate_email`. Its result is named by
/// `email_is_valid`; the crate's source also shows that an address without
/// `@` is refused.
#[verifier::external_body]
pub(crate) fn check_email(text: &str) -> (r: bool)
    ensures
        r == email_is_valid(text@),
        r ==> text@.contains('@'),
{
    validator::ValidateEmail::validate_email(&text)
}

/// Whether `text` has at least `min` characters and, where `max` is given,
/// at most `max`.
///
/// Calls `validator::ValidateLength::validate_length`, which counts the
/// characters (Unicode scalar values) of a string.
#[verifier::external_body]
pub(crate) fn check_length(text: &str, min: u64, max: Option<u64>) -> (r: bool)
    ensures
        r == (min <= text@.len() && (max matches Some(m) ==> text@.len() <= m)),
{
    validator::ValidateLength::validate_length(text, Some(min), max, None)
}

/// A rule of a request body that the body breaks.
#[derive(PartialEq, Eq, Structural, Clone, Copy, Debug)]
pub enum ValidationIssue {
    UsernameLength,
    InvalidEmail,
    PasswordTooShort,
    PasswordRequired,
    RefreshTokenRequired,
    SessionIdRequired,
}

impl ValidationIssue {
    /// The message shown for the issue.
    pub open spec fn spec_message(self) -> Seq<char> {
        match self {
            ValidationIssue::UsernameLength => "Username must be between 3 and 50 characters"@,
            ValidationIssue::InvalidEmail => "Invalid email format"@,
            ValidationIssue::PasswordTooShort => "Password must be at least 8 characters"@,
            ValidationIssue::PasswordRequired => "Password is required"@,
            ValidationIssue::RefreshTokenRequired => "Refresh token is required"@,
            ValidationIssue::SessionIdRequired => "Session ID is required"@,
        }
    }

    /// The message shown for the issue.
    pub fn message(&self) -> (m: String)
        ensures
            m@ == self.spec_message(),
    {
        match self {
            ValidationIssue::UsernameLength => String::from_str("Username must be between 3 and 50 characters"),
            ValidationIssue::InvalidEmail => String::from_str("Invalid email format"),
            ValidationIssue::PasswordTooShort => String::from_str("Password must be at least 8 characters"),
            ValidationIssue::PasswordRequired => String::from_str("Password is required"),
            ValidationIssue::RefreshTokenRequired => String::from_str("Refresh token is required"),
            ValidationIssue::SessionIdRequired => String::from_str("Session ID is required"),
        }
    }

    /// The field of the request body that the issue is about.
    pub open spec fn spec_field(self) -> Seq<char> {
        match self {
            ValidationIssue::UsernameLength => "username"@,
            ValidationIssue::InvalidEmail => "email"@,
            ValidationIssue::PasswordTooShort => "password"@,
            ValidationIssue::PasswordRequired => "password"@,
            ValidationIssue::RefreshTokenRequired => "refresh_token"@,
            ValidationIssue::SessionIdRequired => "session_id"@,
        }
    }

    /// The field of the request body that the issue is about.
    pub fn field(&self) -> (f: String)
        ensures
            f@ == self.spec_field(),
    {
        match self {
            ValidationIssue::UsernameLength => String::from_str("username"),
            ValidationIssue::InvalidEmail => String::from_str("email"),
            ValidationIssue::PasswordTooShort => String::from_str("password"),
            ValidationIssue::PasswordRequired => String::from_str("password"),
            ValidationIssue::RefreshTokenRequired => String::from_str("refresh_token"),
            ValidationIssue::SessionIdRequired => String::from_str("session_id"),
        }
    }
}

/// `[issue]` where `broken`, else nothing.
pub open spec fn issue_if(broken: bool, issue: ValidationIssue) -> Seq<ValidationIssue> {
    if broken { seq![issue] } else { Seq::empty() }
}

/// The outcome of validating a body whose broken rules are `issues`.
pub open spec fn verdict(issues: Seq<ValidationIssue>) -> Result<(), Seq<ValidationIssue>> {
    if issues.len() == 0 { Ok(()) } else { Err(issues) }
}

/// The view of a validation result.
pub open spec fn verdict_view(r: Result<(), Vec<ValidationIssue>>) -> Result<(), Seq<ValidationIssue>> {
    match r {
        Ok(()) => Ok(()),
        Err(v) => Err(v@),
    }
}

/// Append `issue` to `issues` where `broken`.
pub(crate) fn note_issue(issues: &mut Vec<ValidationIssue>, broken: bool, issue: ValidationIssue)
    ensures
        final(issues)@ == old(issues)@ + issue_if(broken, issue),
{
    if broken {
        issues.push(issue);
        assert(final(issues)@ =~= old(issues)@ + issue_if(broken, issue));
    } else {
        assert(old(issues)@ + issue_if(broken, issue) =~= old(issues)@);
    }
}

/// The validation result for the collected `issues`.
pub(crate) fn conclude(issues: Vec<ValidationIssue>) -> (r: Result<(), Vec<ValidationIssue>>)
    ensures
        verdict_view(r) == verdict(issues@),
{
    if issues.len() == 0 {
        Ok(())
    } else {
        Err(issues)
    }
}

} // verus!
