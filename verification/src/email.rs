use vstd::prelude::*;

verus! {

pub const VERIFICATION_BODY_0: &'static str = "\n            <!DOCTYPE html>\n            <html>\n            <head>\n                <style>\n                    body { font-family: Arial, sans-serif; line-height: 1.6; color: #333; }\n                    .container { max-width: 600px; margin: 0 auto; padding: 20px; }\n                    // ... more styles ...\n                </style>\n            </head>\n            <body>\n                <div class=\"container\">\n                    <div class=\"header\">\n                        <h1>Welcome to YourApp!</h1>\n                    </div>\n                    <div class=\"content\">\n                        <h2>Hi ";

pub const VERIFICATION_BODY_1: &'static str = "!</h2>\n                        <p>Thanks for signing up! We're excited to have you on board.</p>\n                        <p>Please verify your email address by clicking the button below:</p>\n                        <div style=\"text-align: center;\">\n                            <a href=\"";

pub const VERIFICATION_BODY_2: &'static str = "\" class=\"button\">Verify Email Address</a>\n                        </div>\n                        <p>Or copy and paste this link into your browser:</p>\n                        <p style=\"background-color: #eee; padding: 10px; word-break: break-all;\">";

pub const VERIFICATION_BODY_3: &'static str = "</p>\n                        <p><strong>This link will expire in 24 hours.</strong></p>\n                        <p>If you didn't create an account, please ignore this email.</p>\n                    </div>\n                    <div class=\"footer\">\n                        <p>© 2024 YourApp. All rights reserved.</p>\n                    </div>\n                </div>\n            </body>\n            </html>\n            ";

pub const RESET_BODY_0: &'static str = "\n            <!DOCTYPE html>\n            <html>\n            <head>\n                <style>\n                    body { font-family: Arial, sans-serif; line-height: 1.6; color: #333; }\n                    .container { max-width: 600px; margin: 0 auto; padding: 20px; }\n                    .header { background-color: #f8d7da; color: #721c24; padding: 20px; text-align: center; border-radius: 5px 5px 0 0; }\n                    .content { background-color: #fff; padding: 30px; border: 1px solid #ddd; }\n                    .button { display: inline-block; padding: 12px 24px; background-color: #dc3545; color: white; text-decoration: none; border-radius: 5px; margin: 20px 0; }\n                    .footer { text-align: center; margin-top: 20px; color: #666; font-size: 12px; }\n                    .warning { background-color: #fff3cd; border-left: 4px solid #ffc107; padding: 12px; margin: 20px 0; }\n                </style>\n            </head>\n            <body>\n                <div class=\"container\">\n                    <div class=\"header\">\n                        <h1>Password Reset Request</h1>\n                    </div>\n                    <div class=\"content\">\n                        <h2>Hi ";

pub const RESET_BODY_1: &'static str = "!</h2>\n                        <p>We received a request to reset your password. If you didn't make this request, you can safely ignore this email.</p>\n                        <p>To reset your password, click the button below:</p>\n                        <div style=\"text-align: center;\">\n                            <a href=\"";

pub const RESET_BODY_2: &'static str = "\" class=\"button\">Reset Password</a>\n                        </div>\n                        <p>Or copy and paste this link into your browser:</p>\n                        <p style=\"background-color: #eee; padding: 10px; word-break: break-all;\">";

pub const RESET_BODY_3: &'static str = "</p>\n                        <div class=\"warning\">\n                            <p><strong>⚠️ Security Notice:</strong></p>\n                            <ul>\n                                <li>This link will expire in 1 hour</li>\n                                <li>The link can only be used once</li>\n                                <li>If you didn't request this reset, someone may be trying to access your account</li>\n                            </ul>\n                        </div>\n                        <p>After clicking the link, you'll be able to create a new password for your account.</p>\n                    </div>\n                    <div class=\"footer\">\n                        <p>© 2024 AxumAPI. All rights reserved.</p>\n                        <p>If you have security concerns, please contact our support team immediately.</p>\n                    </div>\n                </div>\n            </body>\n            </html>\n            ";

pub const ALERT_BODY_0: &'static str = "\n            <!DOCTYPE html>\n            <html>\n            <head>\n                <style>\n                    body { font-family: Arial, sans-serif; line-height: 1.6; color: #333; }\n                    .container { max-width: 600px; margin: 0 auto; padding: 20px; }\n                    .header { background-color: #dc3545; color: white; padding: 20px; text-align: center; }\n                    .content { background-color: #f9f9f9; padding: 30px; border-radius: 5px; margin-top: 20px; }\n                    .alert-box { background-color: #fff3cd; border-left: 4px solid #ffc107; padding: 15px; margin: 20px 0; }\n                    .action-box { background-color: #d1ecf1; border-left: 4px solid #0c5460; padding: 15px; margin: 20px 0; }\n                    .footer { text-align: center; margin-top: 20px; color: #666; font-size: 12px; }\n                </style>\n            </head>\n            <body>\n                <div class=\"container\">\n                    <div class=\"header\">\n                        <h1>Security Alert</h1>\n                    </div>\n                    <div class=\"content\">\n                        <h2>Hi ";

pub const ALERT_BODY_1: &'static str = "!</h2>\n                        <p>We detected suspicious activity on your account.</p>\n\n                        <div class=\"alert-box\">\n                            <h3>What Happened?</h3>\n                            <p>Someone attempted to use an old access token that had already been exchanged for a new one.</p>\n                            <p>This usually means your token was stolen and someone else is trying to access your account.</p>\n                        </div>\n\n                        <div class=\"action-box\">\n                            <h3>What We Did</h3>\n                            <ul>\n                                <li>Blocked the suspicious request</li>\n                                <li>Logged you out of all devices</li>\n                                <li>Your account is now secure</li>\n                            </ul>\n                        </div>\n\n                        <h3>What You Should Do</h3>\n                        <ol>\n                            <li><strong>Login again</strong> with your password</li>\n                            <li><strong>Review recent activity</strong> on your account</li>\n                            <li><strong>Change your password</strong> if you suspect compromise</li>\n                            <li><strong>Enable 2FA</strong> if available (coming soon!)</li>\n                        </ol>\n\n                        <p><strong>When did this happen?</strong><br>\n                        Just now - we detected and blocked it immediately.</p>\n\n                        <p><strong>What if this wasn't you?</strong><br>\n                        This is expected behavior if you were logged in on multiple devices. However, if you weren't actively using the app, someone may have your token.</p>\n\n                        <p>If you have any questions or concerns, please contact our support team.</p>\n                    </div>\n                    <div class=\"footer\">\n                        <p>© 2024 AxumAPI. All rights reserved.</p>\n                        <p>This is an automated security alert. Please do not reply to this email.</p>\n                    </div>\n                </div>\n            </body>\n            </html>\n            ";

/// Where the links in mails point when no base URL is configured.
pub const DEFAULT_BASE_URL: &'static str = "http://localhost:3000";

pub const VERIFY_PATH: &'static str = "/api/auth/verify-email?token=";

pub const RESET_PATH: &'static str = "/api/auth/reset-password?token=";

pub const VERIFICATION_SUBJECT: &'static str = "Verify Your Email Address";

pub const RESET_SUBJECT: &'static str = "Reset Your Password";

pub const ALERT_SUBJECT: &'static str = "Security Alert: Suspicious Activity Detected";

/// A mail ready to be sent: recipient, subject and HTML body.
pub struct OutgoingMail {
    pub to: String,
    pub subject: String,
    pub html_body: String,
}

/// The base URL of the links in mails: the configured one, or the local
/// server.
pub open spec fn base_url_of(configured: Option<String>) -> Seq<char> {
    match configured {
        Some(url) => url@,
        None => DEFAULT_BASE_URL@,
    }
}

/// The base URL of the links in mails, given the configured one (if any).
pub fn base_url_or_default(configured: Option<String>) -> (url: String)
    ensures
        url@ == base_url_of(configured),
{
    match configured {
        Some(url) => url,
        None => String::from_str(DEFAULT_BASE_URL),
    }
}

/// The link that verifies an email address with `token`.
pub open spec fn verification_link_of(base_url: Seq<char>, token: Seq<char>) -> Seq<char> {
    base_url + VERIFY_PATH@ + token
}

/// The link that opens a password reset with `token`.
pub open spec fn reset_link_of(base_url: Seq<char>, token: Seq<char>) -> Seq<char> {
    base_url + RESET_PATH@ + token
}

/// The link that verifies an email address with `token`.
pub fn verification_link(base_url: &str, token: &str) -> (link: String)
    ensures
        link@ == verification_link_of(base_url@, token@),
{
    let mut link = String::from_str(base_url);
    link.append(VERIFY_PATH);
    link.append(token);
    link
}

/// The link that opens a password reset with `token`.
pub fn reset_link(base_url: &str, token: &str) -> (link: String)
    ensures
        link@ == reset_link_of(base_url@, token@),
{
    let mut link = String::from_str(base_url);
    link.append(RESET_PATH);
    link.append(token);
    link
}

/// A body in which `name` and then `link`, twice, fill the three gaps of a
/// template made of the four parts `p0` to `p3`.
pub open spec fn fill_template(p0: Seq<char>, p1: Seq<char>, p2: Seq<char>, p3: Seq<char>, name: Seq<char>, link: Seq<char>) -> Seq<char> {
    p0 + name + p1 + link + p2 + link + p3
}

/// The body of the mail that asks `username` to verify their address.
pub open spec fn verification_body_of(username: Seq<char>, link: Seq<char>) -> Seq<char> {
    fill_template(VERIFICATION_BODY_0@, VERIFICATION_BODY_1@, VERIFICATION_BODY_2@, VERIFICATION_BODY_3@, username, link)
}

/// The body of the mail that offers `username` a password reset.
pub open spec fn reset_body_of(username: Seq<char>, link: Seq<char>) -> Seq<char> {
    fill_template(RESET_BODY_0@, RESET_BODY_1@, RESET_BODY_2@, RESET_BODY_3@, username, link)
}

/// The body of the mail that alerts `username` to a reused refresh token.
pub open spec fn alert_body_of(username: Seq<char>) -> Seq<char> {
    ALERT_BODY_0@ + username + ALERT_BODY_1@
}

fn fill(p0: &str, p1: &str, p2: &str, p3: &str, name: &str, link: &str) -> (body: String)
    ensures
        body@ == fill_template(p0@, p1@, p2@, p3@, name@, link@),
{
    let mut body = String::from_str(p0);
    body.append(name);
    body.append(p1);
    body.append(link);
    body.append(p2);
    body.append(link);
    body.append(p3);
    body
}

/// The mail that asks `username`, at `to`, to verify their address with
/// `token`; its link starts with `base_url`.
pub fn verification_email(to: &str, username: &str, token: &str, base_url: &str) -> (mail: OutgoingMail)
    ensures
        mail.to@ == to@,
        mail.subject@ == VERIFICATION_SUBJECT@,
        mail.html_body@ == verification_body_of(username@, verification_link_of(base_url@, token@)),
{
    let link = verification_link(base_url, token);
    let html_body = fill(
        VERIFICATION_BODY_0, VERIFICATION_BODY_1, VERIFICATION_BODY_2, VERIFICATION_BODY_3,
        username, link.as_str(),
    );
    OutgoingMail { to: String::from_str(to), subject: String::from_str(VERIFICATION_SUBJECT), html_body }
}

/// The mail that offers `username`, at `to`, a password reset with `token`;
/// its link starts with `base_url`.
pub fn password_reset_email(to: &str, username: &str, token: &str, base_url: &str) -> (mail: OutgoingMail)
    ensures
        mail.to@ == to@,
        mail.subject@ == RESET_SUBJECT@,
        mail.html_body@ == reset_body_of(username@, reset_link_of(base_url@, token@)),
{
    let link = reset_link(base_url, token);
    let html_body = fill(RESET_BODY_0, RESET_BODY_1, RESET_BODY_2, RESET_BODY_3, username, link.as_str());
    OutgoingMail { to: String::from_str(to), subject: String::from_str(RESET_SUBJECT), html_body }
}

/// The mail that alerts `username`, at `to`, that a used refresh token was
/// presented and all their sessions were ended.
pub fn security_alert_email(to: &str, username: &str) -> (mail: OutgoingMail)
    ensures
        mail.to@ == to@,
        mail.subject@ == ALERT_SUBJECT@,
        mail.html_body@ == alert_body_of(username@),
{
    let mut html_body = String::from_str(ALERT_BODY_0);
    html_body.append(username);
    html_body.append(ALERT_BODY_1);
    OutgoingMail { to: String::from_str(to), subject: String::from_str(ALERT_SUBJECT), html_body }
}

} // verus!
