use realworld_axum_api::email::{
    base_url_or_default, password_reset_email, reset_link, security_alert_email, verification_email, verification_link,
};
use realworld_axum_api::models::{User, UserRole};
use realworld_axum_api::rate_limit::{client_key, ForwardedFor, RateDecision, RateLimiter, MAX_REQUESTS, WINDOW};
use realworld_axum_api::schemas::UserData;
use realworld_axum_api::token::{generate_refresh_token, generate_verification_token};

fn is_random_uuid_text(s: &str) -> bool {
    let b = s.as_bytes();
    b.len() == 32
        && b.iter().all(|c| c.is_ascii_digit() || (b'a'..=b'f').contains(c))
        && b[12] == b'4'
        && matches!(b[16], b'8' | b'9' | b'a' | b'b')
}

#[test]
fn generated_tokens_are_random_simple_uuids() {
    let a = generate_verification_token();
    let b = generate_refresh_token();
    assert!(is_random_uuid_text(&a), "{a}");
    assert!(is_random_uuid_text(&b), "{b}");
    assert_ne!(a, b);
}

#[test]
fn profile_copies_user_fields() {
    let user = User {
        id: 1,
        username: "hank".to_string(),
        email: "h@example.com".to_string(),
        password_hash: "secret-hash".to_string(),
        bio: Some("bio".to_string()),
        image: Some("img.png".to_string()),
        email_verified: true,
        role: UserRole::Admin,
        created_at: 3,
        updated_at: 4,
    };
    let d = UserData::from_user_with_token(user, "tok".to_string());
    assert_eq!(d.email, "h@example.com");
    assert_eq!(d.token, "tok");
    assert_eq!(d.username, "hank");
    assert_eq!(d.bio, Some("bio".to_string()));
    assert_eq!(d.image, Some("img.png".to_string()));
    assert!(d.email_verified);
    assert_eq!(d.role, UserRole::Admin);
}

#[test]
fn rate_limiter_admits_ten_per_window() {
    let mut limiter = RateLimiter::new();
    for i in 0..MAX_REQUESTS as u64 {
        assert!(matches!(limiter.check("1.2.3.4", i), RateDecision::Allow));
    }
    assert!(matches!(limiter.check("1.2.3.4", 20), RateDecision::Reject));
    // another client is counted apart
    assert!(matches!(limiter.check("5.6.7.8", 20), RateDecision::Allow));
    // a refused request is not recorded: once the first request leaves the
    // window, one more is admitted
    assert!(matches!(limiter.check("1.2.3.4", WINDOW), RateDecision::Allow));
    assert!(matches!(limiter.check("1.2.3.4", WINDOW), RateDecision::Reject));
}

#[test]
fn rate_limiter_forgets_old_requests() {
    let mut limiter = RateLimiter::new();
    for _ in 0..MAX_REQUESTS {
        assert!(matches!(limiter.check("k", 0), RateDecision::Allow));
    }
    assert!(matches!(limiter.check("k", WINDOW - 1), RateDecision::Reject));
    for _ in 0..MAX_REQUESTS {
        assert!(matches!(limiter.check("k", WINDOW), RateDecision::Allow));
    }
    assert!(matches!(limiter.check("k", WINDOW), RateDecision::Reject));
}

#[test]
fn client_keys() {
    assert_eq!(client_key(ForwardedFor::Text("9.9.9.9".to_string()), Some("1.1.1.1".to_string())), "9.9.9.9");
    assert_eq!(client_key(ForwardedFor::Unreadable, Some("1.1.1.1".to_string())), "unknown");
    assert_eq!(client_key(ForwardedFor::Absent, Some("1.1.1.1".to_string())), "1.1.1.1");
    assert_eq!(client_key(ForwardedFor::Absent, None), "unknown");
}

#[test]
fn links_and_base_url() {
    assert_eq!(base_url_or_default(None), "http://localhost:3000");
    assert_eq!(base_url_or_default(Some("https://x.io".to_string())), "https://x.io");
    assert_eq!(verification_link("https://x.io", "t1"), "https://x.io/api/auth/verify-email?token=t1");
    assert_eq!(reset_link("https://x.io", "t2"), "https://x.io/api/auth/reset-password?token=t2");
}

#[test]
fn verification_mail() {
    let m = verification_email("i@example.com", "ivy", "tok", "https://x.io");
    assert_eq!(m.to, "i@example.com");
    assert_eq!(m.subject, "Verify Your Email Address");
    assert!(m.html_body.contains("<h2>Hi ivy!</h2>"));
    assert_eq!(m.html_body.matches("https://x.io/api/auth/verify-email?token=tok").count(), 2);
    assert!(m.html_body.contains("This link will expire in 24 hours."));
    assert!(m.html_body.contains("body { font-family: Arial, sans-serif;"));
}

#[test]
fn reset_mail() {
    let m = password_reset_email("i@example.com", "ivy", "tok", "http://localhost:3000");
    assert_eq!(m.subject, "Reset Your Password");
    assert_eq!(m.html_body.matches("http://localhost:3000/api/auth/reset-password?token=tok").count(), 2);
    assert!(m.html_body.contains("This link will expire in 1 hour"));
    assert!(m.html_body.contains("⚠️ Security Notice:"));
}

#[test]
fn alert_mail() {
    let m = security_alert_email("i@example.com", "ivy");
    assert_eq!(m.subject, "Security Alert: Suspicious Activity Detected");
    assert!(m.html_body.contains("<h2>Hi ivy!</h2>"));
    assert!(m.html_body.contains("Logged you out of all devices"));
}
