use monitor_backend::auth::User;
use monitor_backend::tokens::{
    accept_claims, build_claims, generate_token, get_jwt_secret, issue_token_at, verify_token,
    verify_token_at, Claims, TokenConfig, TokenError,
};

fn sample_user() -> User {
    User {
        id: -12,
        username: "physio_7".to_string(),
        fullname: "P. Seven".to_string(),
        email: "p7@example.com".to_string(),
        cadre: "physiotherapist".to_string(),
        password_hash: String::new(),
        created_at: 0,
    }
}

fn now() -> u64 {
    std::time::SystemTime::now().duration_since(std::time::UNIX_EPOCH).unwrap().as_secs()
}

#[test]
fn claims_are_built_from_the_user() {
    let c = build_claims(&sample_user(), 1000, 24);
    assert_eq!(c.sub, "-12");
    assert_eq!(c.username, "physio_7");
    assert_eq!(c.cadre, "physiotherapist");
    assert_eq!(c.iat, 1000);
    assert_eq!(c.exp, 1000 + 24 * 3600);
}

#[test]
fn issued_token_verifies_with_same_claims() {
    let cfg = TokenConfig::with_default_validity(b"one secret".to_vec());
    let t = generate_token(&cfg, &sample_user()).unwrap();
    let c = verify_token(&cfg, &t).unwrap();
    assert_eq!(c.username, "physio_7");
    assert_eq!(c.cadre, "physiotherapist");
    assert_eq!(c.sub, "-12");
    assert_eq!(c.exp, c.iat + 24 * 3600);
}

#[test]
fn expired_token_is_rejected() {
    let cfg = TokenConfig::new(b"one secret".to_vec(), 1);
    let t = issue_token_at(&cfg, &sample_user(), now() - 3601).unwrap();
    // exp = now - 1: inside the decoder's leeway, still rejected
    assert_eq!(verify_token(&cfg, &t).unwrap_err(), TokenError::Invalid);
    let t = issue_token_at(&cfg, &sample_user(), now()).unwrap();
    assert!(verify_token_at(&cfg, &t, now()).is_ok());
    assert_eq!(verify_token_at(&cfg, &t, now() + 3600).unwrap_err(), TokenError::Invalid);
}

#[test]
fn token_of_another_secret_is_rejected() {
    let a = TokenConfig::with_default_validity(b"secret a".to_vec());
    let b = TokenConfig::with_default_validity(b"secret b".to_vec());
    let t = generate_token(&a, &sample_user()).unwrap();
    assert_eq!(verify_token(&b, &t).unwrap_err(), TokenError::Invalid);
    let mut tampered = t.clone();
    tampered.push('x');
    assert_eq!(verify_token(&a, &tampered).unwrap_err(), TokenError::Invalid);
}

#[test]
fn expiry_check_is_strict() {
    let c = Claims {
        sub: "1".to_string(),
        username: "u".to_string(),
        cadre: "nurse".to_string(),
        exp: 100,
        iat: 50,
    };
    assert!(accept_claims(c.clone(), 99).is_ok());
    assert_eq!(accept_claims(c.clone(), 100).unwrap_err(), TokenError::Invalid);
    assert_eq!(accept_claims(c, 101).unwrap_err(), TokenError::Invalid);
}

#[test]
fn clock_overflow_is_reported() {
    let cfg = TokenConfig::with_default_validity(b"s".to_vec());
    assert_eq!(issue_token_at(&cfg, &sample_user(), u64::MAX).unwrap_err(), TokenError::ClockOutOfRange);
    assert_eq!(get_jwt_secret(&cfg), b"s");
}
