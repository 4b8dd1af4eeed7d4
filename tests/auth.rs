use monitor_backend::auth::{
    cadre_from_lower, check_signup_fields, classify_insert_error, decide_login,
    extract_bearer_token, login, me_outcome, prepare_user, signup_outcome, verify_request,
    verify_request_at, Cadre,
    CreateError, HttpStatus, SignupRequest, StoreError, User,
};
use monitor_backend::password::{hash_password, verify_password, PasswordError};
use monitor_backend::tokens::{issue_token_at, TokenConfig};

fn user_with_hash(username: &str, hash: &str) -> User {
    User {
        id: 7,
        username: username.to_string(),
        fullname: "Ada Nurse".to_string(),
        email: "ada@example.com".to_string(),
        cadre: "nurse".to_string(),
        password_hash: hash.to_string(),
        created_at: 1_700_000_000,
    }
}

fn config() -> TokenConfig {
    TokenConfig::with_default_validity(b"test secret".to_vec())
}

#[test]
fn cadre_parsing_ignores_case() {
    assert_eq!(Cadre::parse("Nurse"), Ok(Cadre::Nurse));
    assert_eq!(Cadre::parse("PHYSIOTHERAPIST"), Ok(Cadre::Physiotherapist));
    assert_eq!(Cadre::parse("caretaker"), Ok(Cadre::Caretaker));
    assert_eq!(Cadre::parse("surgeon"), Err("Unknown cadre: surgeon".to_string()));
    assert_eq!(cadre_from_lower("Physician"), None);
    assert_eq!(cadre_from_lower("physician"), Some(Cadre::Physician));
    assert_eq!(Cadre::Physician.as_str(), "physician");
}

#[test]
fn signup_policy() {
    let e = check_signup_fields("ab", "Secret123").unwrap_err();
    assert_eq!(e.status, HttpStatus::BadRequest);
    assert_eq!(e.error.error, "Username must be at least 3 characters");
    let e = check_signup_fields("newuser1", "Secr3t").unwrap_err();
    assert_eq!(e.error.error, "Password must be at least 8 characters");
    let e = check_signup_fields("newuser1", "secret123").unwrap_err();
    assert_eq!(e.error.error, "Password must contain at least one uppercase letter and one number");
    let e = check_signup_fields("newuser1", "SecretABC").unwrap_err();
    assert_eq!(e.error.error, "Password must contain at least one uppercase letter and one number");
    assert!(check_signup_fields("newuser1", "Secret123").is_ok());
}

#[test]
fn unknown_cadre_is_rejected_before_hashing() {
    let req = SignupRequest {
        fullname: "New User".to_string(),
        username: "newuser1".to_string(),
        email: "new@example.com".to_string(),
        cadre: "wizard".to_string(),
        password: "Secret123".to_string(),
    };
    match prepare_user(&req) {
        Err(CreateError::UnknownCadre(m)) => assert_eq!(m, "Unknown cadre: wizard"),
        other => panic!("unexpected {:?}", other),
    }
    let e = signup_outcome(Err(CreateError::UnknownCadre("Unknown cadre: wizard".to_string()))).unwrap_err();
    assert_eq!(e.status, HttpStatus::BadRequest);
}

#[test]
fn insert_errors_name_the_conflict() {
    assert!(matches!(
        classify_insert_error("duplicate key value violates unique constraint \"users_username_key\""),
        CreateError::UsernameTaken
    ));
    assert!(matches!(
        classify_insert_error("duplicate key value violates unique constraint \"users_email_key\""),
        CreateError::EmailTaken
    ));
    assert!(matches!(
        classify_insert_error("duplicate key value violates unique constraint \"users_pkey\""),
        CreateError::AccountExists
    ));
    assert!(matches!(classify_insert_error("connection reset"), CreateError::Internal));
    let e = signup_outcome(Err(CreateError::Internal)).unwrap_err();
    assert_eq!(e.status, HttpStatus::InternalServerError);
    assert_eq!(e.error.error, "Internal server error");
}

#[test]
fn signup_end_to_end() {
    let req = SignupRequest {
        fullname: "New User".to_string(),
        username: "newuser1".to_string(),
        email: "new@example.com".to_string(),
        cadre: "Nurse".to_string(),
        password: "Secret123".to_string(),
    };
    assert!(check_signup_fields(&req.username, &req.password).is_ok());
    let row = prepare_user(&req).unwrap();
    assert_eq!(row.username, "newuser1");
    assert_ne!(row.password_hash, "Secret123");
    let stored = User {
        id: 1,
        username: row.username.clone(),
        fullname: row.fullname.clone(),
        email: row.email.clone(),
        cadre: row.cadre.clone(),
        password_hash: row.password_hash.clone(),
        created_at: 0,
    };
    let info = signup_outcome(Ok(stored)).unwrap();
    assert_eq!(info.username, "newuser1");
    assert_eq!(info.email, "new@example.com");
    // the same username a second time: the store refuses the insert
    let second = classify_insert_error(
        "db error: ERROR: duplicate key value violates unique constraint \"users_username_key\"",
    );
    let e = signup_outcome(Err(second)).unwrap_err();
    assert_eq!(e.status, HttpStatus::BadRequest);
    assert_eq!(e.error.error, "Username already exists");
}

#[test]
fn password_round_trip() {
    let h = hash_password("Secret123").unwrap();
    assert!(h.starts_with("$2b$12$"));
    assert_eq!(h.chars().count(), 60);
    assert_ne!(hash_password("Secret123").unwrap(), h);
    assert_eq!(verify_password("Secret123", &h), Ok(true));
    assert_eq!(verify_password("Secret124", &h), Ok(false));
}

#[test]
fn malformed_hash_is_an_error() {
    assert_eq!(verify_password("x", "not a hash"), Err(PasswordError::MalformedHash));
}

#[test]
fn login_failures_look_alike() {
    let h = bcrypt::hash("Right123", 4).unwrap();
    let cfg = config();
    let unknown = login(&cfg, Ok(None), "Right123").unwrap_err();
    let wrong = login(&cfg, Ok(Some(user_with_hash("ada", &h))), "Wrong123").unwrap_err();
    assert_eq!(unknown.status, HttpStatus::Unauthorized);
    assert_eq!(unknown.status, wrong.status);
    assert_eq!(unknown.error.error, "Invalid username or password");
    assert_eq!(unknown.error.error, wrong.error.error);
    let store = login(&cfg, Err(StoreError::Failed), "Right123").unwrap_err();
    assert_eq!(store.status, HttpStatus::InternalServerError);
    assert_eq!(store.error.error, "Internal server error");
}

#[test]
fn login_success_returns_token_and_view() {
    let h = bcrypt::hash("Right123", 4).unwrap();
    let cfg = config();
    let ok = login(&cfg, Ok(Some(user_with_hash("ada", &h))), "Right123").unwrap();
    assert_eq!(ok.user.username, "ada");
    assert_eq!(ok.user.id, 7);
    let header = format!("Bearer {}", ok.token);
    let claims = verify_request(&cfg, Some(&header)).unwrap();
    assert_eq!(claims.username, "ada");
    assert_eq!(claims.cadre, "nurse");
    assert_eq!(claims.sub, "7");
}

#[test]
fn decide_login_cases() {
    let u = user_with_hash("ada", "h");
    assert!(decide_login(Some(u.clone()), Ok(true)).is_ok());
    let e = decide_login(Some(u.clone()), Ok(false)).unwrap_err();
    assert_eq!(e.error.error, "Invalid username or password");
    let e = decide_login(None, Ok(true)).unwrap_err();
    assert_eq!(e.error.error, "Invalid username or password");
    let e = decide_login(Some(u), Err(PasswordError::MalformedHash)).unwrap_err();
    assert_eq!(e.status, HttpStatus::InternalServerError);
}

#[test]
fn bearer_header_rules() {
    assert_eq!(extract_bearer_token(Some("Bearer abc")), Some("abc"));
    assert_eq!(extract_bearer_token(Some("Bearer ")), Some(""));
    assert_eq!(extract_bearer_token(Some("bearer abc")), None);
    assert_eq!(extract_bearer_token(Some("Bearer")), None);
    assert_eq!(extract_bearer_token(Some("Token abc")), None);
    assert_eq!(extract_bearer_token(None), None);
    let cfg = config();
    let missing = verify_request(&cfg, None).unwrap_err();
    let prefix = verify_request(&cfg, Some("Basic abc")).unwrap_err();
    let bad = verify_request(&cfg, Some("Bearer not.a.token")).unwrap_err();
    assert_eq!(missing.status, HttpStatus::Unauthorized);
    assert_eq!(missing.error.error, "Invalid or expired token");
    assert_eq!(prefix.error.error, missing.error.error);
    assert_eq!(bad.error.error, missing.error.error);
}

#[test]
fn who_am_i_outcomes() {
    let u = user_with_hash("ada", "secret-hash");
    let info = me_outcome(Ok(Some(u))).unwrap();
    assert_eq!(info.fullname, "Ada Nurse");
    let e = me_outcome(Ok(None)).unwrap_err();
    assert_eq!(e.status, HttpStatus::NotFound);
    assert_eq!(e.error.error, "User not found");
    assert_eq!(me_outcome(Err(StoreError::Failed)).unwrap_err().status.code(), 500);
}

#[test]
fn request_check_at_a_given_time() {
    let cfg = TokenConfig::new(b"k".to_vec(), 1);
    let t = issue_token_at(&cfg, &user_with_hash("ada", "h"), 1000).unwrap();
    let header = format!("Bearer {}", t);
    let c = verify_request_at(&cfg, Some(&header), 4599).unwrap();
    assert_eq!(c.username, "ada");
    assert_eq!(c.exp, 4600);
    let e = verify_request_at(&cfg, Some(&header), 4600).unwrap_err();
    assert_eq!(e.error.error, "Invalid or expired token");
}
