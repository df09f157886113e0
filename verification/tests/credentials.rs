use player_sync::config::Config;
use player_sync::credentials::{
    bearer_token, grant, hash_password, login, stored_hash, verify_password, LoginError,
    RegisterRequest, User,
};

const PASSWORD_HASH: &str = "$2a$04$UuTkLRZZ6QofpDOlMz32MuuxEHA43WOemOYHPz6.SjsVsyO1tDU96";

fn alice() -> User {
    User { id: 42, login: "alice".to_string(), hashed_password: PASSWORD_HASH.to_string() }
}

#[test]
fn right_password_verifies() {
    assert!(verify_password("password", PASSWORD_HASH));
    assert!(verify_password(
        "correctbatteryhorsestapler",
        "$2b$04$EGdrhbKUv8Oc9vGiXX0HQOxSg445d458Muh7DAHskb6QbtCvdxcie"
    ));
}

#[test]
fn wrong_password_does_not_verify() {
    assert!(!verify_password("wrong", PASSWORD_HASH));
    assert!(!verify_password("", PASSWORD_HASH));
    assert!(!verify_password("Password", PASSWORD_HASH));
}

#[test]
fn broken_hash_does_not_verify() {
    assert!(!verify_password("password", ""));
    assert!(!verify_password("password", "password"));
    assert!(!verify_password(
        "correctbatteryhorsestapler",
        "$2a$ab$n4Uy0eSnMfvnESYL.bLwuuj0U/ETSsoTpRT9GVk$5bektyVVa5xnIi"
    ));
    assert!(!verify_password(PASSWORD_HASH, PASSWORD_HASH));
}

#[test]
fn fresh_hash_is_not_the_password_and_verifies() {
    let hashed = hash_password("hunter2").unwrap();
    assert_ne!(hashed, "hunter2");
    assert_eq!(hashed.len(), 60);
    assert!(hashed.starts_with("$2b$12$"));
    assert!(verify_password("hunter2", &hashed));
}

#[test]
fn grant_follows_the_verdict() {
    let granted = grant(&alice(), true, 1_700_000_000).unwrap();
    assert_eq!(granted.sub, "42");
    assert_eq!(granted.exp, 1_700_086_400);
    assert_eq!(grant(&alice(), false, 1_700_000_000), Err(LoginError::InvalidCredentials));
    assert_eq!(grant(&alice(), true, -86_401), Err(LoginError::TokenFailure));
    assert_eq!(grant(&alice(), false, -86_401), Err(LoginError::InvalidCredentials));
}

#[test]
fn login_with_the_right_password_is_granted() {
    let request = RegisterRequest { login: "alice".to_string(), password: "password".to_string() };
    let claims = login(&request, &alice(), 1_000).unwrap();
    assert_eq!(claims.sub, "42");
    assert_eq!(claims.exp, 87_400);
    assert_eq!(claims.user_id(), Some(42));
}

#[test]
fn login_with_the_wrong_password_is_refused() {
    let request = RegisterRequest { login: "alice".to_string(), password: "guess".to_string() };
    assert_eq!(login(&request, &alice(), 1_000), Err(LoginError::InvalidCredentials));
}

#[test]
fn login_against_a_broken_hash_is_refused() {
    let request = RegisterRequest { login: "alice".to_string(), password: "password".to_string() };
    let broken =
        User { id: 42, login: "alice".to_string(), hashed_password: "password".to_string() };
    assert_eq!(login(&request, &broken, 1_000), Err(LoginError::InvalidCredentials));
}

#[test]
fn login_before_time_began_fails_to_make_a_token() {
    let request = RegisterRequest { login: "alice".to_string(), password: "password".to_string() };
    assert_eq!(login(&request, &alice(), i64::MIN), Err(LoginError::TokenFailure));
}

#[test]
fn bearer_token_is_what_follows_the_prefix() {
    assert_eq!(bearer_token("Bearer abc.def.ghi"), Some("abc.def.ghi".to_string()));
    assert_eq!(bearer_token("Bearer "), Some(String::new()));
    assert_eq!(bearer_token("Bearer  two"), Some(" two".to_string()));
    assert_eq!(bearer_token("Bearer Bearer x"), Some("Bearer x".to_string()));
    assert_eq!(bearer_token("Bearer tök€n"), Some("tök€n".to_string()));
}

#[test]
fn header_without_the_prefix_has_no_token() {
    for header in [
        "",
        "Bearer",
        "bearer abc",
        "BEARER abc",
        "Basic abc",
        " Bearer abc",
        "Bearerabc",
        "Beare",
        "Bäarer abc",
    ] {
        assert_eq!(bearer_token(header), None, "{:?}", header);
    }
}

#[test]
fn bearer_token_agrees_with_strip_prefix() {
    for header in ["Bearer x", "Bearer ", "Bearer", "", "bearer x", "Bearer a b c", "xBearer y"] {
        assert_eq!(
            bearer_token(header),
            header.strip_prefix("Bearer ").map(|s| s.to_string())
        );
    }
}

#[test]
fn config_needs_both_values() {
    let both: Result<Config, String> =
        Config::from_vars(Ok("postgres://db".to_string()), Ok("secret".to_string()));
    assert_eq!(
        both,
        Ok(Config { database_url: "postgres://db".to_string(), jwt_secret: "secret".to_string() })
    );
}

#[test]
fn config_reports_the_first_missing_value() {
    let no_url: Result<Config, &str> = Config::from_vars(Err("no url"), Ok("secret".to_string()));
    assert_eq!(no_url, Err("no url"));
    let no_secret: Result<Config, &str> =
        Config::from_vars(Ok("postgres://db".to_string()), Err("no secret"));
    assert_eq!(no_secret, Err("no secret"));
    let neither: Result<Config, &str> = Config::from_vars(Err("no url"), Err("no secret"));
    assert_eq!(neither, Err("no url"));
}

#[test]
fn stored_hash_keeps_a_hash_and_drops_a_failure() {
    assert_eq!(stored_hash(Ok(PASSWORD_HASH.to_string())), Some(PASSWORD_HASH.to_string()));
    assert_eq!(stored_hash(Ok(String::new())), Some(String::new()));
    assert_eq!(stored_hash(Err(bcrypt::BcryptError::CostNotAllowed(3))), None);
    assert_eq!(stored_hash(Err(bcrypt::BcryptError::InvalidSaltLen(1))), None);
}
