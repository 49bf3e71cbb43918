use langkeeper::auth::{
    auth_claims, check_login, prepare_registration, AuthError, AuthMiddleware, Claims,
    LoginOutcome, RegistrationError, AUTH_TOKEN_LIFETIME_SECONDS,
};
use langkeeper::resources::{LoginUser, NewUser, User};

fn new_user(name: &str, email: &str, password: &str) -> NewUser {
    NewUser { name: name.to_string(), email: email.to_string(), password: password.to_string() }
}

#[test]
fn claims_expire_after_seven_days() {
    let user = User {
        id: 42,
        name: "test".to_string(),
        email: "test@test.test".to_string(),
        password: String::new(),
        verified: 0,
    };
    let claims = auth_claims(&user, 1_700_000_000);
    assert_eq!(claims, Claims { sub: 42, exp: 1_700_604_800 });
    assert_eq!(AUTH_TOKEN_LIFETIME_SECONDS, 7 * 24 * 60 * 60);
}

#[test]
fn decoded_claims_authenticate_their_subject() {
    assert_eq!(
        AuthMiddleware::from_claims(Some(Claims { sub: 7, exp: 0 })),
        Ok(AuthMiddleware { user_id: 7 })
    );
    let refused = AuthMiddleware::from_claims(None).unwrap_err();
    assert_eq!(refused, AuthError::AuthError);
    assert_eq!(refused.status_code(), 401);
    assert_eq!(refused.to_string(), "Authentication error");
    assert_eq!(refused.redirect_header(), ("HX-Redirect", "/"));
}

#[test]
fn registered_password_logs_in() {
    let stored = match prepare_registration(&new_user("test", "test@test.test", "secret")) {
        Ok(stored) => stored,
        Err(_) => panic!("registration refused"),
    };
    assert_eq!(stored.name, "test");
    assert_eq!(stored.email, "test@test.test");
    assert_ne!(stored.password, "secret");
    assert_eq!(stored.password.len(), 60);
    assert!(stored.password.starts_with("$2b$12$"));
    assert_eq!(check_login("secret", Some(stored.password.as_str())), LoginOutcome::LoggedIn);
    assert_eq!(
        check_login("wrong", Some(stored.password.as_str())),
        LoginOutcome::InvalidCredentials
    );
}

#[test]
fn login_without_user_or_with_broken_hash() {
    assert_eq!(check_login("secret", None), LoginOutcome::InvalidCredentials);
    assert_eq!(check_login("secret", Some("not a hash")), LoginOutcome::ServerError);
    assert_eq!(LoginOutcome::LoggedIn.status_code(), 200);
    assert_eq!(LoginOutcome::LoggedIn.body(), "User logged in");
    assert_eq!(LoginOutcome::InvalidCredentials.status_code(), 401);
    assert_eq!(LoginOutcome::InvalidCredentials.body(), "Invalid credentials");
    assert_eq!(LoginOutcome::ServerError.status_code(), 500);
    assert_eq!(LoginOutcome::ServerError.body(), "Something went wrong");
}

#[test]
fn registration_checks_rules_before_hashing() {
    match prepare_registration(&new_user("Jo", "john@doe.es", "12345678ABC")) {
        Err(RegistrationError::Invalid(report)) => {
            assert_eq!(report.to_string(), "name: length is lower than 3\n");
        }
        _ => panic!("a two-letter name is refused"),
    }
}

#[test]
fn new_user_rules() {
    assert!(new_user("Johnhh", "john@doe.es", "12345678ABC").validate().is_ok());
    assert!(new_user("abc", "a@b.c", "12345").validate().is_ok());
    assert!(new_user("abcdefghijklmnopqrst", "a@b.c", "12345").validate().is_ok());
    let report = new_user("abcdefghijklmnopqrstu", "a@b.c", "12345").validate().unwrap_err();
    assert_eq!(report.to_string(), "name: length is greater than 20\n");
    let report = new_user("Jöhn", "no-at-sign", "1234").validate().unwrap_err();
    assert_eq!(
        report.to_string(),
        "name: not ascii\nemail: not a valid email: value is missing `@`\npassword: length is lower than 5\n"
    );
}

#[test]
fn login_user_rules() {
    let ok = LoginUser { email: "a@b.c".to_string(), password: "abcd1234".to_string() };
    assert!(ok.validate().is_ok());
    let bad = LoginUser { email: "a@b.c".to_string(), password: "abc-12".to_string() };
    let report = bad.validate().unwrap_err();
    assert_eq!(report.iter().count(), 2);
}
