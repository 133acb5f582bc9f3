use case_api::auth::{auth_cookie, authorize, claims_fresh, logout_cookie, make_claims,
    TOKEN_TTL_SECONDS};
use case_api::errors::{status_label, status_of, ApiError};
use case_api::model::{LoginUserSchema, RegisterUserSchema};
use case_api::users::UserStore;

fn reg(name: &str, email: &str, password: &str) -> RegisterUserSchema {
    RegisterUserSchema {
        name: name.to_string(),
        email: email.to_string(),
        password: password.to_string(),
    }
}

fn login_as(email: &str, password: &str) -> LoginUserSchema {
    LoginUserSchema { email: email.to_string(), password: password.to_string() }
}

#[test]
fn register_folds_email_and_redacts_nothing_it_should_keep() {
    let mut users = UserStore::new();
    let u = users.register(&reg("Alice", "Alice@Example.COM", "hunter42"), 10).expect("register");
    assert_eq!(u.email, "alice@example.com");
    assert_eq!(u.name, "Alice");
    assert_eq!(u.role, "user");
    assert_eq!(u.photo, "default.png");
    assert!(!u.verified);
    assert_eq!(u.id.len(), 36);
    assert_ne!(u.password, "hunter42");
    assert!(u.password.starts_with("$argon2"));
}

#[test]
fn register_duplicate_email_conflicts_case_insensitively() {
    let mut users = UserStore::new();
    let _ = users.register(&reg("Alice", "alice@example.com", "pw-one"), 10).expect("register");
    let r = users.register(&reg("Other", "ALICE@EXAMPLE.com", "pw-two"), 11);
    assert!(matches!(r, Err(ApiError::Conflict)));
    assert_eq!(users.count(), 1);
}

#[test]
fn prepared_registration_is_exact_about_its_conflicts() {
    let mut users = UserStore::new();
    let first = users
        .register_prepared(
            "id-1".to_string(),
            "$argon2id$stored-hash".to_string(),
            &reg("Alice", "Alice@example.com", "unused-here"),
            5,
        )
        .expect("fresh id and email must register");
    assert_eq!(first.id, "id-1");
    assert_eq!(first.email, "alice@example.com");
    assert_eq!(first.password, "$argon2id$stored-hash");
    let same_email = users.register_prepared(
        "id-2".to_string(),
        "$argon2id$other".to_string(),
        &reg("Other", "ALICE@example.com", "unused-here"),
        6,
    );
    assert!(matches!(same_email, Err(ApiError::Conflict)));
    let same_id = users.register_prepared(
        "id-1".to_string(),
        "$argon2id$other".to_string(),
        &reg("Other", "other@example.com", "unused-here"),
        7,
    );
    assert!(matches!(same_id, Err(ApiError::StorageError)));
    assert_eq!(users.count(), 1);
}

#[test]
fn login_with_correct_password_returns_the_account() {
    let mut users = UserStore::new();
    let u = users.register(&reg("Alice", "alice@example.com", "hunter42"), 10).expect("register");
    let got = users.login(&login_as("ALICE@example.com", "hunter42")).expect("login");
    assert_eq!(got.id, u.id);
    assert_eq!(got.email, "alice@example.com");
}

#[test]
fn wrong_password_and_unknown_email_fail_identically() {
    let mut users = UserStore::new();
    let _ = users.register(&reg("Alice", "alice@example.com", "hunter42"), 10).expect("register");
    let wrong_pw = users.login(&login_as("alice@example.com", "not-the-password"));
    let no_user = users.login(&login_as("nobody@example.com", "hunter42"));
    let e1 = wrong_pw.err().expect("wrong password must fail");
    let e2 = no_user.err().expect("unknown email must fail");
    assert!(matches!(e1, ApiError::InvalidCredentials));
    assert!(matches!(e2, ApiError::InvalidCredentials));
    assert_eq!(status_of(&e1), status_of(&e2));
    assert_eq!(status_of(&e1), 400);
    assert_eq!(status_label(&e1), status_label(&e2));
    assert_eq!(status_label(&e1), "fail");
}

#[test]
fn claims_open_now_and_close_an_hour_later() {
    let c = make_claims("user-7", 100);
    assert_eq!(c.sub, "user-7");
    assert_eq!(c.iat, 100);
    assert_eq!(c.exp, 100 + TOKEN_TTL_SECONDS);
    assert!(claims_fresh(&c, 3699));
    assert!(!claims_fresh(&c, 3700));
}

#[test]
fn authorize_admits_a_fresh_token_of_an_existing_user() {
    let mut users = UserStore::new();
    let u = users.register(&reg("Alice", "alice@example.com", "hunter42"), 10).expect("register");
    let claims = make_claims(&u.id, 500);
    let got = authorize(&users, &claims, 600).expect("authorize");
    assert_eq!(got.id, u.id);
}

#[test]
fn authorize_refuses_expired_or_unknown_subjects() {
    let mut users = UserStore::new();
    let u = users.register(&reg("Alice", "alice@example.com", "hunter42"), 10).expect("register");
    let claims = make_claims(&u.id, 500);
    let expired = authorize(&users, &claims, 500 + TOKEN_TTL_SECONDS);
    assert!(matches!(expired, Err(ApiError::Unauthorized)));
    let stranger = make_claims("not-a-user-id", 500);
    let unknown = authorize(&users, &stranger, 600);
    assert!(matches!(unknown, Err(ApiError::Unauthorized)));
}

#[test]
fn cookies_have_the_agreed_shape() {
    assert_eq!(
        auth_cookie("tok.en.value"),
        "token=tok.en.value; Path=/; Max-Age=3600; SameSite=Lax; HttpOnly"
    );
    assert_eq!(logout_cookie(), "token=; Path=/; Max-Age=-3600; SameSite=Lax; HttpOnly");
}
