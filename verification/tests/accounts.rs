use browser_sandbox::account::access::{admission_for, bearer_token, Admission};
use browser_sandbox::account::config::Config;
use browser_sandbox::account::forms::{LoginForm, RegisterForm, ADMIN_ROLE_ID, USER_ROLE_ID};
use browser_sandbox::account::password::{hash_password, verdict_accepts, verify_password};
use browser_sandbox::account::token::Claims;
use browser_sandbox::error::SandboxError;

fn text(value: &str) -> Option<String> {
    Some(value.to_string())
}

#[test]
fn config_takes_all_three_values() {
    assert_eq!(
        Config::from_env(text("mysql://db"), text("secret"), text("code")),
        Ok(Config {
            database_url: "mysql://db".to_string(),
            jwt_secret: "secret".to_string(),
            admin_secret_code: "code".to_string(),
        })
    );
}

#[test]
fn config_complains_of_the_first_missing_value() {
    assert_eq!(
        Config::from_env(None, None, None),
        Err("DATABASE_URL n'est pas défini dans .env".to_string())
    );
    assert_eq!(
        Config::from_env(text("mysql://db"), None, None),
        Err("JWT_SECRET n'est pas défini dans .env".to_string())
    );
    assert_eq!(
        Config::from_env(text("mysql://db"), text("secret"), None),
        Err("ADMIN_SECRET_CODE n'est pas défini dans .env".to_string())
    );
    assert_eq!(
        Config::from_env(None, text("secret"), text("code")),
        Err("DATABASE_URL n'est pas défini dans .env".to_string())
    );
}

fn form(access_code: Option<&str>) -> RegisterForm {
    RegisterForm {
        username: "carol".to_string(),
        email: "carol@example.com".to_string(),
        password: "hunter2".to_string(),
        access_code: access_code.map(|c| c.to_string()),
    }
}

#[test]
fn registration_earns_the_admin_role_by_the_trimmed_code() {
    assert_eq!(ADMIN_ROLE_ID, 1);
    assert_eq!(USER_ROLE_ID, 2);
    assert_eq!(form(Some("s3cret")).registered_role("s3cret"), 1);
    assert_eq!(form(Some("  s3cret\n")).registered_role("s3cret "), 1);
    assert_eq!(form(Some("s3cret")).registered_role("other"), 2);
    assert_eq!(form(Some("s3 cret")).registered_role("s3cret"), 2);
    assert_eq!(form(None).registered_role("s3cret"), 2);
    assert_eq!(form(Some(" ")).registered_role(""), 1);
}

#[test]
fn assigned_role_needs_the_exact_code() {
    assert_eq!(form(Some("s3cret")).assigned_role("s3cret"), 1);
    assert_eq!(form(Some(" s3cret")).assigned_role("s3cret"), 2);
    assert_eq!(form(Some("s3cret")).assigned_role("other"), 2);
    assert_eq!(form(None).assigned_role("s3cret"), 2);
}

#[test]
fn hashed_password_is_verified() {
    let hash = hash_password("hunter2").unwrap();
    assert_eq!(hash.chars().count(), 60);
    assert_ne!(hash, "hunter2");
    assert!(verify_password("hunter2", hash.as_str()));
    assert!(!verify_password("hunter3", hash.as_str()));
    assert!(!verify_password("", hash.as_str()));
}

#[test]
fn two_hashes_of_one_password_differ_and_both_verify() {
    let first = hash_password("hunter2").unwrap();
    let second = hash_password("hunter2").unwrap();
    assert_ne!(first, second);
    assert!(verify_password("hunter2", first.as_str()));
    assert!(verify_password("hunter2", second.as_str()));
}

#[test]
fn known_hash_is_verified() {
    let hash = "$2b$04$EGdrhbKUv8Oc9vGiXX0HQOxSg445d458Muh7DAHskb6QbtCvdxcie";
    assert!(verify_password("correctbatteryhorsestapler", hash));
    assert!(!verify_password("wrong", hash));
}

#[test]
fn malformed_hash_accepts_nothing() {
    assert!(!verify_password("hunter2", ""));
    assert!(!verify_password("hunter2", "hunter2"));
    assert!(!verify_password("hunter2", "$2b$04$short"));
    let long = "x".repeat(61);
    assert!(!verify_password("hunter2", long.as_str()));
    let odd = "é".repeat(30);
    assert!(!verify_password("hunter2", odd.as_str()));
}

#[test]
fn verdict_is_accepted_only_when_it_says_so() {
    assert!(verdict_accepts(&Ok(true)));
    assert!(!verdict_accepts(&Ok(false)));
    assert!(!verdict_accepts(&Err(bcrypt::BcryptError::CostNotAllowed(3))));
}

#[test]
fn login_form_checks_its_password() {
    let hash = hash_password("hunter2").unwrap();
    let right = LoginForm { email: "carol@example.com".to_string(), password: "hunter2".to_string() };
    let wrong = LoginForm { email: "carol@example.com".to_string(), password: "hunter3".to_string() };
    assert!(right.password_accepted(hash.as_str()));
    assert!(!wrong.password_accepted(hash.as_str()));
}

#[test]
fn claims_name_the_user_and_expire_in_an_hour() {
    let claims = Claims::issue(42, 1_700_000_000).unwrap();
    assert_eq!(claims, Claims { sub: "42".to_string(), exp: 1_700_003_600 });
    assert_eq!(claims.user_id(), Some(42));
    let negative = Claims::issue(-3, 0).unwrap();
    assert_eq!(negative.sub, "-3");
    assert_eq!(negative.exp, 3600);
    assert_eq!(negative.user_id(), Some(-3));
}

#[test]
fn claims_are_refused_where_the_expiry_cannot_be_counted() {
    assert_eq!(Claims::issue(1, i64::MAX), None);
    assert_eq!(Claims::issue(1, i64::MAX - 3599), None);
    assert_eq!(Claims::issue(1, -3601), None);
    assert_eq!(Claims::issue(1, -3600).map(|c| c.exp), Some(0));
}

#[test]
fn subject_that_is_no_integer_names_no_user() {
    assert_eq!(Claims { sub: "carol".to_string(), exp: 0 }.user_id(), None);
    assert_eq!(Claims { sub: "".to_string(), exp: 0 }.user_id(), None);
    assert_eq!(Claims { sub: "99999999999".to_string(), exp: 0 }.user_id(), None);
}

#[test]
fn bearer_token_follows_the_prefix() {
    assert_eq!(bearer_token("Bearer abc.def.ghi"), Some("abc.def.ghi".to_string()));
    assert_eq!(bearer_token("Bearer "), Some("".to_string()));
    assert_eq!(bearer_token("Bearer  x"), Some(" x".to_string()));
    assert_eq!(bearer_token("bearer abc"), None);
    assert_eq!(bearer_token("Basic abc"), None);
    assert_eq!(bearer_token("Bearer"), None);
    assert_eq!(bearer_token(""), None);
    assert_eq!(bearer_token("Bearer é"), Some("é".to_string()));
}

#[test]
fn requests_are_let_in_by_their_claims() {
    assert_eq!(
        admission_for(&Some(Claims { sub: "42".to_string(), exp: 0 })),
        Admission::User(42)
    );
    assert_eq!(
        admission_for(&Some(Claims { sub: "carol".to_string(), exp: 0 })),
        Admission::Refused("Identifiant utilisateur invalide dans le JWT".to_string())
    );
    assert_eq!(
        admission_for(&None),
        Admission::Refused("Jeton JWT invalide ou expiré".to_string())
    );
}

#[test]
fn hashing_failure_would_be_an_upstream_error() {
    match hash_password("hunter2") {
        Ok(hash) => assert!(hash.starts_with("$2b$04$")),
        Err(error) => assert!(matches!(error, SandboxError::Upstream(_))),
    }
}
