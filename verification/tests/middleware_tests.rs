use melody_auth::claims::AccessClaims;
use melody_auth::error::{AuthError, ErrorResponse};
use melody_auth::issuer::{generate_tokens, issue_tokens, Config, Users};
use melody_auth::jwt::encode_token;
use melody_auth::middleware::{
    auth, auth_at, extract_token, is_bypassed, rejection, resolve_identity, AuthStep,
};

const KEY: u128 = 0x0123456789abcdef0123456789abcdef;
const NOW: i64 = 1_700_000_000;

fn user() -> Users {
    Users {
        user_id: KEY,
        name: "Ada".to_string(),
        username: "ada".to_string(),
        email: "ada@example.com".to_string(),
        password: "x".to_string(),
        preferred_platform: None,
        photo: None,
        created_at: None,
        updated_at: None,
    }
}

fn access_token() -> String {
    let config = Config::new("secret".to_string(), 3600, false);
    issue_tokens(&user(), &config, NOW, "a".to_string(), "r".to_string()).unwrap().access_token
}

#[test]
fn health_check_and_authentication_paths_are_bypassed() {
    assert!(is_bypassed("/api/healthchecker"));
    assert!(is_bypassed("/api/auth/login"));
    assert!(is_bypassed("/api/auth/register"));
    assert!(is_bypassed("/api/auth/refresh"));
    assert!(is_bypassed("/api/auth/logout"));
    assert!(is_bypassed("/api/auth/"));
    assert!(is_bypassed("/api/auth/a/b\nc"));
}

#[test]
fn other_paths_are_not_bypassed() {
    assert!(!is_bypassed(""));
    assert!(!is_bypassed("/"));
    assert!(!is_bypassed("/api/user/info"));
    assert!(!is_bypassed("/api/healthchecker/"));
    assert!(!is_bypassed("/api/healthchecker2"));
    assert!(!is_bypassed("/api/healthchecke"));
    assert!(!is_bypassed("/api/auth"));
    assert!(!is_bypassed("/api/authx/login"));
    assert!(!is_bypassed("x/api/auth/login"));
    assert!(!is_bypassed("/API/AUTH/login"));
}

#[test]
fn bypassed_path_is_forwarded_without_a_token() {
    assert_eq!(auth_at("/api/healthchecker", None, None, "secret", NOW), AuthStep::Forwarded);
    assert_eq!(auth("/api/healthchecker", None, None, "secret"), AuthStep::Forwarded);
}

#[test]
fn bypassed_path_is_forwarded_whatever_the_token() {
    assert_eq!(
        auth_at("/api/auth/login", Some("garbage"), Some("Bearer garbage"), "secret", NOW),
        AuthStep::Forwarded
    );
}

#[test]
fn protected_path_without_token_is_missing_credentials() {
    let step = auth_at("/api/user/info", None, None, "secret", NOW);
    assert_eq!(step, AuthStep::Rejected(AuthError::MissingCredentials));
    assert_eq!(auth("/api/user/info", None, None, "secret"), step);
    let (status, body) = rejection(AuthError::MissingCredentials);
    assert_eq!(status, 401);
    assert_eq!(body, ErrorResponse { status: "fail".to_string(), message: "not logged in".to_string() });
}

#[test]
fn valid_cookie_names_the_identity() {
    let token = access_token();
    assert_eq!(
        auth_at("/api/user/info", Some(&token), None, "secret", NOW),
        AuthStep::SubjectParsed(KEY)
    );
}

#[test]
fn valid_bearer_header_names_the_identity() {
    let header = format!("Bearer {}", access_token());
    assert_eq!(
        auth_at("/api/user/info", None, Some(&header), "secret", NOW + 3599),
        AuthStep::SubjectParsed(KEY)
    );
}

#[test]
fn header_without_prefix_is_taken_as_the_token() {
    let token = access_token();
    assert_eq!(
        auth_at("/api/user/info", None, Some(&token), "secret", NOW),
        AuthStep::SubjectParsed(KEY)
    );
}

#[test]
fn cookie_goes_before_the_header() {
    let header = format!("Bearer {}", access_token());
    assert_eq!(
        auth_at("/api/user/info", Some("garbage"), Some(&header), "secret", NOW),
        AuthStep::Rejected(AuthError::WrongCredentials)
    );
    let token = access_token();
    assert_eq!(
        auth_at("/api/user/info", Some(&token), Some("Bearer garbage"), "secret", NOW),
        AuthStep::SubjectParsed(KEY)
    );
}

#[test]
fn extraction_follows_cookie_then_header() {
    assert_eq!(extract_token(None, None), None);
    assert_eq!(extract_token(Some("c"), None), Some("c".to_string()));
    assert_eq!(extract_token(Some("c"), Some("Bearer h")), Some("c".to_string()));
    assert_eq!(extract_token(Some(""), Some("Bearer h")), Some(String::new()));
    assert_eq!(extract_token(None, Some("Bearer h")), Some("h".to_string()));
    assert_eq!(extract_token(None, Some("Bearer ")), Some(String::new()));
    assert_eq!(extract_token(None, Some("Bearer  h")), Some(" h".to_string()));
    assert_eq!(extract_token(None, Some("Bearer")), Some("Bearer".to_string()));
    assert_eq!(extract_token(None, Some("bearer h")), Some("bearer h".to_string()));
    assert_eq!(extract_token(None, Some("Basic abc")), Some("Basic abc".to_string()));
    assert_eq!(extract_token(None, Some("h")), Some("h".to_string()));
    assert_eq!(extract_token(None, Some("")), Some(String::new()));
    assert_eq!(extract_token(None, Some("Bearer \u{2603}x")), Some("\u{2603}x".to_string()));
}

#[test]
fn expired_access_token_is_rejected() {
    let claims = AccessClaims {
        exp: (NOW - 1) as usize,
        iat: (NOW - 3601) as usize,
        sub: "01234567-89ab-cdef-0123-456789abcdef".to_string(),
        jti: "j".to_string(),
    };
    let token = encode_token(&claims, "secret").unwrap();
    let step = auth_at("/api/user/info", Some(&token), None, "secret", NOW);
    assert_eq!(step, AuthStep::Rejected(AuthError::InvalidToken));
    assert_eq!(rejection(AuthError::InvalidToken).0, 401);
    assert_eq!(auth("/api/user/info", Some(&token), None, "secret"), step);
}

#[test]
fn token_signed_with_another_secret_is_rejected() {
    let token = access_token();
    assert_eq!(
        auth_at("/api/user/info", Some(&token), None, "other", NOW),
        AuthStep::Rejected(AuthError::WrongCredentials)
    );
}

#[test]
fn subject_that_is_no_key_is_an_invalid_token() {
    let claims = AccessClaims {
        exp: (NOW + 10) as usize,
        iat: NOW as usize,
        sub: "not-a-key".to_string(),
        jti: "j".to_string(),
    };
    let token = encode_token(&claims, "secret").unwrap();
    assert_eq!(
        auth_at("/api/user/info", Some(&token), None, "secret", NOW),
        AuthStep::Rejected(AuthError::InvalidToken)
    );
}

#[test]
fn subject_in_another_form_of_key_is_accepted() {
    let claims = AccessClaims {
        exp: (NOW + 10) as usize,
        iat: NOW as usize,
        sub: "0123456789ABCDEF0123456789ABCDEF".to_string(),
        jti: "j".to_string(),
    };
    let token = encode_token(&claims, "secret").unwrap();
    assert_eq!(
        auth_at("/api/user/info", Some(&token), None, "secret", NOW),
        AuthStep::SubjectParsed(KEY)
    );
}

#[test]
fn freshly_generated_token_passes_with_the_clock() {
    let config = Config::new("secret".to_string(), 3600, false);
    let pair = generate_tokens(user(), &config).unwrap();
    assert_eq!(
        auth("/api/user/info", Some(&pair.access_token), None, "secret"),
        AuthStep::SubjectParsed(KEY)
    );
}

#[test]
fn found_identity_is_attached() {
    assert_eq!(resolve_identity(Some(user())), Ok(user()));
}

#[test]
fn missing_identity_is_unauthorized_not_absent() {
    assert_eq!(resolve_identity(None), Err(AuthError::IdentityNotFound));
    let (status, body) = rejection(AuthError::IdentityNotFound);
    assert_eq!(status, 401);
    assert_eq!(body.status, "fail");
    assert_eq!(body.message, rejection(AuthError::WrongCredentials).1.message);
}

#[test]
fn raw_header_that_is_no_token_is_rejected_not_missing() {
    let step = auth_at("/api/user/info", None, Some("abc"), "secret", NOW);
    assert_eq!(step, AuthStep::Rejected(AuthError::WrongCredentials));
    assert_eq!(auth("/api/user/info", None, Some("abc"), "secret"), step);
    let (status, body) = rejection(AuthError::WrongCredentials);
    assert_eq!(status, 401);
    assert_eq!(body.status, "fail");
    assert_eq!(body.message, "Invalid token");
}

#[test]
fn bad_cookie_beside_a_good_header_is_rejected() {
    let header = format!("Bearer {}", access_token());
    let step = auth_at("/api/user/info", Some("abc"), Some(&header), "secret", NOW);
    assert_eq!(step, AuthStep::Rejected(AuthError::WrongCredentials));
    assert_eq!(auth("/api/user/info", Some("abc"), Some(&header), "secret"), step);
}

#[test]
fn refresh_token_does_not_pass_as_access_token() {
    let config = Config::new("secret".to_string(), 3600, false);
    let pair = issue_tokens(&user(), &config, NOW, "a".to_string(), "r".to_string()).unwrap();
    assert_eq!(
        auth_at("/api/user/info", Some(&pair.refresh_token), None, "secret", NOW),
        AuthStep::Rejected(AuthError::WrongCredentials)
    );
}
