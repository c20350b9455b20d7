use ksyup::errors::AppError;
use ksyup::middlewares::auth::{bearer_token, AuthAction, Authentication, AuthenticationMiddleware};

fn token(h: &str) -> Option<String> {
    bearer_token(Some(h))
}

#[test]
fn bearer_token_absent_header() {
    assert_eq!(bearer_token(None), None);
}

#[test]
fn bearer_token_plain() {
    assert_eq!(token("Bearer abc.def.ghi"), Some(String::from("abc.def.ghi")));
}

#[test]
fn bearer_token_trims_white_space() {
    assert_eq!(token("Bearer   abc \t "), Some(String::from("abc")));
    assert_eq!(token("Bearer\u{3000}tok\u{a0}"), Some(String::from("tok")));
    assert_eq!(token("Bearer \u{2028}a b\u{85}"), Some(String::from("a b")));
}

#[test]
fn bearer_token_without_keyword() {
    assert_eq!(token("Basic dXNlcjpwYXNz"), None);
    assert_eq!(token("bearer abc"), None);
    assert_eq!(token(""), None);
    assert_eq!(token("Beare"), None);
}

#[test]
fn bearer_token_keyword_anywhere() {
    assert_eq!(token("xBearer"), Some(String::new()));
    assert_eq!(token("Token Bearer abc"), Some(String::from("abc")));
    assert_eq!(token("Bearer a Bearer b"), Some(String::from("a")));
    assert_eq!(token("BearerBearer"), Some(String::new()));
    assert_eq!(token("BeBearer xy"), Some(String::from("xy")));
}

#[test]
fn bearer_token_round_trip() {
    for t in ["abc", "eyJ.x.y", "", "a b", "πλ"] {
        let header = format!("Bearer {}", t);
        assert_eq!(token(&header), Some(String::from(t)));
    }
}

#[test]
fn request_without_app_state_is_rejected() {
    let m = Authentication.new_transform();
    let (check, action) = m.call(false, false, Some("Bearer abc"));
    assert_eq!(action, AuthAction::Reject);
    assert!(!check.is_authorized());
}

#[test]
fn request_without_token_is_rejected() {
    let m = AuthenticationMiddleware;
    let (_, action) = m.call(false, true, None);
    assert_eq!(action, AuthAction::Reject);
    let (_, action) = m.call(false, true, Some("Basic abc"));
    assert_eq!(action, AuthAction::Reject);
}

#[test]
fn known_user_is_forwarded() {
    let m = AuthenticationMiddleware;
    let (mut check, action) = m.call(false, true, Some("Bearer  tok "));
    assert_eq!(action, AuthAction::VerifyToken { token: String::from("tok") });
    assert!(!check.is_authorized());
    let action = check.token_verified(Some(String::from("42")));
    assert_eq!(action, AuthAction::FindUser { user_id: String::from("42") });
    assert!(!check.is_authorized());
    let action = check.user_checked(true);
    assert_eq!(action, AuthAction::Forward);
    assert!(check.is_authorized());
}

#[test]
fn invalid_token_is_rejected() {
    let m = AuthenticationMiddleware;
    let (mut check, _) = m.call(false, true, Some("Bearer tok"));
    assert_eq!(check.token_verified(None), AuthAction::Reject);
    assert!(!check.is_authorized());
}

#[test]
fn unknown_user_is_rejected() {
    let m = AuthenticationMiddleware;
    let (mut check, _) = m.call(false, true, Some("Bearer tok"));
    check.token_verified(Some(String::from("7")));
    assert_eq!(check.user_checked(false), AuthAction::Reject);
    assert!(!check.is_authorized());
}

#[test]
fn rejection_answer_is_unauthorized() {
    let r = AuthenticationMiddleware::unauthorized_response();
    assert_eq!(r.status, 401);
    assert_eq!(r.body.content_type, "application/json");
    assert_eq!(r.body.message.code, 401);
    assert_eq!(r.body.message.message, "Unauthorized");
    assert_eq!(r, AppError::Unauthorized.error_response());
}

#[test]
fn preflight_request_goes_through_at_once() {
    let m = AuthenticationMiddleware;
    let (check, action) = m.call(true, false, None);
    assert_eq!(action, AuthAction::Forward);
    assert!(check.is_authorized());
    let (check, action) = m.call(true, true, Some("Basic abc"));
    assert_eq!(action, AuthAction::Forward);
    assert!(check.is_authorized());
}

#[test]
fn non_preflight_request_without_anything_is_rejected() {
    let m = AuthenticationMiddleware;
    let (check, action) = m.call(false, false, None);
    assert_eq!(action, AuthAction::Reject);
    assert!(!check.is_authorized());
}
