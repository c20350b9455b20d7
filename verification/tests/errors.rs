use ksyup::errors::{AppError, AppErrorMessage};
use ksyup::handlers::errors::{
    render_401, render_403, render_408, render_502, render_503, render_504, render_error,
};

fn all_errors() -> Vec<AppError> {
    vec![
        AppError::InternalError { message: String::from("boom") },
        AppError::BadRequest { message: String::from("bad input") },
        AppError::NotFound { message: String::from("nothing here") },
        AppError::Unauthorized,
    ]
}

#[test]
fn name_gives_message_or_unauthorized() {
    let names: Vec<String> = all_errors().iter().map(|e| e.name()).collect();
    assert_eq!(names, vec!["boom", "bad input", "nothing here", "Unauthorized"]);
}

#[test]
fn name_and_displayed_text_agree() {
    for e in all_errors() {
        assert_eq!(e.name(), e.to_string());
    }
}

#[test]
fn status_codes_per_variant() {
    let codes: Vec<u16> = all_errors().iter().map(|e| e.status_code()).collect();
    assert_eq!(codes, vec![500, 400, 404, 401]);
}

#[test]
fn every_status_is_an_error_status() {
    for e in all_errors() {
        let code = e.status_code();
        assert!((400..600).contains(&code));
        assert_eq!(code >= 500, matches!(e, AppError::InternalError { .. }));
    }
}

#[test]
fn error_response_is_json_with_code_and_text() {
    let e = AppError::NotFound { message: String::from("No user found") };
    let r = e.error_response();
    assert_eq!(r.status, 404);
    assert_eq!(r.body.content_type, "application/json");
    assert_eq!(
        r.body.message,
        AppErrorMessage { code: 404, message: String::from("No user found") }
    );
    let u = AppError::Unauthorized.error_response();
    assert_eq!(u.status, 401);
    assert_eq!(u.body.message.code, 401);
    assert_eq!(u.body.message.message, "Unauthorized");
}

#[test]
fn database_failures_become_internal_errors() {
    let e = AppError::from_database_error(sqlx::Error::RowNotFound);
    assert_eq!(e, AppError::InternalError { message: String::from("Database Error") });
    assert_eq!(e.status_code(), 500);
    let e = AppError::from_database_error(sqlx::Error::PoolTimedOut);
    assert_eq!(e.name(), "Database Error");
}

#[test]
fn render_error_keeps_code_and_message() {
    let b = render_error(418, String::from("teapot"));
    assert_eq!(b.content_type, "application/json");
    assert_eq!(b.message, AppErrorMessage { code: 418, message: String::from("teapot") });
}

#[test]
fn rendered_error_bodies() {
    let bodies = vec![
        render_401(),
        render_403(),
        render_408(),
        render_502(),
        render_503(),
        render_504(),
    ];
    let got: Vec<(u16, String)> = bodies
        .iter()
        .map(|b| {
            assert_eq!(b.content_type, "application/json");
            (b.message.code, b.message.message.clone())
        })
        .collect();
    let want: Vec<(u16, String)> = vec![
        (401, "Unauthorized".to_string()),
        (403, "Forbidden".to_string()),
        (408, "Request Time-out".to_string()),
        (502, "Bad Gateway".to_string()),
        (503, "Service Unavailable".to_string()),
        (504, "Gateway Time-out".to_string()),
    ];
    assert_eq!(got, want);
}

#[test]
fn render_401_matches_unauthorized_error_body() {
    let from_error = AppError::Unauthorized.error_response().body;
    assert_eq!(render_401(), from_error);
}
