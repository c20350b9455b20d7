use ksyup::errors::AppError;
use ksyup::handlers::users::{
    delete, get_all_step, get_by_id, is_valid_timestamp, login, login_lookup, login_response, register, update,
    LoginUser,
};

fn db_error() -> AppError {
    AppError::InternalError { message: String::from("Database Error") }
}

fn alice() -> LoginUser {
    LoginUser {
        id: String::from("u-1"),
        lastname: String::from("Liddell"),
        firstname: String::from("Alice"),
        email: String::from("alice@example.org"),
    }
}

#[test]
fn login_lookup_outcomes() {
    assert_eq!(login_lookup(Ok(Some(alice()))), Ok(alice()));
    assert_eq!(login_lookup::<LoginUser>(Ok(None)), Err(AppError::Unauthorized));
    assert_eq!(login_lookup::<LoginUser>(Err(sqlx::Error::RowNotFound)), Err(db_error()));
}

#[test]
fn login_answers_user_token_and_expiry() {
    let r = login(alice(), Some((String::from("tok.en"), 1431648000))).unwrap();
    assert_eq!(r.id, "u-1");
    assert_eq!(r.lastname, "Liddell");
    assert_eq!(r.firstname, "Alice");
    assert_eq!(r.email, "alice@example.org");
    assert_eq!(r.token, "tok.en");
    assert_eq!(r.expires_at, "2015-05-15T00:00:00Z");
}

#[test]
fn login_expiry_formats() {
    let at = |t: i64| login(alice(), Some((String::new(), t))).unwrap().expires_at;
    assert_eq!(at(0), "1970-01-01T00:00:00Z");
    assert_eq!(at(1_700_000_001), "2023-11-14T22:13:21Z");
    assert_eq!(at(-1), "1969-12-31T23:59:59Z");
}

#[test]
fn login_expiry_at_range_ends() {
    assert!(login(alice(), Some((String::new(), 8210266876799))).is_ok());
    assert!(login(alice(), Some((String::new(), -8334601228800))).is_ok());
}

#[test]
fn login_without_token_is_unauthorized() {
    assert_eq!(login(alice(), None), Err(AppError::Unauthorized));
}

#[test]
fn register_outcomes() {
    assert_eq!(register(alice(), Ok(5u64)), Ok(alice()));
    assert_eq!(
        register::<u64, LoginUser>(alice(), Err(sqlx::Error::PoolClosed)),
        Err(AppError::InternalError { message: String::from("Error during user creation") })
    );
}

#[test]
fn get_all_collects_rows_in_order() {
    let mut users: Vec<u32> = Vec::new();
    assert_eq!(get_all_step(&mut users, Ok(Some(Ok(3)))), None);
    assert_eq!(get_all_step(&mut users, Ok(Some(Ok(1)))), None);
    assert_eq!(get_all_step(&mut users, Ok(None)), Some(Ok(())));
    assert_eq!(users, vec![3, 1]);
}

#[test]
fn get_all_stops_on_failure() {
    let mut users: Vec<u32> = vec![9];
    assert_eq!(
        get_all_step(&mut users, Ok(Some(Err(sqlx::Error::RowNotFound)))),
        Some(Err(db_error()))
    );
    assert_eq!(get_all_step(&mut users, Err(sqlx::Error::PoolTimedOut)), Some(Err(db_error())));
    assert_eq!(users, vec![9]);
}

#[test]
fn get_by_id_outcomes() {
    assert_eq!(get_by_id(Ok(Some(7u8))), Ok(7));
    assert_eq!(
        get_by_id::<u8>(Ok(None)),
        Err(AppError::NotFound { message: String::from("No user found") })
    );
    assert_eq!(get_by_id::<u8>(Err(sqlx::Error::RowNotFound)), Err(db_error()));
}

#[test]
fn delete_outcomes() {
    assert_eq!(delete(Ok(1)), Ok(204));
    let gone = AppError::InternalError { message: String::from("No user or user already deleted") };
    assert_eq!(delete(Ok(0)), Err(gone.clone()));
    assert_eq!(delete(Ok(2)), Err(gone));
    assert_eq!(
        delete(Err(sqlx::Error::RowNotFound)),
        Err(AppError::InternalError { message: String::from("Error during user deletion") })
    );
}

#[test]
fn update_outcomes() {
    assert_eq!(update(Ok(())), Ok(()));
    assert_eq!(update::<()>(Err(sqlx::Error::PoolClosed)), Err(db_error()));
}

#[test]
fn valid_timestamps_are_chronos_range() {
    for t in [0i64, -1, 1431648000, 8210266876799, -8334601228800] {
        assert!(is_valid_timestamp(t));
        assert!(chrono::DateTime::from_timestamp(t, 0).is_some());
    }
    for t in [8210266876800i64, -8334601228801, i64::MAX, i64::MIN] {
        assert!(!is_valid_timestamp(t));
        assert!(chrono::DateTime::from_timestamp(t, 0).is_none());
    }
}

#[test]
fn login_response_copies_its_parts() {
    let r = login_response(alice(), String::from("t"), String::from("2020-01-01T00:00:00Z"));
    assert_eq!(r.id, "u-1");
    assert_eq!(r.lastname, "Liddell");
    assert_eq!(r.firstname, "Alice");
    assert_eq!(r.email, "alice@example.org");
    assert_eq!(r.token, "t");
    assert_eq!(r.expires_at, "2020-01-01T00:00:00Z");
}
