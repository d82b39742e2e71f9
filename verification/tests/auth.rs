use backend::database::Database;
use backend::outcomes::{InternalFailure, LoginOutcome, LogoutOutcome, RegisterOutcome};
use backend::types::{Health, NewUser};
use backend::utils::hash_password;

fn new_user(name: &str, email: &str, password: &str) -> NewUser {
    NewUser {
        name: name.to_string(),
        surname: format!("{name}son"),
        password: password.to_string(),
        email: email.to_string(),
    }
}

fn login(db: &mut Database, email: &str, password: &str) -> String {
    match db.login_user(email.to_string(), password.to_string()) {
        Ok(LoginOutcome::Success(token)) => token,
        other => panic!("expected a successful login, got {other:?}"),
    }
}

#[test]
fn fresh_store_holds_only_the_admin() {
    let db = Database::new();
    assert_eq!(db.users.len(), 1);
    assert_eq!(db.users[0].id, 1);
    assert_eq!(db.users[0].email, "admin@example.com");
    assert!(db.sessions.is_empty());
    assert!(db.rooms.is_empty());
    assert!(db.members.is_empty());
    assert!(db.codes.is_empty());
}

#[test]
fn register_distinct_emails_never_conflicts() {
    let mut db = Database::new();
    let r1 = db.register_user(new_user("Ann", "a@x.com", "pw1"));
    let r2 = db.register_user(new_user("Bob", "b@x.com", "pw2"));
    assert!(matches!(r1, Ok(RegisterOutcome::Success)));
    assert!(matches!(r2, Ok(RegisterOutcome::Success)));
    assert_eq!(db.users.len(), 3);
}

#[test]
fn register_same_email_twice_conflicts_and_keeps_one_row() {
    let mut db = Database::new();
    let r1 = db.register_user(new_user("Ann", "a@x.com", "pw1"));
    assert!(matches!(r1, Ok(RegisterOutcome::Success)));
    let r2 = db.register_user(new_user("Ann", "a@x.com", "pw2"));
    assert!(matches!(r2, Ok(RegisterOutcome::UserAlreadyExists)));
    let rows: Vec<_> = db.users.iter().filter(|u| u.email == "a@x.com").collect();
    assert_eq!(rows.len(), 1);
}

#[test]
fn register_stores_a_hash_not_the_password() {
    let mut db = Database::new();
    db.register_user(new_user("Ann", "a@x.com", "pw1")).unwrap();
    let row = db.users.iter().find(|u| u.email == "a@x.com").unwrap();
    assert_ne!(row.password_hash, "pw1");
    assert!(bcrypt::verify("pw1", &row.password_hash).unwrap());
}

#[test]
fn login_with_correct_credentials_resolves_to_the_user() {
    let mut db = Database::new();
    db.register_user(new_user("Ann", "a@x.com", "pw1")).unwrap();
    let user_id = db.users.iter().find(|u| u.email == "a@x.com").unwrap().id;
    let token = login(&mut db, "a@x.com", "pw1");
    assert_eq!(token.len(), 36);
    assert_eq!(db.verify_session(token), Some(user_id));
}

#[test]
fn login_with_wrong_password_creates_no_session() {
    let mut db = Database::new();
    db.register_user(new_user("Ann", "a@x.com", "pw1")).unwrap();
    let r = db.login_user("a@x.com".to_string(), "wrong".to_string());
    assert!(matches!(r, Ok(LoginOutcome::InvalidCredentials)));
    assert!(db.sessions.is_empty());
}

#[test]
fn login_with_unknown_email_is_rejected() {
    let mut db = Database::new();
    let r = db.login_user("nobody@x.com".to_string(), "pw".to_string());
    assert!(matches!(r, Ok(LoginOutcome::UserDoesNotExist)));
    assert!(db.sessions.is_empty());
}

#[test]
fn login_over_a_malformed_stored_hash_is_an_internal_failure() {
    // The seeded admin row carries a placeholder that is no bcrypt hash.
    let mut db = Database::new();
    let r = db.login_user("admin@example.com".to_string(), "anything".to_string());
    assert_eq!(r, Err(InternalFailure::Hashing));
    assert!(db.sessions.is_empty());
}

#[test]
fn revoked_token_no_longer_verifies() {
    let mut db = Database::new();
    db.register_user(new_user("Ann", "a@x.com", "pw1")).unwrap();
    let token = login(&mut db, "a@x.com", "pw1");
    assert!(db.verify_session(token.clone()).is_some());
    assert_eq!(db.logout_user(token.clone()), LogoutOutcome::Success);
    assert_eq!(db.verify_session(token), None);
}

#[test]
fn revoking_twice_reports_not_logged_in_the_second_time() {
    let mut db = Database::new();
    db.register_user(new_user("Ann", "a@x.com", "pw1")).unwrap();
    let token = login(&mut db, "a@x.com", "pw1");
    assert_eq!(db.logout_user(token.clone()), LogoutOutcome::Success);
    assert_eq!(db.logout_user(token), LogoutOutcome::NotLoggedIn);
}

#[test]
fn revoking_one_session_leaves_the_others() {
    let mut db = Database::new();
    db.register_user(new_user("Ann", "a@x.com", "pw1")).unwrap();
    let t1 = login(&mut db, "a@x.com", "pw1");
    let t2 = login(&mut db, "a@x.com", "pw1");
    assert_ne!(t1, t2);
    assert_eq!(db.logout_user(t1), LogoutOutcome::Success);
    assert!(db.verify_session(t2).is_some());
}

#[test]
fn verify_with_no_session_yields_none() {
    let db = Database::new();
    assert_eq!(db.verify_session("not-a-token".to_string()), None);
}

#[test]
fn hash_password_produces_a_verifiable_bcrypt_hash() {
    let h = hash_password("secret").unwrap();
    assert_ne!(h, "secret");
    assert!(bcrypt::verify("secret", &h).unwrap());
    assert!(!bcrypt::verify("other", &h).unwrap());
}

#[test]
fn register_with_exhausted_id_counter_is_an_internal_failure() {
    let mut db = Database::new();
    db.next_user_id = i32::MAX;
    let r = db.register_user(new_user("Ann", "a@x.com", "pw1"));
    assert_eq!(r, Err(InternalFailure::IdSpaceExhausted));
    assert_eq!(db.users.len(), 1);
}

#[test]
fn health_reply_reads_ok() {
    assert_eq!(Health::ok().status, "ok");
}
