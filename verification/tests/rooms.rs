use backend::database::Database;
use backend::outcomes::{
    CreateRoomOutcome, DeleteRoomOutcome, GetRoomOutcome, InternalFailure, InvitationCodeOutcome,
    JoinRoomOutcome, LeaveRoomOutcome, LoginOutcome, RegisterOutcome,
};
use backend::types::{NewRoom, NewUser};
use backend::utils::generate_invitation_code;

fn register_and_login(db: &mut Database, name: &str, email: &str, password: &str) -> String {
    let r = db.register_user(NewUser {
        name: name.to_string(),
        surname: name.to_string(),
        password: password.to_string(),
        email: email.to_string(),
    });
    assert!(matches!(r, Ok(RegisterOutcome::Success)));
    match db.login_user(email.to_string(), password.to_string()) {
        Ok(LoginOutcome::Success(token)) => token,
        other => panic!("expected a successful login, got {other:?}"),
    }
}

fn make_room(db: &mut Database, token: &str, name: &str, description: &str) -> i32 {
    let r = db.create_room(
        token.to_string(),
        NewRoom { name: name.to_string(), description: description.to_string() },
    );
    assert!(matches!(r, Ok(CreateRoomOutcome::Success)));
    db.rooms.last().unwrap().id
}

fn room_code(db: &mut Database, token: &str, room_id: i32) -> String {
    match db.get_invitation_code(token.to_string(), room_id) {
        Ok(InvitationCodeOutcome::Success(code)) => code,
        other => panic!("expected an invitation code, got {other:?}"),
    }
}

fn is_code_char(c: char) -> bool {
    c.is_ascii_uppercase() || c.is_ascii_lowercase() || c.is_ascii_digit()
}

#[test]
fn creating_a_room_adds_exactly_one_membership_row_for_the_owner() {
    let mut db = Database::new();
    let token = register_and_login(&mut db, "Ann", "a@x.com", "pw1");
    let room_id = make_room(&mut db, &token, "R1", "first");
    let owner = db.verify_session(token.clone()).unwrap();
    let rows: Vec<_> = db.members.iter().filter(|m| m.room_id == room_id).collect();
    assert_eq!(rows.len(), 1);
    assert_eq!(rows[0].user_id, owner);
}

#[test]
fn the_owner_sees_the_room_in_the_listing() {
    let mut db = Database::new();
    let token = register_and_login(&mut db, "Ann", "a@x.com", "pw1");
    make_room(&mut db, &token, "R1", "first");
    match db.get_rooms(token) {
        GetRoomOutcome::Success(rooms) => {
            assert_eq!(rooms.len(), 1);
            assert_eq!(rooms[0].name, "R1");
            assert_eq!(rooms[0].description, "first");
        },
        GetRoomOutcome::NotLoggedIn => panic!("owner should be logged in"),
    }
}

#[test]
fn room_operations_without_a_session_are_refused() {
    let mut db = Database::new();
    let no = "no-session".to_string();
    assert!(matches!(
        db.create_room(no.clone(), NewRoom { name: "R".into(), description: "".into() }),
        Ok(CreateRoomOutcome::NotLoggedIn)
    ));
    assert!(matches!(db.get_rooms(no.clone()), GetRoomOutcome::NotLoggedIn));
    assert_eq!(db.join_room(no.clone(), "ABC123".to_string()), JoinRoomOutcome::NotLoggedIn);
    assert_eq!(db.leave_room(no.clone(), 1), LeaveRoomOutcome::NotLoggedIn);
    assert_eq!(db.delete_room(no.clone(), 1), DeleteRoomOutcome::NotLoggedIn);
    assert!(matches!(db.get_invitation_code(no, 1), Ok(InvitationCodeOutcome::NotLoggedIn)));
}

#[test]
fn join_with_an_unknown_code_changes_no_membership() {
    let mut db = Database::new();
    let token = register_and_login(&mut db, "Ann", "a@x.com", "pw1");
    let before = db.members.len();
    assert_eq!(db.join_room(token, "ZZZZZZ".to_string()), JoinRoomOutcome::InvalidCode);
    assert_eq!(db.members.len(), before);
}

#[test]
fn joining_twice_succeeds_then_reports_already_member() {
    let mut db = Database::new();
    let owner_token = register_and_login(&mut db, "Ann", "a@x.com", "pw1");
    let room_id = make_room(&mut db, &owner_token, "R1", "");
    let code = room_code(&mut db, &owner_token, room_id);
    let other_token = register_and_login(&mut db, "Bob", "b@x.com", "pw2");
    assert_eq!(db.join_room(other_token.clone(), code.clone()), JoinRoomOutcome::Success);
    assert_eq!(db.join_room(other_token, code), JoinRoomOutcome::AlreadyMember);
}

#[test]
fn the_owner_cannot_leave_and_keeps_the_membership_row() {
    let mut db = Database::new();
    let token = register_and_login(&mut db, "Ann", "a@x.com", "pw1");
    let room_id = make_room(&mut db, &token, "R1", "");
    let owner = db.verify_session(token.clone()).unwrap();
    assert_eq!(db.leave_room(token, room_id), LeaveRoomOutcome::OwnerCannotLeave);
    assert!(db.members.iter().any(|m| m.room_id == room_id && m.user_id == owner));
}

#[test]
fn a_member_can_leave_once_then_is_no_member() {
    let mut db = Database::new();
    let owner_token = register_and_login(&mut db, "Ann", "a@x.com", "pw1");
    let room_id = make_room(&mut db, &owner_token, "R1", "");
    let code = room_code(&mut db, &owner_token, room_id);
    let other_token = register_and_login(&mut db, "Bob", "b@x.com", "pw2");
    assert_eq!(db.join_room(other_token.clone(), code), JoinRoomOutcome::Success);
    assert_eq!(db.leave_room(other_token.clone(), room_id), LeaveRoomOutcome::Success);
    assert_eq!(db.leave_room(other_token, room_id), LeaveRoomOutcome::NotMember);
}

#[test]
fn leaving_a_room_that_does_not_exist_reports_not_member() {
    let mut db = Database::new();
    let token = register_and_login(&mut db, "Ann", "a@x.com", "pw1");
    assert_eq!(db.leave_room(token, 999), LeaveRoomOutcome::NotMember);
}

#[test]
fn the_code_is_stable_and_only_the_owner_gets_it() {
    let mut db = Database::new();
    let owner_token = register_and_login(&mut db, "Ann", "a@x.com", "pw1");
    let room_id = make_room(&mut db, &owner_token, "R1", "");
    let c1 = room_code(&mut db, &owner_token, room_id);
    let c2 = room_code(&mut db, &owner_token, room_id);
    assert_eq!(c1, c2);
    assert_eq!(c1.len(), 6);
    assert!(c1.chars().all(is_code_char));
    let other_token = register_and_login(&mut db, "Bob", "b@x.com", "pw2");
    assert!(matches!(
        db.get_invitation_code(other_token.clone(), room_id),
        Ok(InvitationCodeOutcome::NotOwner)
    ));
    assert!(matches!(
        db.get_invitation_code(other_token, 999),
        Ok(InvitationCodeOutcome::NotOwner)
    ));
}

#[test]
fn codes_of_two_rooms_differ() {
    let mut db = Database::new();
    let token = register_and_login(&mut db, "Ann", "a@x.com", "pw1");
    let r1 = make_room(&mut db, &token, "R1", "");
    let r2 = make_room(&mut db, &token, "R2", "");
    let c1 = room_code(&mut db, &token, r1);
    let c2 = room_code(&mut db, &token, r2);
    assert_ne!(c1, c2);
}

#[test]
fn only_the_owner_deletes_and_the_cascade_clears_everything() {
    let mut db = Database::new();
    let owner_token = register_and_login(&mut db, "Ann", "a@x.com", "pw1");
    let room_id = make_room(&mut db, &owner_token, "R1", "");
    let code = room_code(&mut db, &owner_token, room_id);
    let other_token = register_and_login(&mut db, "Bob", "b@x.com", "pw2");
    assert_eq!(db.join_room(other_token.clone(), code.clone()), JoinRoomOutcome::Success);
    assert_eq!(db.delete_room(other_token.clone(), room_id), DeleteRoomOutcome::NotOwner);
    assert_eq!(db.delete_room(owner_token.clone(), room_id), DeleteRoomOutcome::Success);
    assert!(db.rooms.iter().all(|r| r.id != room_id));
    assert!(db.members.iter().all(|m| m.room_id != room_id));
    assert!(db.codes.iter().all(|c| c.room_id != room_id));
    assert_eq!(db.join_room(other_token, code), JoinRoomOutcome::InvalidCode);
    match db.get_rooms(owner_token) {
        GetRoomOutcome::Success(rooms) => assert!(rooms.is_empty()),
        GetRoomOutcome::NotLoggedIn => panic!("owner should still be logged in"),
    }
}

#[test]
fn creating_a_room_with_exhausted_id_counter_is_an_internal_failure() {
    let mut db = Database::new();
    let token = register_and_login(&mut db, "Ann", "a@x.com", "pw1");
    db.next_room_id = i32::MAX;
    let r = db.create_room(token, NewRoom { name: "R".into(), description: "".into() });
    assert_eq!(r, Err(InternalFailure::IdSpaceExhausted));
    assert!(db.rooms.is_empty());
    assert!(db.members.is_empty());
}

#[test]
fn generated_codes_are_six_alphanumeric_characters() {
    for _ in 0..32 {
        let code = generate_invitation_code();
        assert_eq!(code.len(), 6);
        assert!(code.chars().all(is_code_char));
    }
}

#[test]
fn full_walkthrough_of_the_service() {
    let mut db = Database::new();
    assert!(matches!(
        db.register_user(NewUser {
            name: "Ann".into(),
            surname: "A".into(),
            password: "pw1".into(),
            email: "a@x.com".into(),
        }),
        Ok(RegisterOutcome::Success)
    ));
    assert!(matches!(
        db.register_user(NewUser {
            name: "Ann".into(),
            surname: "A".into(),
            password: "pw2".into(),
            email: "a@x.com".into(),
        }),
        Ok(RegisterOutcome::UserAlreadyExists)
    ));
    let owner_token = match db.login_user("a@x.com".to_string(), "pw1".to_string()) {
        Ok(LoginOutcome::Success(t)) => t,
        other => panic!("expected a successful login, got {other:?}"),
    };
    let room_id = make_room(&mut db, &owner_token, "R1", "");
    assert_eq!(room_id, 1);
    match db.get_rooms(owner_token.clone()) {
        GetRoomOutcome::Success(rooms) => {
            assert_eq!(rooms.len(), 1);
            assert_eq!(rooms[0].name, "R1");
            assert_eq!(rooms[0].description, "");
        },
        GetRoomOutcome::NotLoggedIn => panic!("owner should be logged in"),
    }
    let code = room_code(&mut db, &owner_token, room_id);
    let other_token = register_and_login(&mut db, "Bob", "b@x.com", "pw2");
    assert_eq!(db.join_room(other_token, code), JoinRoomOutcome::Success);
    assert_eq!(db.leave_room(owner_token.clone(), room_id), LeaveRoomOutcome::OwnerCannotLeave);
    assert_eq!(db.delete_room(owner_token.clone(), room_id), DeleteRoomOutcome::Success);
    match db.get_rooms(owner_token) {
        GetRoomOutcome::Success(rooms) => assert!(rooms.is_empty()),
        GetRoomOutcome::NotLoggedIn => panic!("owner should still be logged in"),
    }
}
