use backend::outcomes::{
    CreateRoomOutcome, DeleteRoomOutcome, InternalFailure, InvitationCodeOutcome, JoinRoomOutcome,
    LeaveRoomOutcome, LoginOutcome, LogoutOutcome, RegisterOutcome,
};
use backend::status::{
    create_room_status, delete_room_status, invitation_code_status, join_room_status,
    leave_room_status, logged_in_status, login_status, logout_status, register_status,
    CreateRoomStatus, DeleteRoomStatus, InvitationCodeStatus, JoinRoomStatus, LeaveRoomStatus,
    LoggedInStatus, LoginStatus, LogoutStatus, RegisterStatus,
};

#[test]
fn register_replies() {
    assert_eq!(register_status(Ok(RegisterOutcome::Success)), (200, RegisterStatus::Success));
    assert_eq!(
        register_status(Ok(RegisterOutcome::UserAlreadyExists)),
        (409, RegisterStatus::UserAlreadyExists)
    );
    assert_eq!(
        register_status(Err(InternalFailure::Hashing)),
        (500, RegisterStatus::InternalServerError)
    );
}

#[test]
fn login_replies() {
    assert_eq!(
        login_status(&Ok(LoginOutcome::Success("t".to_string()))),
        (200, LoginStatus::Success)
    );
    assert_eq!(
        login_status(&Ok(LoginOutcome::UserDoesNotExist)),
        (406, LoginStatus::UserDoesNotExist)
    );
    assert_eq!(
        login_status(&Ok(LoginOutcome::InvalidCredentials)),
        (401, LoginStatus::InvalidCredentials)
    );
    assert_eq!(
        login_status(&Err(InternalFailure::TokenCollision)),
        (500, LoginStatus::InternalServerError)
    );
}

#[test]
fn logged_in_replies() {
    assert_eq!(logged_in_status(Some(7)), (200, LoggedInStatus::LoggedIn));
    assert_eq!(logged_in_status(None), (200, LoggedInStatus::LoggedOut));
}

#[test]
fn logout_replies() {
    assert_eq!(logout_status(LogoutOutcome::Success), (200, LogoutStatus::Success));
    assert_eq!(logout_status(LogoutOutcome::NotLoggedIn), (200, LogoutStatus::NotLoggedIn));
    assert_eq!(
        logout_status(LogoutOutcome::InternalServerError),
        (500, LogoutStatus::InternalServerError)
    );
}

#[test]
fn room_replies() {
    assert_eq!(
        create_room_status(Ok(CreateRoomOutcome::Success)),
        (200, CreateRoomStatus::Success)
    );
    assert_eq!(
        create_room_status(Ok(CreateRoomOutcome::NotLoggedIn)),
        (401, CreateRoomStatus::InvalidCredentials)
    );
    assert_eq!(
        delete_room_status(DeleteRoomOutcome::NotOwner),
        (401, DeleteRoomStatus::NotOwner)
    );
    assert_eq!(
        invitation_code_status(Ok(InvitationCodeOutcome::Success("AB12cd".to_string()))),
        (200, InvitationCodeStatus::Success("AB12cd".to_string()))
    );
    assert_eq!(join_room_status(JoinRoomOutcome::AlreadyMember), (409, JoinRoomStatus::AlreadyMember));
    assert_eq!(join_room_status(JoinRoomOutcome::InvalidCode), (404, JoinRoomStatus::InvalidCode));
    assert_eq!(
        leave_room_status(LeaveRoomOutcome::OwnerCannotLeave),
        (400, LeaveRoomStatus::OwnerCannotLeave)
    );
    assert_eq!(
        leave_room_status(LeaveRoomOutcome::NotMember),
        (400, LeaveRoomStatus::NotMember)
    );
}
