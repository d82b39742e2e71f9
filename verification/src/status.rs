//! The boundary's view of each outcome: the reply body variant and the
//! HTTP status code it travels with. The mapping here is what the wire
//! protocol promises; the transport layer only serializes it.

use vstd::prelude::*;

use crate::outcomes::{
    CreateRoomOutcome, DeleteRoomOutcome, GetRoomOutcome, InternalFailure, InvitationCodeOutcome,
    JoinRoomOutcome, LeaveRoomOutcome, LoginOutcome, LogoutOutcome, RegisterOutcome,
};
use crate::types::Room;

verus! {

/// Reply to a registration request.
#[derive(Debug, PartialEq, Eq, Structural)]
pub enum RegisterStatus {
    Success,
    UserAlreadyExists,
    InternalServerError,
}

/// Reply to a login request.
#[derive(Debug, PartialEq, Eq, Structural)]
pub enum LoginStatus {
    Success,
    UserDoesNotExist,
    InvalidCredentials,
    InternalServerError,
}

/// Reply to a login-state query.
#[derive(Debug, PartialEq, Eq, Structural)]
pub enum LoggedInStatus {
    LoggedIn,
    LoggedOut,
}

/// Reply to a logout request.
#[derive(Debug, PartialEq, Eq, Structural)]
pub enum LogoutStatus {
    Success,
    NotLoggedIn,
    InternalServerError,
}

/// Reply to a create-room request.
#[derive(Debug, PartialEq, Eq, Structural)]
pub enum CreateRoomStatus {
    Success,
    InvalidCredentials,
    InternalServerError,
}

/// Reply to a room-listing request.
#[derive(Debug, PartialEq)]
pub enum GetRoomStatus {
    Success(Vec<Room>),
    InvalidCredentials,
    InternalServerError,
}

/// Reply to a delete-room request.
#[derive(Debug, PartialEq, Eq, Structural)]
pub enum DeleteRoomStatus {
    Success,
    InternalServerError,
    NotLoggedIn,
    NotOwner,
}

/// Reply to an invitation-code request.
#[derive(Debug, PartialEq)]
pub enum InvitationCodeStatus {
    Success(String),
    InternalServerError,
    NotLoggedIn,
    NotOwner,
}

/// Reply to a join-room request.
#[derive(Debug, PartialEq, Eq, Structural)]
pub enum JoinRoomStatus {
    Success,
    AlreadyMember,
    InvalidCode,
    InvalidCredentials,
    InternalServerError,
}

/// Reply to a leave-room request.
#[derive(Debug, PartialEq, Eq, Structural)]
pub enum LeaveRoomStatus {
    Success,
    InternalServerError,
    NotLoggedIn,
    NotMember,
    OwnerCannotLeave,
}

/// Maps a registration outcome to its reply and HTTP status code:
/// conflict for an email already taken, internal error for a failed
/// primitive.
pub fn register_status(r: Result<RegisterOutcome, InternalFailure>) -> (s: (u16, RegisterStatus))
    ensures
        s == match r {
            Ok(RegisterOutcome::Success) => (200u16, RegisterStatus::Success),
            Ok(RegisterOutcome::UserAlreadyExists) => (409u16, RegisterStatus::UserAlreadyExists),
            Err(_) => (500u16, RegisterStatus::InternalServerError),
        },
{
    match r {
        Ok(RegisterOutcome::Success) => (200, RegisterStatus::Success),
        Ok(RegisterOutcome::UserAlreadyExists) => (409, RegisterStatus::UserAlreadyExists),
        Err(_) => (500, RegisterStatus::InternalServerError),
    }
}

/// Maps a login outcome to its reply and HTTP status code: unauthorized
/// for wrong credentials, not-acceptable for an unknown email.
pub fn login_status(r: &Result<LoginOutcome, InternalFailure>) -> (s: (u16, LoginStatus))
    ensures
        s == match r {
            Ok(LoginOutcome::Success(_)) => (200u16, LoginStatus::Success),
            Ok(LoginOutcome::UserDoesNotExist) => (406u16, LoginStatus::UserDoesNotExist),
            Ok(LoginOutcome::InvalidCredentials) => (401u16, LoginStatus::InvalidCredentials),
            Err(_) => (500u16, LoginStatus::InternalServerError),
        },
{
    match r {
        Ok(LoginOutcome::Success(_)) => (200, LoginStatus::Success),
        Ok(LoginOutcome::UserDoesNotExist) => (406, LoginStatus::UserDoesNotExist),
        Ok(LoginOutcome::InvalidCredentials) => (401, LoginStatus::InvalidCredentials),
        Err(_) => (500, LoginStatus::InternalServerError),
    }
}

/// Maps a token resolution to the login-state reply; the query itself
/// always succeeds.
pub fn logged_in_status(r: Option<i32>) -> (s: (u16, LoggedInStatus))
    ensures
        s == match r {
            Some(_) => (200u16, LoggedInStatus::LoggedIn),
            None => (200u16, LoggedInStatus::LoggedOut),
        },
{
    match r {
        Some(_) => (200, LoggedInStatus::LoggedIn),
        None => (200, LoggedInStatus::LoggedOut),
    }
}

/// Maps a logout outcome to its reply; revoking an absent token is still
/// an OK reply.
pub fn logout_status(r: LogoutOutcome) -> (s: (u16, LogoutStatus))
    ensures
        s == match r {
            LogoutOutcome::Success => (200u16, LogoutStatus::Success),
            LogoutOutcome::NotLoggedIn => (200u16, LogoutStatus::NotLoggedIn),
            LogoutOutcome::InternalServerError => (500u16, LogoutStatus::InternalServerError),
        },
{
    match r {
        LogoutOutcome::Success => (200, LogoutStatus::Success),
        LogoutOutcome::NotLoggedIn => (200, LogoutStatus::NotLoggedIn),
        LogoutOutcome::InternalServerError => (500, LogoutStatus::InternalServerError),
    }
}

/// Maps a create-room outcome to its reply and HTTP status code.
pub fn create_room_status(r: Result<CreateRoomOutcome, InternalFailure>) -> (s: (
    u16,
    CreateRoomStatus,
))
    ensures
        s == match r {
            Ok(CreateRoomOutcome::Success) => (200u16, CreateRoomStatus::Success),
            Ok(CreateRoomOutcome::NotLoggedIn) => (401u16, CreateRoomStatus::InvalidCredentials),
            Err(_) => (500u16, CreateRoomStatus::InternalServerError),
        },
{
    match r {
        Ok(CreateRoomOutcome::Success) => (200, CreateRoomStatus::Success),
        Ok(CreateRoomOutcome::NotLoggedIn) => (401, CreateRoomStatus::InvalidCredentials),
        Err(_) => (500, CreateRoomStatus::InternalServerError),
    }
}

/// Maps a room-listing outcome to its reply, carrying the rooms through.
pub fn get_room_status(r: GetRoomOutcome) -> (s: (u16, GetRoomStatus))
    ensures
        match r {
            GetRoomOutcome::Success(rooms) => s.0 == 200 && s.1 == GetRoomStatus::Success(rooms),
            GetRoomOutcome::NotLoggedIn => s == (401u16, GetRoomStatus::InvalidCredentials),
        },
{
    match r {
        GetRoomOutcome::Success(rooms) => (200, GetRoomStatus::Success(rooms)),
        GetRoomOutcome::NotLoggedIn => (401, GetRoomStatus::InvalidCredentials),
    }
}

/// Maps a delete-room outcome to its reply; not being the owner is
/// unauthorized, whether or not the room exists.
pub fn delete_room_status(r: DeleteRoomOutcome) -> (s: (u16, DeleteRoomStatus))
    ensures
        s == match r {
            DeleteRoomOutcome::Success => (200u16, DeleteRoomStatus::Success),
            DeleteRoomOutcome::NotLoggedIn => (401u16, DeleteRoomStatus::NotLoggedIn),
            DeleteRoomOutcome::NotOwner => (401u16, DeleteRoomStatus::NotOwner),
        },
{
    match r {
        DeleteRoomOutcome::Success => (200, DeleteRoomStatus::Success),
        DeleteRoomOutcome::NotLoggedIn => (401, DeleteRoomStatus::NotLoggedIn),
        DeleteRoomOutcome::NotOwner => (401, DeleteRoomStatus::NotOwner),
    }
}

/// Maps an invitation-code outcome to its reply, carrying the code
/// through.
pub fn invitation_code_status(r: Result<InvitationCodeOutcome, InternalFailure>) -> (s: (
    u16,
    InvitationCodeStatus,
))
    ensures
        match r {
            Ok(InvitationCodeOutcome::Success(code)) => s.0 == 200 && s.1
                == InvitationCodeStatus::Success(code),
            Ok(InvitationCodeOutcome::NotLoggedIn) => s == (
                401u16,
                InvitationCodeStatus::NotLoggedIn,
            ),
            Ok(InvitationCodeOutcome::NotOwner) => s == (401u16, InvitationCodeStatus::NotOwner),
            Err(_) => s == (500u16, InvitationCodeStatus::InternalServerError),
        },
{
    match r {
        Ok(InvitationCodeOutcome::Success(code)) => (200, InvitationCodeStatus::Success(code)),
        Ok(InvitationCodeOutcome::NotLoggedIn) => (401, InvitationCodeStatus::NotLoggedIn),
        Ok(InvitationCodeOutcome::NotOwner) => (401, InvitationCodeStatus::NotOwner),
        Err(_) => (500, InvitationCodeStatus::InternalServerError),
    }
}

/// Maps a join-room outcome to its reply: conflict when already a member,
/// not-found for an unknown code.
pub fn join_room_status(r: JoinRoomOutcome) -> (s: (u16, JoinRoomStatus))
    ensures
        s == match r {
            JoinRoomOutcome::Success => (200u16, JoinRoomStatus::Success),
            JoinRoomOutcome::AlreadyMember => (409u16, JoinRoomStatus::AlreadyMember),
            JoinRoomOutcome::InvalidCode => (404u16, JoinRoomStatus::InvalidCode),
            JoinRoomOutcome::NotLoggedIn => (401u16, JoinRoomStatus::InvalidCredentials),
        },
{
    match r {
        JoinRoomOutcome::Success => (200, JoinRoomStatus::Success),
        JoinRoomOutcome::AlreadyMember => (409, JoinRoomStatus::AlreadyMember),
        JoinRoomOutcome::InvalidCode => (404, JoinRoomStatus::InvalidCode),
        JoinRoomOutcome::NotLoggedIn => (401, JoinRoomStatus::InvalidCredentials),
    }
}

/// Maps a leave-room outcome to its reply: bad request for a caller who
/// is no member or who owns the room.
pub fn leave_room_status(r: LeaveRoomOutcome) -> (s: (u16, LeaveRoomStatus))
    ensures
        s == match r {
            LeaveRoomOutcome::Success => (200u16, LeaveRoomStatus::Success),
            LeaveRoomOutcome::NotLoggedIn => (401u16, LeaveRoomStatus::NotLoggedIn),
            LeaveRoomOutcome::NotMember => (400u16, LeaveRoomStatus::NotMember),
            LeaveRoomOutcome::OwnerCannotLeave => (400u16, LeaveRoomStatus::OwnerCannotLeave),
        },
{
    match r {
        LeaveRoomOutcome::Success => (200, LeaveRoomStatus::Success),
        LeaveRoomOutcome::NotLoggedIn => (401, LeaveRoomStatus::NotLoggedIn),
        LeaveRoomOutcome::NotMember => (400, LeaveRoomStatus::NotMember),
        LeaveRoomOutcome::OwnerCannotLeave => (400, LeaveRoomStatus::OwnerCannotLeave),
    }
}

} // verus!
