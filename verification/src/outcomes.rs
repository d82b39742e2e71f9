//! The outcome of each operation, returned as a value.
//!
//! Expected branches of normal operation (a wrong password, an unknown
//! invitation code) are variants here, never errors. Infrastructure
//! failures are the separate [`InternalFailure`], surfaced by the boundary
//! as an internal server error.

use vstd::prelude::*;

use crate::types::Room;

verus! {

/// Outcome of registering a user.
#[derive(Debug, PartialEq, Eq, Structural)]
pub enum RegisterOutcome {
    Success,
    UserAlreadyExists,
}

/// Outcome of logging in. `Success` carries the fresh session token.
#[derive(Debug, PartialEq, Eq)]
pub enum LoginOutcome {
    Success(String),
    InvalidCredentials,
    UserDoesNotExist,
}

/// Outcome of logging out. Revoking a token that no session holds is not
/// an error: it reports `NotLoggedIn`.
#[derive(Debug, PartialEq, Eq, Structural)]
pub enum LogoutOutcome {
    Success,
    NotLoggedIn,
    InternalServerError,
}

/// Outcome of creating a room.
#[derive(Debug, PartialEq, Eq, Structural)]
pub enum CreateRoomOutcome {
    Success,
    NotLoggedIn,
}

/// Outcome of listing the caller's rooms.
#[derive(Debug, PartialEq, Eq)]
pub enum GetRoomOutcome {
    Success(Vec<Room>),
    NotLoggedIn,
}

/// Outcome of joining a room through an invitation code.
#[derive(Debug, PartialEq, Eq, Structural)]
pub enum JoinRoomOutcome {
    Success,
    AlreadyMember,
    InvalidCode,
    NotLoggedIn,
}

/// Outcome of leaving a room. The owner is refused: a room is never left
/// ownerless, it can only be deleted.
#[derive(Debug, PartialEq, Eq, Structural)]
pub enum LeaveRoomOutcome {
    Success,
    NotLoggedIn,
    NotMember,
    OwnerCannotLeave,
}

/// Outcome of deleting a room. A room that does not exist reads as
/// `NotOwner`: the check fails closed and leaks no room existence.
#[derive(Debug, PartialEq, Eq, Structural)]
pub enum DeleteRoomOutcome {
    Success,
    NotLoggedIn,
    NotOwner,
}

/// Outcome of fetching (or lazily allocating) a room's invitation code.
#[derive(Debug, PartialEq, Eq)]
pub enum InvitationCodeOutcome {
    Success(String),
    NotLoggedIn,
    NotOwner,
}

/// An infrastructure failure: none of these is an expected branch of
/// normal operation, and an operation that reports one has changed
/// nothing.
#[derive(Debug, PartialEq, Eq, Structural)]
pub enum InternalFailure {
    /// The password-hashing primitive failed.
    Hashing,
    /// A freshly drawn session token collided with an active session.
    TokenCollision,
    /// Every drawn invitation-code candidate collided with an existing code.
    CodeAllocation,
    /// The id counter for new rows is exhausted.
    IdSpaceExhausted,
}

} // verus!
