//! The data carried in and out of the service, and the rows of its tables.

use vstd::prelude::*;

verus! {

/// A registration request: the clear-text password is hashed before a row
/// is stored, and never kept.
pub struct NewUser {
    pub name: String,
    pub surname: String,
    pub password: String,
    pub email: String,
}

/// A row of the `users` table. The email is unique across all rows and the
/// password is kept only as a salted one-way hash.
#[derive(Debug, Clone)]
pub struct User {
    pub id: i32,
    pub name: String,
    pub surname: String,
    pub password_hash: String,
    pub email: String,
}

/// A login request.
pub struct LoginRequest {
    pub email: String,
    pub password: String,
}

/// A row of the `sessions` table: one active login, bound to one user.
/// The token is an opaque unguessable string, unique across all rows.
#[derive(Debug, Clone)]
pub struct Session {
    pub token: String,
    pub user_id: i32,
}

/// A request to create a room.
pub struct NewRoom {
    pub name: String,
    pub description: String,
}

/// What a member sees of a room.
#[derive(Debug, Clone, PartialEq, Eq)]
pub struct Room {
    pub name: String,
    pub description: String,
}

/// A row of the `rooms` table. The id is unique; the owner is a registered
/// user and is always a member of the room.
#[derive(Debug, Clone)]
pub struct RoomRecord {
    pub id: i32,
    pub owner: i32,
    pub name: String,
    pub description: String,
}

impl RoomRecord {
    /// The member-visible part of the row.
    pub open spec fn summary(self) -> Room {
        (Room { name: self.name, description: self.description })
    }
}

/// A row of the `room_members` table; the pair is unique across all rows.
#[derive(Debug, Clone, Copy, PartialEq, Eq, Structural)]
pub struct Membership {
    pub room_id: i32,
    pub user_id: i32,
}

/// A row of the `invitation_codes` table: a short alphanumeric code that
/// admits new members to one room. Codes are unique, and a room has at
/// most one.
#[derive(Debug, Clone)]
pub struct Invitation {
    pub code: String,
    pub room_id: i32,
}

/// The body of a health-check reply.
#[derive(Debug)]
pub struct Health {
    pub status: String,
}

impl Health {
    /// A healthy reply.
    pub fn ok() -> (h: Health)
        ensures
            h.status@ == "ok"@,
    {
        Health { status: "ok".to_owned() }
    }
}

} // verus!
