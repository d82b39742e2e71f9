//! A room-membership service: users register and log in, sessions are
//! issued as opaque tokens, and rooms are created, joined through
//! invitation codes, left, and deleted, all gated by session identity and
//! room ownership.
//!
//! The whole service state lives in a [`database::Database`] value; every
//! operation is a method on it with a contract that pins down the outcome
//! and the state change for each class of input.

pub mod types;

pub mod outcomes;

pub mod database;

pub mod utils;

pub mod register;

pub mod session;

pub mod rooms;

pub mod codes;

pub mod status;

pub mod laws;

