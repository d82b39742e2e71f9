//! Registration: one user row per email, the password stored only as its
//! hash.

use vstd::prelude::*;

use crate::database::Database;
use crate::outcomes::{InternalFailure, RegisterOutcome};
use crate::types::{NewUser, User};
use crate::utils::{bcrypt_verify_of, hash_password};

verus! {

impl Database {
    /// Registers a new user.
    ///
    /// An email already registered is refused with `UserAlreadyExists` and
    /// nothing changes; a failing hashing primitive is an infrastructure
    /// failure and nothing changes. Otherwise exactly one user row is
    /// added, carrying a hash that the stored password verifies against.
    pub fn register_user(&mut self, user: NewUser) -> (r: Result<
        RegisterOutcome,
        InternalFailure,
    >)
        requires
            old(self).wf(),
        ensures
            final(self).wf(),
            (r matches Ok(RegisterOutcome::UserAlreadyExists)) <==> old(self).has_user_with_email(
                user.email@,
            ),
            (r matches Err(InternalFailure::IdSpaceExhausted)) <==> (!old(
                self,
            ).has_user_with_email(user.email@) && old(self).next_user_id == i32::MAX),
            r matches Ok(RegisterOutcome::Success) ==> {
                &&& !old(self).has_user_with_email(user.email@)
                &&& final(self).users@.len() == old(self).users@.len() + 1
                &&& final(self).users@ == old(self).users@.push(final(self).users@.last())
                &&& final(self).users@.last().id == old(self).next_user_id
                &&& final(self).users@.last().name@ == user.name@
                &&& final(self).users@.last().surname@ == user.surname@
                &&& final(self).users@.last().email@ == user.email@
                &&& bcrypt_verify_of(user.password@, final(self).users@.last().password_hash@)
                    == Some(true)
                &&& final(self).has_user_with_email(user.email@)
                &&& final(self).next_user_id == old(self).next_user_id + 1
                &&& final(self).sessions@ == old(self).sessions@
                &&& final(self).rooms@ == old(self).rooms@
                &&& final(self).members@ == old(self).members@
                &&& final(self).codes@ == old(self).codes@
                &&& final(self).next_room_id == old(self).next_room_id
            },
            r is Err ==> (r matches Err(InternalFailure::Hashing) || r matches Err(
                InternalFailure::IdSpaceExhausted,
            )),
            !old(self).has_user_with_email(user.email@) && old(self).next_user_id < i32::MAX ==> (
            r matches Ok(RegisterOutcome::Success) || r matches Err(InternalFailure::Hashing)),
            !(r matches Ok(RegisterOutcome::Success)) ==> *final(self) == *old(self),
    {
        if self.find_user_by_email(&user.email).is_some() {
            return Ok(RegisterOutcome::UserAlreadyExists);
        }
        if self.next_user_id == i32::MAX {
            return Err(InternalFailure::IdSpaceExhausted);
        }
        let password_hash = match hash_password(user.password.as_str()) {
            Ok(h) => h,
            Err(_) => {
                return Err(InternalFailure::Hashing);
            },
        };
        let ghost pre = *self;
        let row = User {
            id: self.next_user_id,
            name: user.name,
            surname: user.surname,
            password_hash,
            email: user.email,
        };
        let ghost row_ghost = row;
        self.users.push(row);
        self.next_user_id = self.next_user_id + 1;
        proof {
            Database::lemma_user_push(pre, *self, row_ghost);
            Database::lemma_session_lookups(pre, *self);
            Database::lemma_room_lookups(pre, *self);
            Database::lemma_member_lookups(pre, *self);
            Database::lemma_code_lookups(pre, *self);
            assert forall|k: int| 0 <= k < self.sessions@.len() implies self.has_user_id(
                self.sessions@[k].user_id as int,
            ) by {
                assert(pre.has_user_id(pre.sessions@[k].user_id as int));
                assert(self.has_user_id(self.sessions@[k].user_id as int));
            }
            assert forall|k: int| 0 <= k < self.rooms@.len() implies self.has_user_id(
                self.rooms@[k].owner as int,
            ) by {
                assert(pre.has_user_id(pre.rooms@[k].owner as int));
            }
            assert(self.wf());
            assert(self.users@.last() == row_ghost);
        }
        Ok(RegisterOutcome::Success)
    }
}

} // verus!
