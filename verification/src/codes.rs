//! Invitation codes: lazily allocated, collision-free, one per room.

use vstd::prelude::*;

use crate::database::Database;
use crate::outcomes::{InternalFailure, InvitationCodeOutcome};
use crate::types::Invitation;
use crate::utils::{generate_invitation_code, valid_code};

verus! {

/// How many colliding candidates the allocator tolerates before it gives
/// up and reports an infrastructure failure.
pub const CODE_ATTEMPTS: usize = 16;

impl Database {
    /// Fetches the invitation code of a room, allocating one on first
    /// request.
    ///
    /// Only the room's owner may ask; a missing room reads as `NotOwner`,
    /// failing closed. The first successful request draws random
    /// candidates until one collides with no existing code and stores it;
    /// every later request returns that same stored code and changes
    /// nothing.
    pub fn get_invitation_code(&mut self, session_uuid: String, room_id: i32) -> (r: Result<
        InvitationCodeOutcome,
        InternalFailure,
    >)
        requires
            old(self).wf(),
        ensures
            final(self).wf(),
            (r matches Ok(InvitationCodeOutcome::NotLoggedIn)) <==> !old(self).has_session(
                session_uuid@,
            ),
            (r matches Ok(InvitationCodeOutcome::NotOwner)) <==> (old(self).has_session(session_uuid@)
                && !old(self).owns(
                old(self).session_user(session_uuid@) as int,
                room_id as int,
            )),
            old(self).has_session(session_uuid@) && old(self).owns(
                old(self).session_user(session_uuid@) as int,
                room_id as int,
            ) && old(self).room_has_code(room_id as int) ==> (r matches Ok(
                InvitationCodeOutcome::Success(code),
            ) && code@ == old(self).room_code(room_id as int)),
            old(self).has_session(session_uuid@) && old(self).owns(
                old(self).session_user(session_uuid@) as int,
                room_id as int,
            ) && !old(self).room_has_code(room_id as int) ==> (r matches Ok(
                InvitationCodeOutcome::Success(_),
            ) || r matches Err(InternalFailure::CodeAllocation)),
            r matches Ok(InvitationCodeOutcome::Success(code)) ==> {
                &&& old(self).has_session(session_uuid@)
                &&& old(self).owns(old(self).session_user(session_uuid@) as int, room_id as int)
                &&& final(self).room_has_code(room_id as int)
                &&& final(self).room_code(room_id as int) == code@
                &&& final(self).has_code(code@)
                &&& final(self).code_room(code@) == room_id
                &&& if old(self).room_has_code(room_id as int) {
                    code@ == old(self).room_code(room_id as int) && *final(self) == *old(self)
                } else {
                    valid_code(code@) && !old(self).has_code(code@) && final(self).codes@ == old(
                        self,
                    ).codes@.push((Invitation { code: code, room_id: room_id }))
                }
                &&& final(self).users@ == old(self).users@
                &&& final(self).sessions@ == old(self).sessions@
                &&& final(self).rooms@ == old(self).rooms@
                &&& final(self).members@ == old(self).members@
                &&& final(self).next_user_id == old(self).next_user_id
                &&& final(self).next_room_id == old(self).next_room_id
            },
            r is Err ==> (r matches Err(InternalFailure::CodeAllocation) && *final(self) == *old(
                self,
            )),
            (r matches Ok(InvitationCodeOutcome::NotLoggedIn) || r matches Ok(InvitationCodeOutcome::NotOwner))
                ==> *final(self) == *old(self),
    {
        let session_idx = match self.find_session(&session_uuid) {
            Some(i) => i,
            None => {
                return Ok(InvitationCodeOutcome::NotLoggedIn);
            },
        };
        proof {
            self.lemma_session_index(session_idx as int);
        }
        let user_id = self.sessions[session_idx].user_id;

        let room_idx = match self.find_room(room_id) {
            Some(i) => i,
            None => {
                return Ok(InvitationCodeOutcome::NotOwner);
            },
        };
        proof {
            self.lemma_room_index(room_idx as int);
        }
        if self.rooms[room_idx].owner != user_id {
            return Ok(InvitationCodeOutcome::NotOwner);
        }
        if let Some(code_idx) = self.find_code_for_room(room_id) {
            proof {
                self.lemma_room_code_index(code_idx as int);
                self.lemma_code_index(code_idx as int);
            }
            return Ok(InvitationCodeOutcome::Success(self.codes[code_idx].code.clone()));
        }
        let mut attempts: usize = CODE_ATTEMPTS;
        #[verifier::loop_isolation(false)]
        while attempts > 0
            invariant
                *self == *old(self),
            decreases attempts,
        {
            let candidate = generate_invitation_code();
            if self.find_code(&candidate).is_none() {
                self.codes.push(Invitation { code: candidate.clone(), room_id });
                proof {
                    let pre = *old(self);
                    let n = pre.codes@.len() as int;
                    assert(forall|k: int| 0 <= k < n ==> pre.codes@[k].code@ != candidate@);
                    assert(forall|k: int| 0 <= k < n ==> pre.codes@[k].room_id != room_id);
                    assert(self.codes@[n] == (Invitation { code: candidate, room_id: room_id }));
                    Database::lemma_user_lookups(pre, *self);
                    Database::lemma_session_lookups(pre, *self);
                    Database::lemma_room_lookups(pre, *self);
                    Database::lemma_member_lookups(pre, *self);
                    assert(self.wf());
                    self.lemma_room_code_index(n);
                    self.lemma_code_index(n);
                }
                return Ok(InvitationCodeOutcome::Success(candidate));
            }
            attempts = attempts - 1;
        }
        Err(InternalFailure::CodeAllocation)
    }
}

} // verus!
