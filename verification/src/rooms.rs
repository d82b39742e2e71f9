//! Rooms: created with their owner as first member, joined through
//! invitation codes, left by non-owners, deleted (with members and code)
//! by their owner.

use vstd::prelude::*;

use crate::database::{pair_in, Database};
use crate::outcomes::{
    CreateRoomOutcome, DeleteRoomOutcome, GetRoomOutcome, InternalFailure, JoinRoomOutcome,
    LeaveRoomOutcome,
};
use crate::types::{Membership, NewRoom, Room, RoomRecord};

verus! {

/// Pushing a row onto a membership table adds exactly its pair.
pub proof fn lemma_pair_in_push(s: Seq<Membership>, m: Membership)
    ensures
        forall|rr: int, uu: int|
            pair_in(s.push(m), rr, uu) == (pair_in(s, rr, uu) || (rr == m.room_id as int && uu
                == m.user_id as int)),
{
    assert forall|rr: int, uu: int|
        pair_in(s.push(m), rr, uu) == (pair_in(s, rr, uu) || (rr == m.room_id as int && uu
            == m.user_id as int)) by {
        if pair_in(s, rr, uu) {
            let w = choose|i: int|
                0 <= i < s.len() && s[i].room_id == rr && s[i].user_id == uu;
            assert(s.push(m)[w] == s[w]);
            assert(pair_in(s.push(m), rr, uu));
        }
        if rr == m.room_id as int && uu == m.user_id as int {
            assert(s.push(m)[s.len() as int] == m);
            assert(pair_in(s.push(m), rr, uu));
        }
        if pair_in(s.push(m), rr, uu) {
            let w = choose|i: int|
                0 <= i < s.push(m).len() && s.push(m)[i].room_id == rr && s.push(m)[i].user_id
                    == uu;
            if w < s.len() {
                assert(s[w] == s.push(m)[w]);
                assert(pair_in(s, rr, uu));
            } else {
                assert(s.push(m)[w] == m);
            }
        }
    }
}

impl Database {
    /// Keeps the rows whose membership belongs to this user.
    pub open spec fn member_filter(user_id: int) -> spec_fn(Membership) -> bool {
        |m: Membership| m.user_id as int == user_id
    }

    /// Reads off the room a membership row points into.
    pub open spec fn summary_of_member(self) -> spec_fn(Membership) -> Room {
        |m: Membership| self.room_record(m.room_id as int).summary()
    }

    /// What listing rooms for a user yields: one entry per membership row
    /// of the user, in table order, each showing the room it points into.
    pub open spec fn member_rooms(self, user_id: int) -> Seq<Room> {
        self.members@.filter(Database::member_filter(user_id)).map_values(
            self.summary_of_member(),
        )
    }

    /// The same, over only the first `n` membership rows.
    pub open spec fn member_rooms_upto(self, user_id: int, n: int) -> Seq<Room> {
        self.members@.take(n).filter(Database::member_filter(user_id)).map_values(
            self.summary_of_member(),
        )
    }

    /// Lists the rooms the caller is a member of, each with its name and
    /// description, in membership-table order. Read-only.
    pub fn get_rooms(&self, session_uuid: String) -> (r: GetRoomOutcome)
        requires
            self.wf(),
        ensures
            (r matches GetRoomOutcome::NotLoggedIn) <==> !self.has_session(session_uuid@),
            r matches GetRoomOutcome::Success(rooms) ==> self.has_session(session_uuid@)
                && rooms@ == self.member_rooms(self.session_user(session_uuid@) as int),
    {
        let session_idx = match self.find_session(&session_uuid) {
            Some(i) => i,
            None => {
                return GetRoomOutcome::NotLoggedIn;
            },
        };
        proof {
            self.lemma_session_index(session_idx as int);
        }
        let user_id = self.sessions[session_idx].user_id;
        let mut result: Vec<Room> = Vec::new();
        let n = self.members.len();
        for i in 0..n
            invariant
                n == self.members@.len(),
                self.wf(),
                result@ == self.member_rooms_upto(user_id as int, i as int),
        {
            let m = self.members[i];
            if m.user_id == user_id {
                if let Some(room_idx) = self.find_room(m.room_id) {
                    proof {
                        self.lemma_room_index(room_idx as int);
                    }
                    result.push(
                        Room {
                            name: self.rooms[room_idx].name.clone(),
                            description: self.rooms[room_idx].description.clone(),
                        },
                    );
                } else {
                    proof {
                        assert(self.has_room(m.room_id as int));
                        assert(false);
                    }
                }
            }
            proof {
                let s = self.members@;
                let pred = Database::member_filter(user_id as int);
                let f = self.summary_of_member();
                reveal_with_fuel(Seq::filter, 2);
                assert(s.take(i + 1).drop_last() =~= s.take(i as int));
                assert(s.take(i + 1).last() == s[i as int]);
                if pred(s[i as int]) {
                    assert(s.take(i + 1).filter(pred) == s.take(i as int).filter(pred).push(
                        s[i as int],
                    ));
                    assert(s.take(i as int).filter(pred).push(s[i as int]).map_values(f) =~= s.take(
                        i as int,
                    ).filter(pred).map_values(f).push(f(s[i as int])));
                } else {
                    assert(s.take(i + 1).filter(pred) == s.take(i as int).filter(pred));
                }
            }
        }
        proof {
            assert(self.members@.take(n as int) =~= self.members@);
        }
        GetRoomOutcome::Success(result)
    }

    /// Creates a room owned by the caller, inserting the room row and the
    /// owner's membership row together: both or neither.
    pub fn create_room(&mut self, session_uuid: String, room_data: NewRoom) -> (r: Result<
        CreateRoomOutcome,
        InternalFailure,
    >)
        requires
            old(self).wf(),
        ensures
            final(self).wf(),
            (r matches Ok(CreateRoomOutcome::NotLoggedIn)) <==> !old(self).has_session(
                session_uuid@,
            ),
            (r matches Err(InternalFailure::IdSpaceExhausted)) <==> (old(self).has_session(
                session_uuid@,
            ) && old(self).next_room_id == i32::MAX),
            (r matches Ok(CreateRoomOutcome::Success)) <==> (old(self).has_session(session_uuid@)
                && old(self).next_room_id < i32::MAX),
            r matches Ok(CreateRoomOutcome::Success) ==> {
                let owner = old(self).session_user(session_uuid@);
                let room_id = old(self).next_room_id;
                &&& final(self).rooms@ == old(self).rooms@.push(
                    (RoomRecord {
                        id: room_id,
                        owner: owner,
                        name: room_data.name,
                        description: room_data.description,
                    }),
                )
                &&& final(self).members@ == old(self).members@.push(
                    (Membership { room_id: room_id, user_id: owner }),
                )
                &&& !old(self).has_room(room_id as int)
                &&& final(self).has_room(room_id as int)
                &&& final(self).owns(owner as int, room_id as int)
                &&& final(self).is_member(room_id as int, owner as int)
                &&& final(self).next_room_id == old(self).next_room_id + 1
                &&& final(self).users@ == old(self).users@
                &&& final(self).sessions@ == old(self).sessions@
                &&& final(self).codes@ == old(self).codes@
                &&& final(self).next_user_id == old(self).next_user_id
            },
            !(r matches Ok(CreateRoomOutcome::Success)) ==> *final(self) == *old(self),
    {
        let session_idx = match self.find_session(&session_uuid) {
            Some(i) => i,
            None => {
                return Ok(CreateRoomOutcome::NotLoggedIn);
            },
        };
        proof {
            self.lemma_session_index(session_idx as int);
        }
        let owner = self.sessions[session_idx].user_id;
        if self.next_room_id == i32::MAX {
            return Err(InternalFailure::IdSpaceExhausted);
        }
        let ghost pre = *self;
        let room_id = self.next_room_id;
        self.rooms.push(
            RoomRecord {
                id: room_id,
                owner,
                name: room_data.name,
                description: room_data.description,
            },
        );
        self.members.push(Membership { room_id, user_id: owner });
        self.next_room_id = self.next_room_id + 1;
        proof {
            let ghost rec = self.rooms@.last();
            let ghost m = (Membership { room_id: room_id, user_id: owner });
            Database::lemma_room_push(pre, *self, rec);
            Database::lemma_member_push(pre, *self, m);
            Database::lemma_user_lookups(pre, *self);
            Database::lemma_session_lookups(pre, *self);
            Database::lemma_code_lookups(pre, *self);
            assert(!pre.has_room(room_id as int));
            assert forall|k: int| 0 <= k < pre.members@.len() implies pre.members@[k].room_id
                != room_id by {
                assert(pre.has_room(pre.members@[k].room_id as int));
                let w = pre.room_index(pre.members@[k].room_id as int);
                assert(1 <= pre.rooms@[w].id < pre.next_room_id);
            }
            assert forall|k: int| 0 <= k < self.rooms@.len() implies self.has_user_id(
                self.rooms@[k].owner as int,
            ) by {
                if k < pre.rooms@.len() {
                    assert(pre.has_user_id(pre.rooms@[k].owner as int));
                } else {
                    assert(pre.has_user_id(owner as int));
                }
            }
            assert forall|k: int| 0 <= k < self.sessions@.len() implies self.has_user_id(
                self.sessions@[k].user_id as int,
            ) by {
                assert(pre.has_user_id(pre.sessions@[k].user_id as int));
            }
            assert forall|k: int| 0 <= k < self.members@.len() implies self.has_room(
                self.members@[k].room_id as int,
            ) by {
                if k < pre.members@.len() {
                    assert(pre.has_room(pre.members@[k].room_id as int));
                } else {
                    assert(self.has_room(room_id as int));
                }
            }
            assert forall|k: int| 0 <= k < self.codes@.len() implies self.has_room(
                self.codes@[k].room_id as int,
            ) by {
                assert(pre.has_room(pre.codes@[k].room_id as int));
            }
            assert forall|k: int| 0 <= k < self.rooms@.len() implies self.is_member(
                self.rooms@[k].id as int,
                self.rooms@[k].owner as int,
            ) by {
                if k < pre.rooms@.len() {
                    assert(pre.is_member(pre.rooms@[k].id as int, pre.rooms@[k].owner as int));
                }
            }
            assert(self.wf());
            self.lemma_room_index(self.rooms@.len() - 1);
        }
        Ok(CreateRoomOutcome::Success)
    }

    /// Admits the caller to the room an invitation code names.
    ///
    /// An unknown code is refused and changes nothing; a caller who is
    /// already a member is told so and nothing changes; otherwise exactly
    /// one membership row is added.
    pub fn join_room(&mut self, session_uuid: String, code: String) -> (r: JoinRoomOutcome)
        requires
            old(self).wf(),
        ensures
            final(self).wf(),
            (r == JoinRoomOutcome::NotLoggedIn) <==> !old(self).has_session(session_uuid@),
            (r == JoinRoomOutcome::InvalidCode) <==> (old(self).has_session(session_uuid@) && !old(
                self,
            ).has_code(code@)),
            (r == JoinRoomOutcome::AlreadyMember) <==> (old(self).has_session(session_uuid@)
                && old(self).has_code(code@) && old(self).is_member(
                old(self).code_room(code@) as int,
                old(self).session_user(session_uuid@) as int,
            )),
            (r == JoinRoomOutcome::Success) <==> (old(self).has_session(session_uuid@) && old(
                self,
            ).has_code(code@) && !old(self).is_member(
                old(self).code_room(code@) as int,
                old(self).session_user(session_uuid@) as int,
            )),
            r == JoinRoomOutcome::Success ==> {
                let room_id = old(self).code_room(code@);
                let user_id = old(self).session_user(session_uuid@);
                &&& final(self).members@ == old(self).members@.push(
                    (Membership { room_id: room_id, user_id: user_id }),
                )
                &&& final(self).is_member(room_id as int, user_id as int)
                &&& final(self).users@ == old(self).users@
                &&& final(self).sessions@ == old(self).sessions@
                &&& final(self).rooms@ == old(self).rooms@
                &&& final(self).codes@ == old(self).codes@
                &&& final(self).next_user_id == old(self).next_user_id
                &&& final(self).next_room_id == old(self).next_room_id
            },
            r != JoinRoomOutcome::Success ==> *final(self) == *old(self),
    {
        let session_idx = match self.find_session(&session_uuid) {
            Some(i) => i,
            None => {
                return JoinRoomOutcome::NotLoggedIn;
            },
        };
        proof {
            self.lemma_session_index(session_idx as int);
        }
        let user_id = self.sessions[session_idx].user_id;
        let code_idx = match self.find_code(&code) {
            Some(i) => i,
            None => {
                return JoinRoomOutcome::InvalidCode;
            },
        };
        proof {
            self.lemma_code_index(code_idx as int);
        }
        let room_id = self.codes[code_idx].room_id;
        if self.find_member(room_id, user_id).is_some() {
            return JoinRoomOutcome::AlreadyMember;
        }
        let ghost pre = *self;
        self.members.push(Membership { room_id, user_id });
        proof {
            let ghost m = (Membership { room_id: room_id, user_id: user_id });
            Database::lemma_member_push(pre, *self, m);
            Database::lemma_user_lookups(pre, *self);
            Database::lemma_session_lookups(pre, *self);
            Database::lemma_room_lookups(pre, *self);
            Database::lemma_code_lookups(pre, *self);
            assert forall|k: int| 0 <= k < self.members@.len() implies self.has_room(
                self.members@[k].room_id as int,
            ) by {
                if k < pre.members@.len() {
                    assert(pre.has_room(pre.members@[k].room_id as int));
                } else {
                    assert(pre.has_room(pre.codes@[code_idx as int].room_id as int));
                }
            }
            assert forall|k: int| 0 <= k < self.rooms@.len() implies self.is_member(
                self.rooms@[k].id as int,
                self.rooms@[k].owner as int,
            ) by {
                assert(pre.is_member(pre.rooms@[k].id as int, pre.rooms@[k].owner as int));
            }
            assert(self.wf());
        }
        JoinRoomOutcome::Success
    }

    /// Keeps the membership rows that do not belong to this room.
    pub open spec fn other_rooms_filter(room_id: int) -> spec_fn(Membership) -> bool {
        |m: Membership| m.room_id as int != room_id
    }

    /// Deletes a room: the room row, every membership row of the room and
    /// its invitation code go together, in one step.
    ///
    /// Only the owner may delete; a missing room reads as `NotOwner`,
    /// failing closed.
    pub fn delete_room(&mut self, session_uuid: String, room_id: i32) -> (r: DeleteRoomOutcome)
        requires
            old(self).wf(),
        ensures
            final(self).wf(),
            (r == DeleteRoomOutcome::NotLoggedIn) <==> !old(self).has_session(session_uuid@),
            (r == DeleteRoomOutcome::NotOwner) <==> (old(self).has_session(session_uuid@) && !old(
                self,
            ).owns(old(self).session_user(session_uuid@) as int, room_id as int)),
            (r == DeleteRoomOutcome::Success) <==> (old(self).has_session(session_uuid@) && old(
                self,
            ).owns(old(self).session_user(session_uuid@) as int, room_id as int)),
            r == DeleteRoomOutcome::Success ==> {
                &&& final(self).rooms@ == old(self).rooms@.remove(
                    old(self).room_index(room_id as int),
                )
                &&& !final(self).has_room(room_id as int)
                &&& forall|id: int|
                    id != room_id as int ==> final(self).has_room(id) == old(self).has_room(id)
                &&& final(self).members@ == old(self).members@.filter(
                    Database::other_rooms_filter(room_id as int),
                )
                &&& forall|rr: int, uu: int|
                    final(self).is_member(rr, uu) == (old(self).is_member(rr, uu) && rr
                        != room_id as int)
                &&& final(self).codes@ == (if old(self).room_has_code(room_id as int) {
                    old(self).codes@.remove(old(self).room_code_index(room_id as int))
                } else {
                    old(self).codes@
                })
                &&& !final(self).room_has_code(room_id as int)
                &&& forall|rid: int|
                    rid != room_id as int ==> final(self).room_has_code(rid) == old(
                        self,
                    ).room_has_code(rid)
                &&& final(self).users@ == old(self).users@
                &&& final(self).sessions@ == old(self).sessions@
                &&& final(self).next_user_id == old(self).next_user_id
                &&& final(self).next_room_id == old(self).next_room_id
            },
            r != DeleteRoomOutcome::Success ==> *final(self) == *old(self),
    {
        let session_idx = match self.find_session(&session_uuid) {
            Some(i) => i,
            None => {
                return DeleteRoomOutcome::NotLoggedIn;
            },
        };
        proof {
            self.lemma_session_index(session_idx as int);
        }
        let user_id = self.sessions[session_idx].user_id;
        let room_idx = match self.find_room(room_id) {
            Some(i) => i,
            None => {
                return DeleteRoomOutcome::NotOwner;
            },
        };
        proof {
            self.lemma_room_index(room_idx as int);
        }
        if self.rooms[room_idx].owner != user_id {
            return DeleteRoomOutcome::NotOwner;
        }
        let ghost pre = *self;
        self.rooms.remove(room_idx);
        proof {
            Database::lemma_room_remove(pre, *self, room_idx as int);
            pre.rooms@.remove_ensures(room_idx as int);
        }
        let ghost pred = Database::other_rooms_filter(room_id as int);
        let mut kept: Vec<Membership> = Vec::new();
        let n = self.members.len();
        #[verifier::loop_isolation(false)]
        for i in 0..n
            invariant
                n == self.members@.len(),
                kept@ == self.members@.take(i as int).filter(pred),
                forall|rr: int, uu: int|
                    pair_in(kept@, rr, uu) == (pair_in(self.members@.take(i as int), rr, uu) && rr
                        != room_id as int),
                forall|k1: int, k2: int|
                    0 <= k1 < kept@.len() && 0 <= k2 < kept@.len() && k1 != k2 ==> !(kept@[k1].room_id
                        == kept@[k2].room_id && kept@[k1].user_id == kept@[k2].user_id),
                forall|k: int|
                    0 <= k < kept@.len() ==> (#[trigger] kept@[k]).room_id != room_id
                        && self.has_room(kept@[k].room_id as int),
        {
            let m = self.members[i];
            let ghost kept_before = kept@;
            if m.room_id != room_id {
                proof {
                    assert(pre.has_room(m.room_id as int));
                    assert(!pair_in(kept_before, m.room_id as int, m.user_id as int)) by {
                        if pair_in(kept_before, m.room_id as int, m.user_id as int) {
                            let j = choose|j: int|
                                0 <= j < self.members@.take(i as int).len()
                                    && self.members@.take(i as int)[j].room_id == m.room_id as int
                                    && self.members@.take(i as int)[j].user_id == m.user_id as int;
                            assert(self.members@[j] == self.members@.take(i as int)[j]);
                        }
                    }
                }
                kept.push(m);
            }
            proof {
                let s = self.members@;
                reveal_with_fuel(Seq::filter, 2);
                assert(s.take(i + 1).drop_last() =~= s.take(i as int));
                assert(s.take(i + 1).last() == s[i as int]);
                lemma_pair_in_push(s.take(i as int), s[i as int]);
                if pred(s[i as int]) {
                    lemma_pair_in_push(kept_before, s[i as int]);
                    assert(s.take(i + 1).filter(pred) == s.take(i as int).filter(pred).push(
                        s[i as int],
                    ));
                } else {
                    assert(s.take(i + 1).filter(pred) == s.take(i as int).filter(pred));
                }
                assert(s.take(i + 1) =~= s.take(i as int).push(s[i as int]));
                assert forall|rr: int, uu: int|
                    pair_in(kept@, rr, uu) == (pair_in(s.take(i + 1), rr, uu) && rr
                        != room_id as int) by {
                    assert(pair_in(s.take(i + 1), rr, uu) == (pair_in(s.take(i as int), rr, uu)
                        || (rr == s[i as int].room_id as int && uu == s[i as int].user_id as int)));
                    if pred(s[i as int]) {
                        assert(pair_in(kept@, rr, uu) == (pair_in(kept_before, rr, uu) || (rr
                            == s[i as int].room_id as int && uu == s[i as int].user_id as int)));
                    }
                }
            }
        }
        proof {
            assert(self.members@.take(n as int) =~= self.members@);
        }
        self.members = kept;
        let ghost mid = *self;
        proof {
            Database::lemma_user_lookups(pre, *self);
            Database::lemma_session_lookups(pre, *self);
            Database::lemma_code_lookups(pre, *self);
        }
        if let Some(code_idx) = self.find_code_for_room(room_id) {
            proof {
                pre.lemma_room_code_index(code_idx as int);
                pre.lemma_code_index(code_idx as int);
            }
            self.codes.remove(code_idx);
            proof {
                assert(mid.codes_unique());
                assert(mid.code_rooms_unique());
                Database::lemma_code_remove(mid, *self, code_idx as int);
                mid.codes@.remove_ensures(code_idx as int);
            }
        } else {
            proof {
                assert(!pre.room_has_code(room_id as int));
            }
        }
        proof {
            let post = *self;
            Database::lemma_user_lookups(pre, post);
            Database::lemma_session_lookups(pre, post);
            assert forall|k: int| 0 <= k < post.sessions@.len() implies post.has_user_id(
                post.sessions@[k].user_id as int,
            ) by {
                assert(pre.has_user_id(pre.sessions@[k].user_id as int));
            }
            assert forall|k: int| 0 <= k < post.rooms@.len() implies (1 <= (
            #[trigger] post.rooms@[k]).id < post.next_room_id && post.has_user_id(
                post.rooms@[k].owner as int,
            ) && post.rooms@[k].id != room_id) by {
                let k1: int = if k < room_idx as int {
                    k
                } else {
                    k + 1
                };
                assert(post.rooms@[k] == pre.rooms@[k1]);
                assert(pre.has_user_id(pre.rooms@[k1].owner as int));
            }
            assert forall|k: int| 0 <= k < post.rooms@.len() implies post.is_member(
                post.rooms@[k].id as int,
                post.rooms@[k].owner as int,
            ) by {
                let k1: int = if k < room_idx as int {
                    k
                } else {
                    k + 1
                };
                assert(post.rooms@[k] == pre.rooms@[k1]);
                assert(pre.is_member(pre.rooms@[k1].id as int, pre.rooms@[k1].owner as int));
                assert(pair_in(post.members@, pre.rooms@[k1].id as int, pre.rooms@[k1].owner as int));
            }
            assert forall|k: int| 0 <= k < post.codes@.len() implies post.has_room(
                (#[trigger] post.codes@[k]).room_id as int,
            ) by {
                assert(pre.has_code(post.codes@[k].code@)) by {
                    if pre.room_has_code(room_id as int) {
                        let ci = pre.room_code_index(room_id as int);
                        pre.codes@.remove_ensures(ci);
                        let k1: int = if k < ci {
                            k
                        } else {
                            k + 1
                        };
                        assert(post.codes@[k] == pre.codes@[k1]);
                        pre.lemma_code_index(k1);
                    } else {
                        pre.lemma_code_index(k);
                    }
                }
                let w = pre.code_index(post.codes@[k].code@);
                assert(pre.codes@[w].code@ == post.codes@[k].code@);
                assert(pre.has_room(pre.codes@[w].room_id as int));
                assert(!post.room_has_code(room_id as int));
                assert(post.codes@[k].room_id != room_id);
                assert(pre.codes@[w] == post.codes@[k]) by {
                    if pre.room_has_code(room_id as int) {
                        let ci = pre.room_code_index(room_id as int);
                        pre.codes@.remove_ensures(ci);
                        let k1: int = if k < ci {
                            k
                        } else {
                            k + 1
                        };
                        assert(post.codes@[k] == pre.codes@[k1]);
                        pre.lemma_code_index(k1);
                    } else {
                        pre.lemma_code_index(k);
                    }
                }
            }
            assert(post.user_ids_unique());
            assert(post.emails_unique());
            assert(post.user_ids_bounded());
            assert(post.tokens_unique());
            assert(post.session_users_exist());
            assert(post.room_ids_unique());
            assert(post.room_ids_bounded());
            assert(post.room_owners_exist());
            assert(post.memberships_unique());
            assert(post.membership_rooms_exist());
            assert(post.owners_are_members());
            assert(post.codes_unique());
            assert(post.code_rooms_unique());
            assert(post.code_rooms_exist());
            assert(post.wf());
        }
        DeleteRoomOutcome::Success
    }

    /// Removes the caller's membership row in a room.
    ///
    /// The room's owner is refused with `OwnerCannotLeave` and nothing
    /// changes: a room is deleted, never abandoned. A caller who is no
    /// member is told so and nothing changes.
    pub fn leave_room(&mut self, session_uuid: String, room_id: i32) -> (r: LeaveRoomOutcome)
        requires
            old(self).wf(),
        ensures
            final(self).wf(),
            (r == LeaveRoomOutcome::NotLoggedIn) <==> !old(self).has_session(session_uuid@),
            (r == LeaveRoomOutcome::OwnerCannotLeave) <==> (old(self).has_session(session_uuid@)
                && old(self).owns(old(self).session_user(session_uuid@) as int, room_id as int)),
            (r == LeaveRoomOutcome::NotMember) <==> (old(self).has_session(session_uuid@) && !old(
                self,
            ).owns(old(self).session_user(session_uuid@) as int, room_id as int) && !old(
                self,
            ).is_member(room_id as int, old(self).session_user(session_uuid@) as int)),
            (r == LeaveRoomOutcome::Success) <==> (old(self).has_session(session_uuid@) && !old(
                self,
            ).owns(old(self).session_user(session_uuid@) as int, room_id as int) && old(
                self,
            ).is_member(room_id as int, old(self).session_user(session_uuid@) as int)),
            r == LeaveRoomOutcome::Success ==> {
                let user_id = old(self).session_user(session_uuid@);
                &&& final(self).members@ == old(self).members@.remove(
                    old(self).member_index(room_id as int, user_id as int),
                )
                &&& !final(self).is_member(room_id as int, user_id as int)
                &&& forall|rr: int, uu: int|
                    !(rr == room_id as int && uu == user_id as int) ==> final(self).is_member(
                        rr,
                        uu,
                    ) == old(self).is_member(rr, uu)
                &&& final(self).users@ == old(self).users@
                &&& final(self).sessions@ == old(self).sessions@
                &&& final(self).rooms@ == old(self).rooms@
                &&& final(self).codes@ == old(self).codes@
                &&& final(self).next_user_id == old(self).next_user_id
                &&& final(self).next_room_id == old(self).next_room_id
            },
            r != LeaveRoomOutcome::Success ==> *final(self) == *old(self),
    {
        let session_idx = match self.find_session(&session_uuid) {
            Some(i) => i,
            None => {
                return LeaveRoomOutcome::NotLoggedIn;
            },
        };
        proof {
            self.lemma_session_index(session_idx as int);
        }
        let user_id = self.sessions[session_idx].user_id;
        if let Some(room_idx) = self.find_room(room_id) {
            proof {
                self.lemma_room_index(room_idx as int);
            }
            if self.rooms[room_idx].owner == user_id {
                return LeaveRoomOutcome::OwnerCannotLeave;
            }
        }
        let member_idx = match self.find_member(room_id, user_id) {
            Some(i) => i,
            None => {
                return LeaveRoomOutcome::NotMember;
            },
        };
        proof {
            self.lemma_member_index(member_idx as int);
        }
        let ghost pre = *self;
        self.members.remove(member_idx);
        proof {
            Database::lemma_member_remove(pre, *self, member_idx as int);
            Database::lemma_user_lookups(pre, *self);
            Database::lemma_session_lookups(pre, *self);
            Database::lemma_room_lookups(pre, *self);
            Database::lemma_code_lookups(pre, *self);
            pre.members@.remove_ensures(member_idx as int);
            assert forall|k: int| 0 <= k < self.members@.len() implies self.has_room(
                self.members@[k].room_id as int,
            ) by {
                let k1: int = if k < member_idx as int {
                    k
                } else {
                    k + 1
                };
                assert(self.members@[k] == pre.members@[k1]);
                assert(pre.has_room(pre.members@[k1].room_id as int));
            }
            assert forall|k: int| 0 <= k < self.rooms@.len() implies self.is_member(
                self.rooms@[k].id as int,
                self.rooms@[k].owner as int,
            ) by {
                assert(pre.is_member(pre.rooms@[k].id as int, pre.rooms@[k].owner as int));
                if pre.rooms@[k].id == room_id {
                    pre.lemma_room_index(k);
                    assert(pre.rooms@[k].owner != user_id);
                }
            }
            assert(self.wf());
        }
        LeaveRoomOutcome::Success
    }
}

} // verus!
