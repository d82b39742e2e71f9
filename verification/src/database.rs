//! The service state: five tables held in one value, with the invariants
//! that every operation preserves.

use vstd::prelude::*;

use crate::types::{Invitation, Membership, RoomRecord, Session, User};

verus! {

/// The membership relation over a bare table: some row carries this pair.
pub open spec fn pair_in(s: Seq<Membership>, room_id: int, user_id: int) -> bool {
    exists|i: int| 0 <= i < s.len() && s[i].room_id == room_id && s[i].user_id == user_id
}

/// The whole state of the service: users, active sessions, rooms, room
/// memberships and invitation codes, plus the counters that hand out fresh
/// row ids.
pub struct Database {
    pub users: Vec<User>,
    pub sessions: Vec<Session>,
    pub rooms: Vec<RoomRecord>,
    pub members: Vec<Membership>,
    pub codes: Vec<Invitation>,
    pub next_user_id: i32,
    pub next_room_id: i32,
}

impl Database {
    // ----- users -----

    /// Some user row carries this email.
    pub open spec fn has_user_with_email(self, email: Seq<char>) -> bool {
        exists|i: int| 0 <= i < self.users@.len() && self.users@[i].email@ == email
    }

    /// The index of the row carrying this email (meaningful when
    /// `has_user_with_email` holds; under `wf` it is unique).
    pub open spec fn user_index_of_email(self, email: Seq<char>) -> int {
        choose|i: int| 0 <= i < self.users@.len() && self.users@[i].email@ == email
    }

    /// The user row carrying this email.
    pub open spec fn user_for_email(self, email: Seq<char>) -> User {
        self.users@[self.user_index_of_email(email)]
    }

    /// Some user row carries this id.
    pub open spec fn has_user_id(self, id: int) -> bool {
        exists|i: int| 0 <= i < self.users@.len() && self.users@[i].id == id
    }

    // ----- sessions -----

    /// Some session row carries this token.
    pub open spec fn has_session(self, token: Seq<char>) -> bool {
        exists|i: int| 0 <= i < self.sessions@.len() && self.sessions@[i].token@ == token
    }

    /// The index of the session row carrying this token.
    pub open spec fn session_index(self, token: Seq<char>) -> int {
        choose|i: int| 0 <= i < self.sessions@.len() && self.sessions@[i].token@ == token
    }

    /// The user bound to this token.
    pub open spec fn session_user(self, token: Seq<char>) -> i32 {
        self.sessions@[self.session_index(token)].user_id
    }

    /// What verifying a token yields: the bound user id, or nothing.
    pub open spec fn resolved_user(self, token: Seq<char>) -> Option<i32> {
        if self.has_session(token) {
            Some(self.session_user(token))
        } else {
            None
        }
    }

    // ----- rooms -----

    /// Some room row carries this id.
    pub open spec fn has_room(self, room_id: int) -> bool {
        exists|i: int| 0 <= i < self.rooms@.len() && self.rooms@[i].id == room_id
    }

    /// The index of the room row carrying this id.
    pub open spec fn room_index(self, room_id: int) -> int {
        choose|i: int| 0 <= i < self.rooms@.len() && self.rooms@[i].id == room_id
    }

    /// The room row carrying this id.
    pub open spec fn room_record(self, room_id: int) -> RoomRecord {
        self.rooms@[self.room_index(room_id)]
    }

    /// The ownership check, failing closed: a room that does not exist
    /// reads as not owned, so the answer leaks no room existence.
    pub open spec fn owns(self, user_id: int, room_id: int) -> bool {
        self.has_room(room_id) && self.room_record(room_id).owner == user_id
    }

    // ----- memberships -----

    /// The membership relation.
    pub open spec fn is_member(self, room_id: int, user_id: int) -> bool {
        pair_in(self.members@, room_id, user_id)
    }

    /// The index of the membership row for this pair.
    pub open spec fn member_index(self, room_id: int, user_id: int) -> int {
        choose|i: int|
            0 <= i < self.members@.len() && self.members@[i].room_id == room_id
                && self.members@[i].user_id == user_id
    }

    // ----- invitation codes -----

    /// Some invitation row carries this code.
    pub open spec fn has_code(self, code: Seq<char>) -> bool {
        exists|i: int| 0 <= i < self.codes@.len() && self.codes@[i].code@ == code
    }

    /// The index of the invitation row carrying this code.
    pub open spec fn code_index(self, code: Seq<char>) -> int {
        choose|i: int| 0 <= i < self.codes@.len() && self.codes@[i].code@ == code
    }

    /// What resolving a code yields: the room it admits to, or nothing.
    pub open spec fn code_room(self, code: Seq<char>) -> i32 {
        self.codes@[self.code_index(code)].room_id
    }

    /// Some invitation row belongs to this room.
    pub open spec fn room_has_code(self, room_id: int) -> bool {
        exists|i: int| 0 <= i < self.codes@.len() && self.codes@[i].room_id == room_id
    }

    /// The index of the invitation row belonging to this room.
    pub open spec fn room_code_index(self, room_id: int) -> int {
        choose|i: int| 0 <= i < self.codes@.len() && self.codes@[i].room_id == room_id
    }

    /// The code belonging to this room.
    pub open spec fn room_code(self, room_id: int) -> Seq<char> {
        self.codes@[self.room_code_index(room_id)].code@
    }

    // ----- invariants -----

    /// User ids are pairwise distinct.
    pub open spec fn user_ids_unique(self) -> bool {
        forall|i: int, j: int|
            0 <= i < self.users@.len() && 0 <= j < self.users@.len() && i != j
                ==> self.users@[i].id != self.users@[j].id
    }

    /// Emails are pairwise distinct.
    pub open spec fn emails_unique(self) -> bool {
        forall|i: int, j: int|
            0 <= i < self.users@.len() && 0 <= j < self.users@.len() && i != j
                ==> self.users@[i].email@ != self.users@[j].email@
    }

    /// Every user id was handed out by the counter.
    pub open spec fn user_ids_bounded(self) -> bool {
        forall|i: int|
            0 <= i < self.users@.len() ==> 1 <= #[trigger] self.users@[i].id < self.next_user_id
    }

    /// Session tokens are pairwise distinct: one user per token.
    pub open spec fn tokens_unique(self) -> bool {
        forall|i: int, j: int|
            0 <= i < self.sessions@.len() && 0 <= j < self.sessions@.len() && i != j
                ==> self.sessions@[i].token@ != self.sessions@[j].token@
    }

    /// Every session is bound to a registered user.
    pub open spec fn session_users_exist(self) -> bool {
        forall|i: int|
            0 <= i < self.sessions@.len() ==> self.has_user_id(self.sessions@[i].user_id as int)
    }

    /// Room ids are pairwise distinct.
    pub open spec fn room_ids_unique(self) -> bool {
        forall|i: int, j: int|
            0 <= i < self.rooms@.len() && 0 <= j < self.rooms@.len() && i != j
                ==> self.rooms@[i].id != self.rooms@[j].id
    }

    /// Every room id was handed out by the counter.
    pub open spec fn room_ids_bounded(self) -> bool {
        forall|i: int|
            0 <= i < self.rooms@.len() ==> 1 <= #[trigger] self.rooms@[i].id < self.next_room_id
    }

    /// Every room is owned by a registered user.
    pub open spec fn room_owners_exist(self) -> bool {
        forall|i: int|
            0 <= i < self.rooms@.len() ==> self.has_user_id(self.rooms@[i].owner as int)
    }

    /// Membership pairs are pairwise distinct.
    pub open spec fn memberships_unique(self) -> bool {
        forall|i: int, j: int|
            0 <= i < self.members@.len() && 0 <= j < self.members@.len() && i != j
                ==> !(self.members@[i].room_id == self.members@[j].room_id
                    && self.members@[i].user_id == self.members@[j].user_id)
    }

    /// Membership implies the room exists.
    pub open spec fn membership_rooms_exist(self) -> bool {
        forall|i: int|
            0 <= i < self.members@.len() ==> self.has_room(self.members@[i].room_id as int)
    }

    /// The owner of every room is a member of it.
    pub open spec fn owners_are_members(self) -> bool {
        forall|i: int|
            0 <= i < self.rooms@.len()
                ==> self.is_member(self.rooms@[i].id as int, self.rooms@[i].owner as int)
    }

    /// Invitation codes are pairwise distinct: a code admits to one room.
    pub open spec fn codes_unique(self) -> bool {
        forall|i: int, j: int|
            0 <= i < self.codes@.len() && 0 <= j < self.codes@.len() && i != j
                ==> self.codes@[i].code@ != self.codes@[j].code@
    }

    /// A room has at most one invitation code.
    pub open spec fn code_rooms_unique(self) -> bool {
        forall|i: int, j: int|
            0 <= i < self.codes@.len() && 0 <= j < self.codes@.len() && i != j
                ==> self.codes@[i].room_id != self.codes@[j].room_id
    }

    /// An invitation code admits only to a room that exists.
    pub open spec fn code_rooms_exist(self) -> bool {
        forall|i: int|
            0 <= i < self.codes@.len() ==> self.has_room(self.codes@[i].room_id as int)
    }

    /// Well-formedness: what `new` establishes and every operation
    /// preserves.
    pub open spec fn wf(self) -> bool {
        &&& self.user_ids_unique()
        &&& self.emails_unique()
        &&& self.user_ids_bounded()
        &&& self.tokens_unique()
        &&& self.session_users_exist()
        &&& self.room_ids_unique()
        &&& self.room_ids_bounded()
        &&& self.room_owners_exist()
        &&& self.memberships_unique()
        &&& self.membership_rooms_exist()
        &&& self.owners_are_members()
        &&& self.codes_unique()
        &&& self.code_rooms_unique()
        &&& self.code_rooms_exist()
        &&& 1 <= self.next_user_id
        &&& 1 <= self.next_room_id
    }

    // ----- lookup lemmas: under wf, an index found by scan is the index
    // the spec functions speak of -----

    /// The row at a given index is the row `user_index_of_email` picks.
    pub proof fn lemma_user_index_of_email(self, i: int)
        requires
            self.wf(),
            0 <= i < self.users@.len(),
        ensures
            self.has_user_with_email(self.users@[i].email@),
            self.user_index_of_email(self.users@[i].email@) == i,
    {
        let email = self.users@[i].email@;
        assert(self.has_user_with_email(email));
        let j = self.user_index_of_email(email);
        assert(0 <= j < self.users@.len() && self.users@[j].email@ == email);
    }

    /// The row at a given index is the row `session_index` picks.
    pub proof fn lemma_session_index(self, i: int)
        requires
            self.wf(),
            0 <= i < self.sessions@.len(),
        ensures
            self.has_session(self.sessions@[i].token@),
            self.session_index(self.sessions@[i].token@) == i,
            self.session_user(self.sessions@[i].token@) == self.sessions@[i].user_id,
    {
        let token = self.sessions@[i].token@;
        assert(self.has_session(token));
        let j = self.session_index(token);
        assert(0 <= j < self.sessions@.len() && self.sessions@[j].token@ == token);
    }

    /// The row at a given index is the row `room_index` picks.
    pub proof fn lemma_room_index(self, i: int)
        requires
            self.wf(),
            0 <= i < self.rooms@.len(),
        ensures
            self.has_room(self.rooms@[i].id as int),
            self.room_index(self.rooms@[i].id as int) == i,
            self.room_record(self.rooms@[i].id as int) == self.rooms@[i],
    {
        let id = self.rooms@[i].id as int;
        assert(self.has_room(id));
        let j = self.room_index(id);
        assert(0 <= j < self.rooms@.len() && self.rooms@[j].id == id);
    }

    /// The row at a given index is the row `member_index` picks.
    pub proof fn lemma_member_index(self, i: int)
        requires
            self.wf(),
            0 <= i < self.members@.len(),
        ensures
            self.is_member(self.members@[i].room_id as int, self.members@[i].user_id as int),
            self.member_index(self.members@[i].room_id as int, self.members@[i].user_id as int)
                == i,
    {
        let r = self.members@[i].room_id as int;
        let u = self.members@[i].user_id as int;
        assert(self.is_member(r, u));
        let j = self.member_index(r, u);
        assert(0 <= j < self.members@.len() && self.members@[j].room_id == r
            && self.members@[j].user_id == u);
    }

    /// The row at a given index is the row `code_index` picks.
    pub proof fn lemma_code_index(self, i: int)
        requires
            self.wf(),
            0 <= i < self.codes@.len(),
        ensures
            self.has_code(self.codes@[i].code@),
            self.code_index(self.codes@[i].code@) == i,
            self.code_room(self.codes@[i].code@) == self.codes@[i].room_id,
    {
        let code = self.codes@[i].code@;
        assert(self.has_code(code));
        let j = self.code_index(code);
        assert(0 <= j < self.codes@.len() && self.codes@[j].code@ == code);
    }

    /// The row at a given index is the row `room_code_index` picks.
    pub proof fn lemma_room_code_index(self, i: int)
        requires
            self.wf(),
            0 <= i < self.codes@.len(),
        ensures
            self.room_has_code(self.codes@[i].room_id as int),
            self.room_code_index(self.codes@[i].room_id as int) == i,
            self.room_code(self.codes@[i].room_id as int) == self.codes@[i].code@,
    {
        let room = self.codes@[i].room_id as int;
        assert(self.room_has_code(room));
        let j = self.room_code_index(room);
        assert(0 <= j < self.codes@.len() && self.codes@[j].room_id == room);
    }

    // ----- agreement lemmas: a lookup reads only its own table, so two
    // states that agree on a table agree on its lookups -----

    /// States agreeing on `users` agree on user lookups.
    pub proof fn lemma_user_lookups(a: Database, b: Database)
        requires
            a.users@ == b.users@,
        ensures
            forall|id: int| a.has_user_id(id) == b.has_user_id(id),
            forall|e: Seq<char>| a.has_user_with_email(e) == b.has_user_with_email(e),
    {
    }

    /// States agreeing on `sessions` agree on session lookups.
    pub proof fn lemma_session_lookups(a: Database, b: Database)
        requires
            a.sessions@ == b.sessions@,
        ensures
            forall|t: Seq<char>| a.has_session(t) == b.has_session(t),
    {
    }

    /// States agreeing on `rooms` agree on room lookups.
    pub proof fn lemma_room_lookups(a: Database, b: Database)
        requires
            a.rooms@ == b.rooms@,
        ensures
            forall|rid: int| a.has_room(rid) == b.has_room(rid),
    {
    }

    /// States agreeing on `room_members` agree on the membership relation.
    pub proof fn lemma_member_lookups(a: Database, b: Database)
        requires
            a.members@ == b.members@,
        ensures
            forall|rid: int, uid: int| a.is_member(rid, uid) == b.is_member(rid, uid),
    {
    }

    /// States agreeing on `invitation_codes` agree on code lookups.
    pub proof fn lemma_code_lookups(a: Database, b: Database)
        requires
            a.codes@ == b.codes@,
        ensures
            forall|c: Seq<char>| a.has_code(c) == b.has_code(c),
            forall|rid: int| a.room_has_code(rid) == b.room_has_code(rid),
    {
    }

    // ----- push and remove lemmas: how one row in or out moves a
    // table's lookups -----

    /// Pushing a user row keeps every old user and adds the new one.
    pub proof fn lemma_user_push(a: Database, b: Database, u: User)
        requires
            b.users@ == a.users@.push(u),
        ensures
            forall|id: int| a.has_user_id(id) ==> b.has_user_id(id),
            forall|e: Seq<char>| a.has_user_with_email(e) ==> b.has_user_with_email(e),
            b.has_user_id(u.id as int),
            b.has_user_with_email(u.email@),
            forall|id: int| b.has_user_id(id) ==> a.has_user_id(id) || id == u.id as int,
            forall|e: Seq<char>| b.has_user_with_email(e) ==> a.has_user_with_email(e) || e == u.email@,
    {
        assert forall|id: int| a.has_user_id(id) implies b.has_user_id(id) by {
            let w = choose|i: int| 0 <= i < a.users@.len() && a.users@[i].id == id;
            assert(b.users@[w].id == id);
        }
        assert forall|e: Seq<char>| a.has_user_with_email(e) implies b.has_user_with_email(e) by {
            let w = choose|i: int| 0 <= i < a.users@.len() && a.users@[i].email@ == e;
            assert(b.users@[w].email@ == e);
        }
        assert(b.users@[b.users@.len() - 1] == u);
    }

    /// Pushing a session row keeps every old session and adds the new one.
    pub proof fn lemma_session_push(a: Database, b: Database, s: Session)
        requires
            b.sessions@ == a.sessions@.push(s),
        ensures
            forall|t: Seq<char>| a.has_session(t) ==> b.has_session(t),
            b.has_session(s.token@),
            forall|t: Seq<char>| b.has_session(t) ==> a.has_session(t) || t == s.token@,
    {
        assert forall|t: Seq<char>| a.has_session(t) implies b.has_session(t) by {
            let w = choose|i: int| 0 <= i < a.sessions@.len() && a.sessions@[i].token@ == t;
            assert(b.sessions@[w].token@ == t);
        }
        assert(b.sessions@[b.sessions@.len() - 1] == s);
    }

    /// Pushing a room row keeps every old room and adds the new one.
    pub proof fn lemma_room_push(a: Database, b: Database, rec: RoomRecord)
        requires
            b.rooms@ == a.rooms@.push(rec),
        ensures
            forall|id: int| a.has_room(id) ==> b.has_room(id),
            b.has_room(rec.id as int),
            forall|id: int| b.has_room(id) ==> a.has_room(id) || id == rec.id as int,
    {
        assert forall|id: int| a.has_room(id) implies b.has_room(id) by {
            let w = choose|i: int| 0 <= i < a.rooms@.len() && a.rooms@[i].id == id;
            assert(b.rooms@[w].id == id);
        }
        assert(b.rooms@[b.rooms@.len() - 1] == rec);
    }

    /// Pushing a membership row keeps every old pair and adds the new one.
    pub proof fn lemma_member_push(a: Database, b: Database, m: Membership)
        requires
            b.members@ == a.members@.push(m),
        ensures
            forall|r: int, u: int| a.is_member(r, u) ==> b.is_member(r, u),
            b.is_member(m.room_id as int, m.user_id as int),
            forall|r: int, u: int|
                b.is_member(r, u) ==> a.is_member(r, u) || (r == m.room_id as int && u
                    == m.user_id as int),
    {
        assert forall|r: int, u: int| a.is_member(r, u) implies b.is_member(r, u) by {
            let w = choose|i: int|
                0 <= i < a.members@.len() && a.members@[i].room_id == r && a.members@[i].user_id
                    == u;
            assert(b.members@[w] == a.members@[w]);
        }
        assert(b.members@[b.members@.len() - 1] == m);
    }

    /// Removing a session row removes exactly that token's session.
    pub proof fn lemma_session_remove(a: Database, b: Database, i: int)
        requires
            0 <= i < a.sessions@.len(),
            b.sessions@ == a.sessions@.remove(i),
            a.tokens_unique(),
        ensures
            !b.has_session(a.sessions@[i].token@),
            forall|t: Seq<char>|
                t != a.sessions@[i].token@ ==> a.has_session(t) == b.has_session(t),
            b.tokens_unique(),
            forall|t: Seq<char>|
                t != a.sessions@[i].token@ && a.has_session(t) ==> b.session_user(t)
                    == a.session_user(t),
    {
        a.sessions@.remove_ensures(i);
        let gone = a.sessions@[i].token@;
        assert forall|t: Seq<char>| t != gone && a.has_session(t) implies b.has_session(t)
            && b.session_user(t) == a.session_user(t) by {
            let w = a.session_index(t);
            assert(0 <= w < a.sessions@.len() && a.sessions@[w].token@ == t);
            let w2: int = if w < i { w } else { w - 1 };
            assert(b.sessions@[w2] == a.sessions@[w]);
            assert(b.has_session(t));
            let v = b.session_index(t);
            assert(0 <= v < b.sessions@.len() && b.sessions@[v].token@ == t);
            let v1: int = if v < i { v } else { v + 1 };
            assert(b.sessions@[v] == a.sessions@[v1]);
            assert(v1 == w);
        }
        assert forall|t: Seq<char>| t != gone && b.has_session(t) implies a.has_session(t) by {
            let w = choose|k: int| 0 <= k < b.sessions@.len() && b.sessions@[k].token@ == t;
            let w1: int = if w < i { w } else { w + 1 };
            assert(a.sessions@[w1].token@ == t);
        }
        assert forall|k: int| 0 <= k < b.sessions@.len() implies b.sessions@[k].token@ != gone by {
            let k1: int = if k < i { k } else { k + 1 };
            assert(b.sessions@[k] == a.sessions@[k1]);
        }
    }

    /// Removing a membership row removes exactly that pair.
    pub proof fn lemma_member_remove(a: Database, b: Database, i: int)
        requires
            0 <= i < a.members@.len(),
            b.members@ == a.members@.remove(i),
            a.memberships_unique(),
        ensures
            !b.is_member(a.members@[i].room_id as int, a.members@[i].user_id as int),
            forall|r: int, u: int|
                !(r == a.members@[i].room_id as int && u == a.members@[i].user_id as int)
                    ==> a.is_member(r, u) == b.is_member(r, u),
            b.memberships_unique(),
    {
        a.members@.remove_ensures(i);
        let gr = a.members@[i].room_id as int;
        let gu = a.members@[i].user_id as int;
        assert forall|r: int, u: int|
            !(r == gr && u == gu) && a.is_member(r, u) implies b.is_member(r, u) by {
            let w = choose|k: int|
                0 <= k < a.members@.len() && a.members@[k].room_id == r && a.members@[k].user_id
                    == u;
            let w2: int = if w < i { w } else { w - 1 };
            assert(b.members@[w2] == a.members@[w]);
        }
        assert forall|r: int, u: int| b.is_member(r, u) implies a.is_member(r, u) by {
            let w = choose|k: int|
                0 <= k < b.members@.len() && b.members@[k].room_id == r && b.members@[k].user_id
                    == u;
            let w1: int = if w < i { w } else { w + 1 };
            assert(a.members@[w1] == b.members@[w]);
        }
        assert forall|k: int| 0 <= k < b.members@.len() implies !(b.members@[k].room_id as int
            == gr && b.members@[k].user_id as int == gu) by {
            let k1: int = if k < i { k } else { k + 1 };
            assert(b.members@[k] == a.members@[k1]);
        }
    }

    /// Removing a room row removes exactly that room id.
    pub proof fn lemma_room_remove(a: Database, b: Database, i: int)
        requires
            0 <= i < a.rooms@.len(),
            b.rooms@ == a.rooms@.remove(i),
            a.room_ids_unique(),
        ensures
            !b.has_room(a.rooms@[i].id as int),
            forall|id: int| id != a.rooms@[i].id as int ==> a.has_room(id) == b.has_room(id),
            b.room_ids_unique(),
            forall|id: int|
                id != a.rooms@[i].id as int && a.has_room(id) ==> b.room_record(id)
                    == a.room_record(id),
    {
        a.rooms@.remove_ensures(i);
        let gone = a.rooms@[i].id as int;
        assert forall|id: int| id != gone && a.has_room(id) implies b.has_room(id)
            && b.room_record(id) == a.room_record(id) by {
            let w = a.room_index(id);
            assert(0 <= w < a.rooms@.len() && a.rooms@[w].id == id);
            let w2: int = if w < i { w } else { w - 1 };
            assert(b.rooms@[w2] == a.rooms@[w]);
            assert(b.has_room(id));
            let v = b.room_index(id);
            assert(0 <= v < b.rooms@.len() && b.rooms@[v].id == id);
            let v1: int = if v < i { v } else { v + 1 };
            assert(b.rooms@[v] == a.rooms@[v1]);
            assert(v1 == w);
        }
        assert forall|id: int| id != gone && b.has_room(id) implies a.has_room(id) by {
            let w = choose|k: int| 0 <= k < b.rooms@.len() && b.rooms@[k].id == id;
            let w1: int = if w < i { w } else { w + 1 };
            assert(a.rooms@[w1].id == id);
        }
        assert forall|k: int| 0 <= k < b.rooms@.len() implies b.rooms@[k].id as int != gone by {
            let k1: int = if k < i { k } else { k + 1 };
            assert(b.rooms@[k] == a.rooms@[k1]);
        }
    }

    /// Removing an invitation row removes exactly that code and its room's
    /// entry.
    pub proof fn lemma_code_remove(a: Database, b: Database, i: int)
        requires
            0 <= i < a.codes@.len(),
            b.codes@ == a.codes@.remove(i),
            a.codes_unique(),
            a.code_rooms_unique(),
        ensures
            !b.has_code(a.codes@[i].code@),
            !b.room_has_code(a.codes@[i].room_id as int),
            forall|c: Seq<char>| c != a.codes@[i].code@ ==> a.has_code(c) == b.has_code(c),
            forall|rid: int|
                rid != a.codes@[i].room_id as int ==> a.room_has_code(rid) == b.room_has_code(rid),
            b.codes_unique(),
            b.code_rooms_unique(),
    {
        a.codes@.remove_ensures(i);
        let gc = a.codes@[i].code@;
        let gr = a.codes@[i].room_id as int;
        assert forall|c: Seq<char>| c != gc && a.has_code(c) implies b.has_code(c) by {
            let w = choose|k: int| 0 <= k < a.codes@.len() && a.codes@[k].code@ == c;
            let w2: int = if w < i { w } else { w - 1 };
            assert(b.codes@[w2] == a.codes@[w]);
        }
        assert forall|c: Seq<char>| b.has_code(c) implies a.has_code(c) by {
            let w = choose|k: int| 0 <= k < b.codes@.len() && b.codes@[k].code@ == c;
            let w1: int = if w < i { w } else { w + 1 };
            assert(a.codes@[w1] == b.codes@[w]);
        }
        assert forall|rid: int| rid != gr && a.room_has_code(rid) implies b.room_has_code(rid) by {
            let w = choose|k: int| 0 <= k < a.codes@.len() && a.codes@[k].room_id == rid;
            let w2: int = if w < i { w } else { w - 1 };
            assert(b.codes@[w2] == a.codes@[w]);
        }
        assert forall|rid: int| b.room_has_code(rid) implies a.room_has_code(rid) by {
            let w = choose|k: int| 0 <= k < b.codes@.len() && b.codes@[k].room_id == rid;
            let w1: int = if w < i { w } else { w + 1 };
            assert(a.codes@[w1] == b.codes@[w]);
        }
        assert forall|k: int| 0 <= k < b.codes@.len() implies b.codes@[k].code@ != gc
            && b.codes@[k].room_id as int != gr by {
            let k1: int = if k < i { k } else { k + 1 };
            assert(b.codes@[k] == a.codes@[k1]);
        }
    }

    // ----- exec lookups -----

    /// Finds the row holding this email.
    pub fn find_user_by_email(&self, email: &String) -> (r: Option<usize>)
        ensures
            match r {
                Some(i) => 0 <= i < self.users@.len() && self.users@[i as int].email@ == email@,
                None => !self.has_user_with_email(email@),
            },
    {
        let n = self.users.len();
        for i in 0..n
            invariant
                n == self.users@.len(),
                forall|k: int| 0 <= k < i ==> self.users@[k].email@ != email@,
        {
            if self.users[i].email == *email {
                return Some(i);
            }
        }
        None
    }

    /// Finds the session row holding this token.
    pub fn find_session(&self, token: &String) -> (r: Option<usize>)
        ensures
            match r {
                Some(i) => 0 <= i < self.sessions@.len() && self.sessions@[i as int].token@
                    == token@,
                None => !self.has_session(token@),
            },
    {
        let n = self.sessions.len();
        for i in 0..n
            invariant
                n == self.sessions@.len(),
                forall|k: int| 0 <= k < i ==> self.sessions@[k].token@ != token@,
        {
            if self.sessions[i].token == *token {
                return Some(i);
            }
        }
        None
    }

    /// Finds the room row holding this id.
    pub fn find_room(&self, room_id: i32) -> (r: Option<usize>)
        ensures
            match r {
                Some(i) => 0 <= i < self.rooms@.len() && self.rooms@[i as int].id == room_id,
                None => !self.has_room(room_id as int),
            },
    {
        let n = self.rooms.len();
        for i in 0..n
            invariant
                n == self.rooms@.len(),
                forall|k: int| 0 <= k < i ==> self.rooms@[k].id != room_id,
        {
            if self.rooms[i].id == room_id {
                return Some(i);
            }
        }
        None
    }

    /// Finds the membership row for this pair.
    pub fn find_member(&self, room_id: i32, user_id: i32) -> (r: Option<usize>)
        ensures
            match r {
                Some(i) => 0 <= i < self.members@.len() && self.members@[i as int].room_id
                    == room_id && self.members@[i as int].user_id == user_id,
                None => !self.is_member(room_id as int, user_id as int),
            },
    {
        let n = self.members.len();
        for i in 0..n
            invariant
                n == self.members@.len(),
                forall|k: int|
                    0 <= k < i ==> !(self.members@[k].room_id == room_id
                        && self.members@[k].user_id == user_id),
        {
            if self.members[i].room_id == room_id && self.members[i].user_id == user_id {
                return Some(i);
            }
        }
        None
    }

    /// Finds the invitation row holding this code.
    pub fn find_code(&self, code: &String) -> (r: Option<usize>)
        ensures
            match r {
                Some(i) => 0 <= i < self.codes@.len() && self.codes@[i as int].code@ == code@,
                None => !self.has_code(code@),
            },
    {
        let n = self.codes.len();
        for i in 0..n
            invariant
                n == self.codes@.len(),
                forall|k: int| 0 <= k < i ==> self.codes@[k].code@ != code@,
        {
            if self.codes[i].code == *code {
                return Some(i);
            }
        }
        None
    }

    /// Finds the invitation row belonging to this room.
    pub fn find_code_for_room(&self, room_id: i32) -> (r: Option<usize>)
        ensures
            match r {
                Some(i) => 0 <= i < self.codes@.len() && self.codes@[i as int].room_id == room_id,
                None => !self.room_has_code(room_id as int),
            },
    {
        let n = self.codes.len();
        for i in 0..n
            invariant
                n == self.codes@.len(),
                forall|k: int| 0 <= k < i ==> self.codes@[k].room_id != room_id,
        {
            if self.codes[i].room_id == room_id {
                return Some(i);
            }
        }
        None
    }

    /// Sets up an empty store holding only the default admin user, as the
    /// schema bootstrap seeds it.
    pub fn new() -> (db: Database)
        ensures
            db.wf(),
            db.users@.len() == 1,
            db.users@[0].id == 1,
            db.users@[0].name@ == "Admin"@,
            db.users@[0].surname@ == "Admin"@,
            db.users@[0].password_hash@ == "passwd_hash"@,
            db.users@[0].email@ == "admin@example.com"@,
            db.sessions@.len() == 0,
            db.rooms@.len() == 0,
            db.members@.len() == 0,
            db.codes@.len() == 0,
            db.next_user_id == 2,
            db.next_room_id == 1,
    {
        let mut users: Vec<User> = Vec::new();
        users.push(
            User {
                id: 1,
                name: "Admin".to_owned(),
                surname: "Admin".to_owned(),
                password_hash: "passwd_hash".to_owned(),
                email: "admin@example.com".to_owned(),
            },
        );
        Database {
            users,
            sessions: Vec::new(),
            rooms: Vec::new(),
            members: Vec::new(),
            codes: Vec::new(),
            next_user_id: 2,
            next_room_id: 1,
        }
    }
}

} // verus!
