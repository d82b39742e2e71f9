//! The cross-cutting guarantees of the service, each stated and proved
//! over the store's well-formedness and the operations' contracts.

use vstd::prelude::*;

use crate::database::Database;

verus! {

/// A registered email names exactly one user row: two rows carrying the
/// same email are the same row. Registering an email a second time is
/// refused, so no email ever gains a second row.
pub proof fn lemma_one_user_row_per_email(db: Database, i: int, j: int)
    requires
        db.wf(),
        0 <= i < db.users@.len(),
        0 <= j < db.users@.len(),
        db.users@[i].email@ == db.users@[j].email@,
    ensures
        i == j,
{
}

/// A session token names exactly one session row, so a token resolves to
/// exactly one user.
pub proof fn lemma_one_session_row_per_token(db: Database, i: int, j: int)
    requires
        db.wf(),
        0 <= i < db.sessions@.len(),
        0 <= j < db.sessions@.len(),
        db.sessions@[i].token@ == db.sessions@[j].token@,
    ensures
        i == j,
{
}

/// A token no session holds resolves to no user: once revoked, a token
/// verifies to none.
pub proof fn lemma_absent_token_resolves_to_none(db: Database, token: Seq<char>)
    requires
        !db.has_session(token),
    ensures
        db.resolved_user(token) is None,
{
}

/// The owner of every existing room is a member of it: room creation
/// inserts the owner's membership row, and the owner can never leave.
pub proof fn lemma_owner_is_member(db: Database, room_id: int)
    requires
        db.wf(),
        db.has_room(room_id),
    ensures
        db.is_member(room_id, db.room_record(room_id).owner as int),
{
    let i = db.room_index(room_id);
    db.lemma_room_index(i);
    assert(db.is_member(db.rooms@[i].id as int, db.rooms@[i].owner as int));
}

/// Every existing room shows up in its owner's room listing.
pub proof fn lemma_owner_room_listed(db: Database, room_id: int)
    requires
        db.wf(),
        db.has_room(room_id),
    ensures
        db.member_rooms(db.room_record(room_id).owner as int).contains(
            db.room_record(room_id).summary(),
        ),
{
    let owner = db.room_record(room_id).owner as int;
    lemma_owner_is_member(db, room_id);
    let w = choose|k: int|
        0 <= k < db.members@.len() && db.members@[k].room_id == room_id && db.members@[k].user_id
            == owner;
    let pred = Database::member_filter(owner);
    let f = db.summary_of_member();
    db.members@.lemma_filter_contains(pred, w);
    let filtered = db.members@.filter(pred);
    let k = choose|k: int| 0 <= k < filtered.len() && filtered[k] == db.members@[w];
    assert(db.member_rooms(owner)[k] == f(filtered[k]));
    assert(db.member_rooms(owner)[k] == db.room_record(room_id).summary());
}

/// Invitation codes of two different rooms differ: a code admits to
/// exactly one room.
pub proof fn lemma_distinct_rooms_distinct_codes(db: Database, r1: int, r2: int)
    requires
        db.wf(),
        r1 != r2,
        db.room_has_code(r1),
        db.room_has_code(r2),
    ensures
        db.room_code(r1) != db.room_code(r2),
{
    let i = db.room_code_index(r1);
    let j = db.room_code_index(r2);
    assert(0 <= i < db.codes@.len() && db.codes@[i].room_id == r1);
    assert(0 <= j < db.codes@.len() && db.codes@[j].room_id == r2);
}

} // verus!
