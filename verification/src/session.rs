//! Sessions: issued on login as opaque random tokens, resolved on every
//! gated operation, revoked on logout. Tokens do not expire.

use vstd::prelude::*;

use crate::database::Database;
use crate::outcomes::{InternalFailure, LoginOutcome, LogoutOutcome};
use crate::types::Session;
use crate::utils::{bcrypt_verify_of, new_session_token, verify_password};

verus! {

impl Database {
    /// Logs a user in: holds the password against the stored hash and, on
    /// a match, draws a fresh token and stores one new session row bound
    /// to the user.
    ///
    /// A wrong password creates nothing; an unknown email reports
    /// `UserDoesNotExist`; a stored hash that the primitive cannot parse
    /// is an infrastructure failure. The freshly drawn token resolves to
    /// the logged-in user's id.
    pub fn login_user(&mut self, email: String, password: String) -> (r: Result<
        LoginOutcome,
        InternalFailure,
    >)
        requires
            old(self).wf(),
        ensures
            final(self).wf(),
            (r matches Ok(LoginOutcome::UserDoesNotExist)) <==> !old(self).has_user_with_email(
                email@,
            ),
            (r matches Ok(LoginOutcome::InvalidCredentials)) <==> (old(self).has_user_with_email(
                email@,
            ) && bcrypt_verify_of(password@, old(self).user_for_email(email@).password_hash@)
                == Some(false)),
            (r matches Err(InternalFailure::Hashing)) <==> (old(self).has_user_with_email(email@)
                && bcrypt_verify_of(password@, old(self).user_for_email(email@).password_hash@)
                is None),
            r matches Ok(LoginOutcome::Success(token)) ==> {
                &&& old(self).has_user_with_email(email@)
                &&& bcrypt_verify_of(password@, old(self).user_for_email(email@).password_hash@)
                    == Some(true)
                &&& !old(self).has_session(token@)
                &&& final(self).sessions@ == old(self).sessions@.push(
                    (Session { token: token, user_id: old(self).user_for_email(email@).id }),
                )
                &&& final(self).resolved_user(token@) == Some(
                    old(self).user_for_email(email@).id,
                )
                &&& forall|t: Seq<char>|
                    t != token@ ==> final(self).resolved_user(t) == old(self).resolved_user(t)
                &&& final(self).users@ == old(self).users@
                &&& final(self).rooms@ == old(self).rooms@
                &&& final(self).members@ == old(self).members@
                &&& final(self).codes@ == old(self).codes@
                &&& final(self).next_user_id == old(self).next_user_id
                &&& final(self).next_room_id == old(self).next_room_id
            },
            old(self).has_user_with_email(email@) && bcrypt_verify_of(
                password@,
                old(self).user_for_email(email@).password_hash@,
            ) == Some(true) ==> (r matches Ok(LoginOutcome::Success(_)) || r matches Err(
                InternalFailure::TokenCollision,
            )),
            r is Err ==> (r matches Err(InternalFailure::Hashing) || r matches Err(
                InternalFailure::TokenCollision,
            )),
            !(r matches Ok(LoginOutcome::Success(_))) ==> *final(self) == *old(self),
    {
        let user_idx = match self.find_user_by_email(&email) {
            Some(i) => i,
            None => {
                return Ok(LoginOutcome::UserDoesNotExist);
            },
        };
        proof {
            self.lemma_user_index_of_email(user_idx as int);
        }
        let user_id = self.users[user_idx].id;
        let matched = match verify_password(password.as_str(), self.users[user_idx].password_hash.as_str()) {
            Ok(b) => b,
            Err(_) => {
                return Err(InternalFailure::Hashing);
            },
        };
        if !matched {
            return Ok(LoginOutcome::InvalidCredentials);
        }
        let token = new_session_token();
        if self.find_session(&token).is_some() {
            return Err(InternalFailure::TokenCollision);
        }
        let ghost pre = *self;
        self.sessions.push(Session { token: token.clone(), user_id });
        proof {
            Database::lemma_session_push(
                pre,
                *self,
                (Session { token: token, user_id: user_id }),
            );
            Database::lemma_user_lookups(pre, *self);
            Database::lemma_room_lookups(pre, *self);
            Database::lemma_member_lookups(pre, *self);
            Database::lemma_code_lookups(pre, *self);
            assert forall|k: int| 0 <= k < self.sessions@.len() implies self.has_user_id(
                self.sessions@[k].user_id as int,
            ) by {
                if k < pre.sessions@.len() {
                    assert(pre.has_user_id(pre.sessions@[k].user_id as int));
                } else {
                    assert(pre.has_user_id(user_id as int));
                }
            }
            assert(self.wf());
            self.lemma_session_index(self.sessions@.len() - 1);
            assert forall|t: Seq<char>| t != token@ implies self.resolved_user(t) == pre
                .resolved_user(t) by {
                if pre.has_session(t) {
                    let w = pre.session_index(t);
                    pre.lemma_session_index(w);
                    assert(self.sessions@[w].token@ == t);
                    self.lemma_session_index(w);
                }
            }
        }
        Ok(LoginOutcome::Success(token))
    }

    /// Logs a user out by revoking the session the token names.
    ///
    /// Revocation is idempotent: once no session holds the token, the
    /// outcome is `NotLoggedIn` and nothing changes. This function itself
    /// never reports `InternalServerError`; that variant is for the
    /// boundary to use when it cannot reach the store at all.
    pub fn logout_user(&mut self, session_uuid: String) -> (r: LogoutOutcome)
        requires
            old(self).wf(),
        ensures
            final(self).wf(),
            (r == LogoutOutcome::Success) <==> old(self).has_session(session_uuid@),
            (r == LogoutOutcome::NotLoggedIn) <==> !old(self).has_session(session_uuid@),
            r == LogoutOutcome::Success ==> {
                &&& final(self).sessions@ == old(self).sessions@.remove(
                    old(self).session_index(session_uuid@),
                )
                &&& !final(self).has_session(session_uuid@)
                &&& final(self).resolved_user(session_uuid@) is None
                &&& forall|t: Seq<char>|
                    t != session_uuid@ ==> final(self).resolved_user(t) == old(self).resolved_user(
                        t,
                    )
                &&& final(self).users@ == old(self).users@
                &&& final(self).rooms@ == old(self).rooms@
                &&& final(self).members@ == old(self).members@
                &&& final(self).codes@ == old(self).codes@
                &&& final(self).next_user_id == old(self).next_user_id
                &&& final(self).next_room_id == old(self).next_room_id
            },
            r == LogoutOutcome::NotLoggedIn ==> *final(self) == *old(self),
    {
        let session_idx = match self.find_session(&session_uuid) {
            Some(i) => i,
            None => {
                return LogoutOutcome::NotLoggedIn;
            },
        };
        proof {
            self.lemma_session_index(session_idx as int);
        }
        let ghost pre = *self;
        self.sessions.remove(session_idx);
        proof {
            Database::lemma_session_remove(pre, *self, session_idx as int);
            Database::lemma_user_lookups(pre, *self);
            Database::lemma_room_lookups(pre, *self);
            Database::lemma_member_lookups(pre, *self);
            Database::lemma_code_lookups(pre, *self);
            pre.sessions@.remove_ensures(session_idx as int);
            assert forall|k: int| 0 <= k < self.sessions@.len() implies self.has_user_id(
                self.sessions@[k].user_id as int,
            ) by {
                let k1: int = if k < session_idx as int {
                    k
                } else {
                    k + 1
                };
                assert(self.sessions@[k] == pre.sessions@[k1]);
                assert(pre.has_user_id(pre.sessions@[k1].user_id as int));
            }
            assert(self.wf());
            assert forall|t: Seq<char>| t != session_uuid@ implies self.resolved_user(t) == pre
                .resolved_user(t) by {
                if pre.has_session(t) {
                    assert(self.session_user(t) == pre.session_user(t));
                }
            }
        }
        LogoutOutcome::Success
    }

    /// Resolves a session token to the user it is bound to, or nothing.
    /// Read-only.
    pub fn verify_session(&self, session_uuid: String) -> (r: Option<i32>)
        requires
            self.wf(),
        ensures
            r == self.resolved_user(session_uuid@),
    {
        match self.find_session(&session_uuid) {
            Some(i) => {
                proof {
                    self.lemma_session_index(i as int);
                }
                Some(self.sessions[i].user_id)
            },
            None => None,
        }
    }
}

} // verus!
