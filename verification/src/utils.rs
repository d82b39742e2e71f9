//! Password hashing, session tokens, and invitation-code generation.
//!
//! The calls into the hashing and randomness crates stand behind small
//! trusted wrappers; everything around them is verified.

use vstd::prelude::*;

verus! {

/// What `bcrypt::verify` yields for a password against a stored hash:
/// `Some(b)` when the hash parses and the comparison says `b`, `None` when
/// the hash is malformed. `bcrypt::verify` reads no randomness, so its
/// result is a function of the two arguments alone.
pub uninterp spec fn bcrypt_verify_of(password: Seq<char>, hash: Seq<char>) -> Option<bool>;

#[verifier::external_type_specification]
#[verifier::external_body]
pub struct ExBcryptError(bcrypt::BcryptError);

/// Salts and hashes a password.
///
/// Relies on `bcrypt::hash` with `bcrypt::DEFAULT_COST`: the salt is drawn
/// from the operating system (so the call can fail, and two calls on one
/// password differ), and `bcrypt::verify` holds any password against any
/// hash that `bcrypt::hash` produced from it.
#[verifier::external_body]
pub fn hash_password(password: &str) -> (r: Result<String, bcrypt::BcryptError>)
    ensures
        r matches Ok(h) ==> bcrypt_verify_of(password@, h@) == Some(true),
{
    bcrypt::hash(password, bcrypt::DEFAULT_COST)
}

/// Holds a password against a stored hash.
///
/// Relies on `bcrypt::verify`: it errs exactly when the hash does not
/// parse as a bcrypt hash, and otherwise recomputes the hash under the
/// stored salt and compares; no randomness is read.
#[verifier::external_body]
pub(crate) fn verify_password(password: &str, hash: &str) -> (r: Result<bool, bcrypt::BcryptError>)
    ensures
        r is Ok <==> bcrypt_verify_of(password@, hash@) is Some,
        r matches Ok(b) ==> bcrypt_verify_of(password@, hash@) == Some(b),
{
    bcrypt::verify(password, hash)
}

/// Draws a fresh opaque session token.
///
/// Relies on `uuid::Uuid::new_v4`, a version-4 UUID from a CSPRNG, written
/// in its hyphenated form; nothing is promised of the value beyond its
/// length, and two calls may (with negligible probability) collide.
#[verifier::external_body]
pub(crate) fn new_session_token() -> (r: String)
    ensures
        r@.len() == 36,
{
    uuid::Uuid::new_v4().to_string()
}

/// Draws a uniform index into the invitation-code alphabet.
///
/// Relies on `rand::random_range`: the result lies in the half-open range
/// it is given.
#[verifier::external_body]
pub(crate) fn random_code_index() -> (r: usize)
    ensures
        r < 62,
{
    rand::random_range(0..62)
}

/// Wraps one ASCII byte as a string of that one character.
///
/// Relies on `String::from` for `char`.
#[verifier::external_body]
pub(crate) fn one_char_string(b: u8) -> (r: String)
    requires
        b < 128,
    ensures
        r@ == seq![b as char],
{
    String::from(b as char)
}

/// The characters an invitation code is drawn from: the 62 ASCII letters
/// and digits.
pub open spec fn valid_code_char(c: char) -> bool {
    ||| 65 <= c as int <= 90
    ||| 97 <= c as int <= 122
    ||| 48 <= c as int <= 57
}

/// An invitation code: exactly six ASCII letters or digits.
pub open spec fn valid_code(s: Seq<char>) -> bool {
    s.len() == 6 && forall|i: int| 0 <= i < s.len() ==> valid_code_char(#[trigger] s[i])
}

/// The byte of the invitation-code alphabet at a given index: the upper-
/// case letters, then the lower-case letters, then the digits.
fn charset_byte(i: usize) -> (b: u8)
    requires
        i < 62,
    ensures
        b < 128,
        valid_code_char(b as char),
{
    if i < 26 {
        65 + (i as u8)
    } else if i < 52 {
        97 + (i as u8 - 26)
    } else {
        48 + (i as u8 - 52)
    }
}

/// Draws a random six-character alphanumeric invitation-code candidate.
/// Uniqueness against the codes already stored is the caller's to check.
pub fn generate_invitation_code() -> (r: String)
    ensures
        valid_code(r@),
{
    let mut code = String::new();
    for i in 0..6usize
        invariant
            code@.len() == i,
            forall|k: int| 0 <= k < i ==> valid_code_char(#[trigger] code@[k]),
    {
        let idx = random_code_index();
        let b = charset_byte(idx);
        let ch = one_char_string(b);
        code.append(ch.as_str());
    }
    code
}

} // verus!
