//! The decision half of authentication.  The backend fetches the account
//! stored under a username (I/O, done by the host); the functions here decide
//! what the fetched record means: whether the password matches its hash and
//! whether the single-user login found its one expected account.

use vstd::prelude::*;

use crate::storage::{Error, User};

verus! {

/// Whether `password` matches the bcrypt hash `hash`: the value
/// `bcrypt::verify` computes, which depends on its two arguments alone.
pub uninterp spec fn bcrypt_verifies(password: Seq<char>, hash: Seq<char>) -> bool;

/// Whether `hash` parses as a bcrypt hash at all — a function of the hash
/// alone.  `bcrypt::verify` checks a password against `hash` exactly when
/// this holds, and fails regardless of the password when it does not.
pub uninterp spec fn bcrypt_hash_readable(hash: Seq<char>) -> bool;

/// Relies on `bcrypt::verify`: it re-derives the hash of `password` from the
/// salt and cost stored in `hash` and compares; the result is deterministic
/// in its two arguments.  It fails exactly when `hash` itself cannot be
/// parsed (a malformed hash, or a stored cost outside the allowed range),
/// which does not depend on the password.
#[verifier::external_body]
fn verify_password(password: &str, hash: &str) -> (r: Result<bool, Error>)
    ensures
        r is Ok <==> bcrypt_hash_readable(hash@),
        r matches Ok(b) ==> b == bcrypt_verifies(password@, hash@),
        r matches Err(e) ==> e is PasswordHash,
{
    match bcrypt::verify(password, hash) {
        Ok(ok) => Ok(ok),
        Err(error) => Err(Error::PasswordHash { message: format!("{error}") }),
    }
}

/// Decide the outcome of `login(username, password)` once the backend has
/// fetched the account stored under that username (`None` when the username
/// is unknown).  Wrong credentials are an absence, never an error: the
/// caller gets `Ok(None)` both for an unknown username and for a wrong
/// password.  An error comes exactly when the fetched account's stored hash
/// is unreadable; on a readable hash the check always answers, with the
/// account itself when the password matches its hash.
pub fn login_check(fetched: Option<User>, password: &str) -> (r: Result<Option<User>, Error>)
    ensures
        fetched is None ==> r == Ok::<Option<User>, Error>(None),
        fetched matches Some(user) ==> ((r is Err) <==> !bcrypt_hash_readable(user.password@)),
        fetched matches Some(user) ==> match r {
            Ok(Some(u)) => u == user && bcrypt_verifies(password@, user.password@),
            Ok(None) => !bcrypt_verifies(password@, user.password@),
            Err(e) => e is PasswordHash,
        },
{
    match fetched {
        None => Ok(None),
        Some(user) => match verify_password(password, user.password.as_str()) {
            Err(e) => Err(e),
            Ok(true) => Ok(Some(user)),
            Ok(false) => Ok(None),
        },
    }
}

/// Decide the outcome of `login_single_user` from the single-user login
/// attempt: the one expected account, or `SingleUserNotFound` when the
/// attempt came up empty.
pub fn single_user_login(attempt: Option<User>) -> (r: Result<User, Error>)
    ensures
        attempt matches Some(user) ==> r == Ok::<User, Error>(user),
        attempt is None ==> r == Err::<User, Error>(Error::SingleUserNotFound),
{
    match attempt {
        Some(user) => Ok(user),
        None => Err(Error::SingleUserNotFound),
    }
}

} // verus!
