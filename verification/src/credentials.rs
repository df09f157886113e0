//! Accounts and passwords: what is stored of a user, what a client sends to
//! register or log in, and the decision whether a login is granted.

use vstd::prelude::*;
use vstd::string::*;
use crate::identity::{decimal_i32, decimal_text, Claims, TOKEN_LIFETIME_SECS};

verus! {

broadcast use group_string_axioms;

/// A registered user, as the user store holds it.
#[derive(Debug, Clone, PartialEq, Eq)]
pub struct User {
    pub id: i32,
    pub login: String,
    /// The bcrypt hash of the user's password.
    pub hashed_password: String,
}

/// What a client sends to register, and to log in.
#[derive(Debug, Clone, PartialEq, Eq)]
pub struct RegisterRequest {
    pub login: String,
    pub password: String,
}

/// Declares `bcrypt::BcryptError`, the reason bcrypt gives when it fails.
///
/// Trusted: nothing is claimed of it. The library only tells it from success.
#[verifier::external_type_specification]
#[verifier::external_body]
pub struct ExBcryptError(bcrypt::BcryptError);

/// What `bcrypt::verify` makes of a password and a stored hash: `Some(true)`
/// where the hash is that of the password, `Some(false)` where it is the hash
/// of something else, `None` where bcrypt reports an error, as it does for a
/// text that is no bcrypt hash at all.
pub uninterp spec fn bcrypt_verdict(password: Seq<char>, hash: Seq<char>) -> Option<bool>;

/// Calls `bcrypt::verify`.
///
/// Trusted: the result is bcrypt's verdict on the two texts, which depends on
/// nothing but them; an error of bcrypt stands for "no verdict".
#[verifier::external_body]
fn bcrypt_verify(password: &str, hash: &str) -> (verdict: Result<bool, bcrypt::BcryptError>)
    ensures
        match verdict {
            Ok(same) => bcrypt_verdict(password@, hash@) == Some(same),
            Err(_) => bcrypt_verdict(password@, hash@) is None,
        },
{
    bcrypt::verify(password, hash)
}

/// Calls `bcrypt::hash` at bcrypt's default cost, with a salt that bcrypt
/// draws at random.
///
/// Trusted: whatever hash comes back, bcrypt's verdict on the password and
/// that hash is that they match. Nothing is claimed of which hash it is, nor
/// that one comes back.
#[verifier::external_body]
fn bcrypt_hash(password: &str) -> (hashed: Result<String, bcrypt::BcryptError>)
    ensures
        hashed matches Ok(hash) ==> bcrypt_verdict(password@, hash@) == Some(true),
{
    bcrypt::hash(password, bcrypt::DEFAULT_COST)
}

/// Whether a login is let through, given bcrypt's verdict on the password
/// that was sent: only a clear yes opens the door.
pub open spec fn spec_accepts(verdict: Option<bool>) -> bool {
    verdict == Some(true)
}

/// Why a login was not answered with a token.
#[derive(Debug, Clone, Copy, PartialEq, Eq, Structural)]
pub enum LoginError {
    /// The password is not the user's.
    InvalidCredentials,
    /// The password is the user's, but the moment at which a token issued now
    /// would expire cannot be written down.
    TokenFailure,
}

/// What a login is answered with, given whether the password was accepted:
/// the claims of a fresh token for the user, or the reason there is none.
pub open spec fn granted(
    user_id: i32,
    accepted: bool,
    now: i64,
    outcome: Result<Claims, LoginError>,
) -> bool {
    match outcome {
        Ok(issued) => {
            &&& accepted
            &&& 0 <= now + TOKEN_LIFETIME_SECS <= usize::MAX
            &&& issued.sub@ == decimal_text(user_id as int)
            &&& issued.exp == now + TOKEN_LIFETIME_SECS
            &&& decimal_i32(issued.sub@) == Some(user_id)
        },
        Err(LoginError::InvalidCredentials) => !accepted,
        Err(LoginError::TokenFailure) => accepted && !(0 <= now + TOKEN_LIFETIME_SECS
            <= usize::MAX),
    }
}

/// Answers a login once the password has been checked: with the claims of a
/// token issued to `user` at `now` where it was accepted, with a refusal
/// where it was not.
pub fn grant(user: &User, accepted: bool, now: i64) -> (outcome: Result<Claims, LoginError>)
    ensures
        granted(user.id, accepted, now, outcome),
{
    if !accepted {
        return Err(LoginError::InvalidCredentials);
    }
    match Claims::issue(user.id, now) {
        Some(issued) => Ok(issued),
        None => Err(LoginError::TokenFailure),
    }
}

/// Whether `password` is the one that `hashed` was made from. A text that is
/// no bcrypt hash matches no password.
pub fn verify_password(password: &str, hashed: &str) -> (accepted: bool)
    ensures
        accepted == spec_accepts(bcrypt_verdict(password@, hashed@)),
{
    match bcrypt_verify(password, hashed) {
        Ok(same) => same,
        Err(_) => false,
    }
}

/// A fresh hash of `password`, to be stored in place of it; `None` where
/// bcrypt could not make one. Whatever hash comes back, the password
/// verifies against it.
pub fn hash_password(password: &str) -> (hashed: Option<String>)
    ensures
        hashed matches Some(hash) ==> spec_accepts(bcrypt_verdict(password@, hash@)),
{
    stored_hash(bcrypt_hash(password))
}

/// What is kept of bcrypt's answer to a request for a hash: the hash where it
/// made one, nothing where it failed. The reason of a failure is dropped.
pub fn stored_hash(answer: Result<String, bcrypt::BcryptError>) -> (hashed: Option<String>)
    ensures
        hashed == (match answer {
            Ok(hash) => Some(hash),
            Err(_) => None::<String>,
        }),
{
    match answer {
        Ok(hash) => Some(hash),
        Err(_) => None,
    }
}

/// Decides a login at the moment `now`: the claims of a fresh token for
/// `user` where the request carries the user's password, a refusal where it
/// does not.
pub fn login(request: &RegisterRequest, user: &User, now: i64) -> (outcome: Result<
    Claims,
    LoginError,
>)
    ensures
        granted(
            user.id,
            spec_accepts(bcrypt_verdict(request.password@, user.hashed_password@)),
            now,
            outcome,
        ),
{
    let accepted = verify_password(request.password.as_str(), user.hashed_password.as_str());
    grant(user, accepted, now)
}

/// The seven characters that an authorization header puts before a token.
pub open spec fn bearer_prefix() -> Seq<char> {
    seq!['B', 'e', 'a', 'r', 'e', 'r', ' ']
}

/// The token inside an authorization header: what follows `Bearer `, where
/// the header begins with exactly that; none where it does not.
pub fn bearer_token(header: &str) -> (token: Option<String>)
    ensures
        match token {
            Some(text) => header@ == bearer_prefix() + text@,
            None => !bearer_prefix().is_prefix_of(header@),
        },
{
    let prefix = "Bearer ";
    proof {
        reveal_strlit("Bearer ");
        assert(prefix@ =~= bearer_prefix());
    }
    let length = header.unicode_len();
    if length < 7 {
        return None;
    }
    let mut i: usize = 0;
    while i < 7
        invariant
            i <= 7,
            length == header@.len(),
            length >= 7,
            prefix@ == bearer_prefix(),
            forall|j: int| 0 <= j < i ==> header@[j] == bearer_prefix()[j],
        decreases 7 - i,
    {
        if header.get_char(i) != prefix.get_char(i) {
            return None;
        }
        i += 1;
    }
    let rest = header.substring_char(7, length);
    proof {
        assert(header@ =~= bearer_prefix() + rest@);
    }
    Some(String::from_str(rest))
}

} // verus!
