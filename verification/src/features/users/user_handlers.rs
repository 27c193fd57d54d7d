//! Registration: hash the password, insert the user, and answer with tokens.
use vstd::prelude::*;

use super::{CreateUserRequest, CreateUserResponse, UserAuthTokens};
use crate::auth::{
    gen_auth_token, hours_expiry, lemma_expiry_counts_hours, secs_of, token_for, AuthSecret, Claims,
    TokenType,
};
use crate::clock::is_timestamp;
use crate::helpers::{is_unique_err, unique_violation_code, DbError};

verus! {

/// Hours that a refresh token lasts (a week).
pub const REFRESH_TOKEN_HOURS: u64 = 168;

/// Hours that an access token lasts.
pub const ACCESS_TOKEN_HOURS: u64 = 8;

/// The refresh token handed out at registration expires a week after it was
/// made, and the access token eight hours after.
pub proof fn lemma_token_lifetimes(now: int)
    ensures
        hours_expiry(now, REFRESH_TOKEN_HOURS) == now + 604_800_000_000_000,
        secs_of(hours_expiry(now, REFRESH_TOKEN_HOURS)) == secs_of(now) + 604_800,
        hours_expiry(now, ACCESS_TOKEN_HOURS) == now + 28_800_000_000_000,
        secs_of(hours_expiry(now, ACCESS_TOKEN_HOURS)) == secs_of(now) + 28_800,
{
    lemma_expiry_counts_hours(now, REFRESH_TOKEN_HOURS);
    lemma_expiry_counts_hours(now, ACCESS_TOKEN_HOURS);
}

/// `true` when `bcrypt::verify(password, hash)` returns `Ok(true)`: the
/// hash was made from the password (its first 72 bytes).
pub uninterp spec fn bcrypt_verifies(password: Seq<char>, hash: Seq<char>) -> bool;

/// The start of a bcrypt hash of version 2b at cost 12.
pub open spec fn bcrypt_2b_cost12_prefix() -> Seq<char> {
    seq!['$', '2', 'b', '$', '1', '2', '$']
}

/// Hashes a password with `bcrypt::hash` at `bcrypt::DEFAULT_COST` (12), with
/// a random salt. Claimed: a hash is the 60 characters of the `$2b$12$`
/// format (`HashParts::write_for_version`: version, cost, 22 salt and 31 hash
/// characters) and
/// `bcrypt::verify` accepts the password against it (`bcrypt_verifies`); an
/// error (the random source failed) comes back as its message. Nothing more:
/// the salt is random.
#[verifier::external_body]
fn bcrypt_hash(password: &str) -> (r: Result<String, String>)
    ensures
        r matches Ok(h) ==> h@.len() == 60 && h@.subrange(0, 7) == bcrypt_2b_cost12_prefix()
            && bcrypt_verifies(password@, h@),
{
    match bcrypt::hash(password, bcrypt::DEFAULT_COST) {
        Ok(h) => Ok(h),
        Err(e) => Err(e.to_string()),
    }
}

/// What registration does next.
#[derive(Clone, Debug, PartialEq, Eq)]
pub enum CreateUserStep {
    /// Insert the user with this password hash.
    Insert { username: String, passhash: String },
    /// Answer now.
    Respond(CreateUserResponse),
}

/// What registration does once the password has been hashed (`hashed` is
/// the hash, or the hasher's error message): insert the user, or answer 400
/// with the message.
pub fn after_hashing(user: CreateUserRequest, hashed: Result<String, String>) -> (step:
    CreateUserStep)
    ensures
        match hashed {
            Ok(h) => step matches CreateUserStep::Insert { username, passhash } && username@
                == user.username@ && passhash@ == h@,
            Err(m) => step matches CreateUserStep::Respond(CreateUserResponse::BadRequest(b))
                && b@ == m@,
        },
{
    match hashed {
        Ok(passhash) => CreateUserStep::Insert { username: user.username, passhash },
        Err(e) => CreateUserStep::Respond(CreateUserResponse::BadRequest(e)),
    }
}

/// The first step of registration: hash the password (see `after_hashing`).
pub fn create_user(user: CreateUserRequest) -> (step: CreateUserStep)
    ensures
        match step {
            CreateUserStep::Insert { username, passhash } => username@ == user.username@
                && passhash@.len() == 60 && passhash@.subrange(0, 7) == bcrypt_2b_cost12_prefix()
                && bcrypt_verifies(user.password@, passhash@),
            CreateUserStep::Respond(resp) => resp is BadRequest,
        },
{
    let hashed = bcrypt_hash(user.password.as_str());
    after_hashing(user, hashed)
}

/// Registration can hand out tokens at `now`.
pub open spec fn can_issue_tokens(now: int) -> bool {
    is_timestamp(now) && is_timestamp(hours_expiry(now, REFRESH_TOKEN_HOURS)) && is_timestamp(
        hours_expiry(now, ACCESS_TOKEN_HOURS),
    )
}

/// The answer to a registration once the insert has run: the tokens of the
/// new user, 409 for a taken username, or 500 with the database's message.
pub fn user_created(key: &AuthSecret, now: i128, inserted: Result<i64, DbError>) -> (resp:
    CreateUserResponse)
    requires
        inserted is Ok ==> can_issue_tokens(now as int),
    ensures
        match inserted {
            Ok(id) => resp matches CreateUserResponse::Created(t) && t.refresh_token@ == token_for(
                Claims {
                    sub: id,
                    exp: hours_expiry(now as int, REFRESH_TOKEN_HOURS) as i128,
                    aud: TokenType::Refresh,
                },
                key@,
            ) && t.access_token@ == token_for(
                Claims {
                    sub: id,
                    exp: hours_expiry(now as int, ACCESS_TOKEN_HOURS) as i128,
                    aud: TokenType::Access,
                },
                key@,
            ),
            Err(e) => if e.code matches Some(c) && c@ == unique_violation_code() {
                resp matches CreateUserResponse::Conflict(m) && m@ == "User already exists"@
            } else {
                resp matches CreateUserResponse::InternalError(m) && m@ == e.message@
            },
        },
{
    match inserted {
        Ok(id) => {
            let refresh_token = gen_auth_token(
                key,
                now,
                id,
                TokenType::Refresh,
                REFRESH_TOKEN_HOURS,
            );
            let access_token = gen_auth_token(key, now, id, TokenType::Access, ACCESS_TOKEN_HOURS);
            CreateUserResponse::Created(UserAuthTokens { refresh_token, access_token })
        },
        Err(e) => {
            if is_unique_err(&e) {
                CreateUserResponse::Conflict(String::from_str("User already exists"))
            } else {
                CreateUserResponse::InternalError(e.message)
            }
        },
    }
}

} // verus!
