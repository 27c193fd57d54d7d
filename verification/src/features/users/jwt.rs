//! Tokens whose lifetime is counted in whole days, checked against the
//! `JWT_SECRET` of the environment.
use vstd::prelude::*;

pub use crate::auth::{Claims, TokenType};
use crate::auth::{
    accepted_audiences, check_outcome, claims_of, decode_token, dot_count, hs256_signed,
    jwt_audience_accepted, jwt_claims_text, secs_of, sign_claims, token_audiences, token_for,
    AuthError, UNAUTHORIZED,
};
use crate::clock::{is_timestamp, NANOS_PER_DAY};

verus! {

/// The expiry of a token made at `now` that lasts `days` days.
pub open spec fn days_expiry(now: int, days: u64) -> int {
    now + days * NANOS_PER_DAY
}

/// A token made at `now` for `days` days expires `days` times
/// 86_400_000_000_000 nanoseconds later, and its `exp` claim is
/// `days * 86400` seconds after that of `now`.
pub proof fn lemma_expiry_counts_days(now: int, days: u64)
    ensures
        days_expiry(now, days) == now + days * 86_400_000_000_000,
        secs_of(days_expiry(now, days)) == secs_of(now) + days * 86400,
{
    assert(days * 86_400_000_000_000 == (days * 86400) * 1_000_000_000) by (nonlinear_arith);
    vstd::arithmetic::div_mod::lemma_hoist_over_denominator(now, days * 86400, 1_000_000_000);
}

/// `checked_add_days(Days::new(days))` succeeds.
pub open spec fn days_in_range(now: int, days: u64) -> bool {
    days <= i32::MAX && is_timestamp(days_expiry(now, days))
}

/// Makes the token of user `user_id` of kind `token_type` that expires
/// `exp_hours` days after `now`, signed with `secret`. The count is of days,
/// as `checked_add_days(Days::new(exp_hours))` takes it, whatever its name.
pub fn gen_auth_token(
    secret: &str,
    now: i128,
    user_id: i64,
    token_type: TokenType,
    exp_hours: u64,
) -> (t: String)
    requires
        is_timestamp(now as int),
        days_in_range(now as int, exp_hours),
    ensures
        t@ == token_for(
            Claims { sub: user_id, exp: days_expiry(now as int, exp_hours) as i128, aud: token_type },
            secret@,
        ),
        jwt_claims_text(t@) == claims_of(
            Claims { sub: user_id, exp: days_expiry(now as int, exp_hours) as i128, aud: token_type },
        ),
        hs256_signed(t@, secret@),
        dot_count(t@) == 2,
{
    let exp = now + (exp_hours as i128) * NANOS_PER_DAY;
    let claims = Claims { sub: user_id, exp, aud: token_type };
    sign_claims(&claims, secret)
}

/// Checks the token of a bearer credential against `secret` and hands back
/// its claims object as JSON text; a failed check is answered with 401 and
/// the decoder's message.
pub fn parse_auth_token(token: &str, secret: &str) -> (r: Result<String, AuthError>)
    ensures
        r matches Err(e) ==> e.status == UNAUTHORIZED,
        r matches Ok(c) ==> c@ == jwt_claims_text(token@) && hs256_signed(token@, secret@)
            && jwt_audience_accepted(token@, accepted_audiences()),
        dot_count(token@) < 2 ==> (r matches Err(e) && e.message@ == "InvalidToken"@),
        dot_count(token@) > 2 ==> r is Err,
{
    let audiences = token_audiences();
    check_outcome(decode_token(token, secret, &audiences))
}

} // verus!
