//! Bearer tokens: HS256 JSON Web Tokens whose claims carry the user id, the
//! expiry time and the token's kind.
use vstd::prelude::*;

use crate::clock::{is_timestamp, NANOS_PER_HOUR, NANOS_PER_SEC};
use crate::text::{chars_of, int_decimal, push_i64_decimal};

verus! {

broadcast use vstd::string::group_string_axioms;

/// The kind of a token, serialized in the `aud` claim.
#[derive(Clone, Copy, Debug, PartialEq, Eq)]
pub enum TokenType {
    Access,
    Refresh,
}

/// The claims of a token.
#[derive(Clone, Copy, Debug, PartialEq, Eq)]
pub struct Claims {
    /// The user id.
    pub sub: i64,
    /// Expiry, in nanoseconds since the Unix epoch.
    pub exp: i128,
    /// The token's kind.
    pub aud: TokenType,
}

/// The claims of the bearer token that authenticated a request.
#[derive(Clone, Copy, Debug, PartialEq, Eq)]
pub struct AuthClaims(pub Claims);

/// The signing secret, set once at startup.
pub struct AuthSecret {
    secret: String,
}

impl View for AuthSecret {
    type V = Seq<char>;

    closed spec fn view(&self) -> Seq<char> {
        self.secret@
    }
}

/// Takes the signing secret for the tokens of this process.
pub fn init(secret: String) -> (k: AuthSecret)
    ensures
        k@ == secret@,
{
    AuthSecret { secret }
}

impl AuthSecret {
    /// The signing secret.
    pub fn secret(&self) -> (s: &str)
        ensures
            s@ == self@,
    {
        self.secret.as_str()
    }
}

/// An authentication failure and the HTTP status that reports it.
#[derive(Clone, Debug, PartialEq, Eq)]
pub struct AuthError {
    pub message: String,
    pub status: u16,
}

/// HTTP 401 Unauthorized.
pub const UNAUTHORIZED: u16 = 401;

// ---------------------------------------------------------------------------
// The claims as JSON
// ---------------------------------------------------------------------------

/// The serialized name of a token kind (`serde(rename_all = "snake_case")`).
pub open spec fn token_type_name(t: TokenType) -> Seq<char> {
    match t {
        TokenType::Access => seq!['a', 'c', 'c', 'e', 's', 's'],
        TokenType::Refresh => seq!['r', 'e', 'f', 'r', 'e', 's', 'h'],
    }
}

/// The claims object as `serde_json` writes a struct with the fields `sub`,
/// `exp` and `aud`, in that order, where `exp` is a count of seconds:
/// `{"sub":..,"exp":..,"aud":".."}`.
pub open spec fn claims_text(sub: int, exp_secs: int, aud: TokenType) -> Seq<char> {
    seq!['{', '"', 's', 'u', 'b', '"', ':'] + int_decimal(sub) + seq![
        ',',
        '"',
        'e',
        'x',
        'p',
        '"',
        ':',
    ] + int_decimal(exp_secs) + seq![',', '"', 'a', 'u', 'd', '"', ':', '"'] + token_type_name(
        aud,
    ) + seq!['"', '}']
}

/// Text that `claims_text` frames: a JSON object.
pub open spec fn is_claims_text(s: Seq<char>) -> bool {
    exists|sub: i64, exp_secs: i64, aud: TokenType| s == claims_text(sub as int, exp_secs as int, aud)
}

/// Whole seconds since the epoch of the time `t`, rounded down: the `exp`
/// claim of a token that expires at `t`.
pub open spec fn secs_of(t: int) -> int {
    t / (NANOS_PER_SEC as int)
}

/// The `exp` claim for the expiry `t`.
pub fn expiry_secs(t: i128) -> (s: i64)
    requires
        is_timestamp(t as int),
    ensures
        s as int == secs_of(t as int),
{
    let secs = if t >= 0 {
        t / NANOS_PER_SEC
    } else {
        -((-t + NANOS_PER_SEC - 1) / NANOS_PER_SEC)
    };
    proof {
        vstd::arithmetic::div_mod::lemma_fundamental_div_mod(t as int, NANOS_PER_SEC as int);
        if t < 0 {
            vstd::arithmetic::div_mod::lemma_fundamental_div_mod(
                -t + NANOS_PER_SEC - 1,
                NANOS_PER_SEC as int,
            );
        }
        assert(secs == secs_of(t as int));
    }
    secs as i64
}

/// Writes the claims object for a token.
pub fn claims_json(sub: i64, exp_secs: i64, aud: TokenType) -> (s: String)
    ensures
        s@ == claims_text(sub as int, exp_secs as int, aud),
{
    proof {
        reveal_strlit("{\"sub\":");
        reveal_strlit(",\"exp\":");
        reveal_strlit(",\"aud\":\"");
        reveal_strlit("access");
        reveal_strlit("refresh");
        reveal_strlit("\"}");
    }
    let mut s = String::new();
    s.append("{\"sub\":");
    push_i64_decimal(&mut s, sub);
    s.append(",\"exp\":");
    push_i64_decimal(&mut s, exp_secs);
    s.append(",\"aud\":\"");
    match aud {
        TokenType::Access => s.append("access"),
        TokenType::Refresh => s.append("refresh"),
    }
    s.append("\"}");
    assert(s@ =~= claims_text(sub as int, exp_secs as int, aud));
    s
}

// ---------------------------------------------------------------------------
// Signing and checking
// ---------------------------------------------------------------------------

/// The token that `jsonwebtoken::encode` makes with the default header
/// (HS256) for the claims object `claims` and the HMAC secret `secret`.
pub uninterp spec fn hs256_token(claims: Seq<char>, secret: Seq<char>) -> Seq<char>;

/// `true` when the token's header names HS256 and its last segment is the
/// HMAC-SHA256, under `secret`, of the two segments before it: the signature
/// check of `jsonwebtoken::decode` for an HS256 key.
pub uninterp spec fn hs256_signed(token: Seq<char>, secret: Seq<char>) -> bool;

/// Signs a claims object with `jsonwebtoken::encode`, the default header and
/// `EncodingKey::from_secret`; the object goes in as a `serde_json`
/// `RawValue`, which serializes as the text itself. Claimed: the token is the
/// named `hs256_token` of the text and the secret; it is three base64url
/// segments joined by two dots, its middle segment carries the text as it is
/// (`jwt_claims_text`), and its signature is the HS256 one under the secret
/// (`hs256_signed`). With an HMAC key and the HS256 header, `encode` does not
/// fail.
#[verifier::external_body]
fn encode_claims(claims: String, secret: &str) -> (t: String)
    requires
        is_claims_text(claims@),
    ensures
        t@ == hs256_token(claims@, secret@),
        jwt_claims_text(t@) == claims@,
        hs256_signed(t@, secret@),
        dot_count(t@) == 2,
{
    let raw = serde_json::value::RawValue::from_string(claims).expect("claims are a JSON object");
    jsonwebtoken::encode(
        &jsonwebtoken::Header::default(),
        &raw,
        &jsonwebtoken::EncodingKey::from_secret(secret.as_bytes()),
    ).expect("HS256 signing does not fail")
}

/// Number of `'.'` in a token.
pub open spec fn dot_count(t: Seq<char>) -> nat
    decreases t.len(),
{
    if t.len() == 0 {
        0
    } else {
        dot_count(t.drop_last()) + if t.last() == '.' {
            1nat
        } else {
            0nat
        }
    }
}

/// The claims JSON that a token carries: its middle dot-separated segment,
/// base64url-decoded, without the whitespace around the JSON value.
pub uninterp spec fn jwt_claims_text(token: Seq<char>) -> Seq<char>;

/// `true` when the token's `aud` claim passes `jsonwebtoken`'s audience
/// check against `audiences`: it is missing, or it is neither a string nor a
/// list of strings, or it is a string among them, or a list that shares one
/// with them.
pub uninterp spec fn jwt_audience_accepted(token: Seq<char>, audiences: Seq<Seq<char>>) -> bool;

/// Checks a token with `jsonwebtoken::decode`, `DecodingKey::from_secret`
/// and `Validation::default()` with `set_audience(audiences)`: the signature
/// must be HS256 under the secret, `exp` must be a number of seconds that
/// is not more than a minute past, and `aud` must be one of `audiences`. It
/// hands back the claims object's JSON text, or the error's message. Whether
/// it succeeds depends on the clock, and so does the message of most
/// failures. Claimed: a token that passes carries the claims that come back
/// (`jwt_claims_text`, the payload that `decode` deserializes into a
/// `RawValue`), is signed with the secret (`hs256_signed`) and names an
/// accepted audience (`jwt_audience_accepted`); a token with fewer than two
/// dots is refused with `InvalidToken` (`decode` splits it with
/// `rsplitn(2, '.')` twice); a token with more than two dots is refused (its
/// header segment then holds a `'.'`, which base64url decoding rejects).
#[verifier::external_body]
pub(crate) fn decode_token(token: &str, secret: &str, audiences: &Vec<String>) -> (r: Result<
    String,
    String,
>)
    ensures
        r matches Ok(c) ==> c@ == jwt_claims_text(token@) && dot_count(token@) == 2
            && hs256_signed(token@, secret@) && jwt_audience_accepted(
            token@,
            audiences.deep_view(),
        ),
        r matches Err(m) ==> (dot_count(token@) < 2 ==> m@ == "InvalidToken"@),
{
    let mut validation = jsonwebtoken::Validation::default();
    validation.set_audience(audiences);
    match jsonwebtoken::decode::<Box<serde_json::value::RawValue>>(
        token,
        &jsonwebtoken::DecodingKey::from_secret(secret.as_bytes()),
        &validation,
    ) {
        Ok(data) => Ok(data.claims.get().to_string()),
        Err(e) => Err(e.to_string()),
    }
}

/// The audiences a bearer token may name: the two token kinds.
pub open spec fn accepted_audiences() -> Seq<Seq<char>> {
    seq![token_type_name(TokenType::Access), token_type_name(TokenType::Refresh)]
}

/// The audiences a bearer token may name.
pub fn token_audiences() -> (v: Vec<String>)
    ensures
        v.deep_view() == accepted_audiences(),
{
    proof {
        reveal_strlit("access");
        reveal_strlit("refresh");
    }
    let a = String::from_str("access");
    let r = String::from_str("refresh");
    assert(a@ =~= token_type_name(TokenType::Access));
    assert(r@ =~= token_type_name(TokenType::Refresh));
    let mut v: Vec<String> = Vec::new();
    v.push(a);
    v.push(r);
    assert(v@[0].deep_view() == token_type_name(TokenType::Access));
    assert(v@[1].deep_view() == token_type_name(TokenType::Refresh));
    assert(v.deep_view() =~= accepted_audiences());
    v
}

/// The claims object of the token for `claims`.
pub open spec fn claims_of(claims: Claims) -> Seq<char> {
    claims_text(claims.sub as int, secs_of(claims.exp as int), claims.aud)
}

/// The token for `claims` signed with `secret`.
pub open spec fn token_for(claims: Claims, secret: Seq<char>) -> Seq<char> {
    hs256_token(claims_of(claims), secret)
}

/// Signs `claims`. The token carries the claims object it was made from and
/// is signed with `secret`.
pub fn sign_claims(claims: &Claims, secret: &str) -> (t: String)
    requires
        is_timestamp(claims.exp as int),
    ensures
        t@ == token_for(*claims, secret@),
        jwt_claims_text(t@) == claims_of(*claims),
        hs256_signed(t@, secret@),
        dot_count(t@) == 2,
{
    let exp_secs = expiry_secs(claims.exp);
    let json = claims_json(claims.sub, exp_secs, claims.aud);
    assert(is_claims_text(json@));
    encode_claims(json, secret)
}

/// The expiry of a token made at `now` that lasts `exp_hours` hours; the hour
/// count is read as an `i64`, as `exp_hours as i64` does.
pub open spec fn hours_expiry(now: int, exp_hours: u64) -> int {
    now + (exp_hours as i64) * NANOS_PER_HOUR
}

/// A token made at `now` for `h` hours expires `h` times 3_600_000_000_000
/// nanoseconds later, and its `exp` claim is `h * 3600` seconds after that
/// of `now`: every added hour adds an hour, with no cap.
pub proof fn lemma_expiry_counts_hours(now: int, h: u64)
    requires
        h <= i64::MAX,
    ensures
        hours_expiry(now, h) == now + h * 3_600_000_000_000,
        secs_of(hours_expiry(now, h)) == secs_of(now) + h * 3600,
{
    assert(h * 3_600_000_000_000 == (h * 3600) * 1_000_000_000) by (nonlinear_arith);
    vstd::arithmetic::div_mod::lemma_hoist_over_denominator(now, h * 3600, 1_000_000_000);
}

/// `TimeDelta::hours` accepts the hour count.
pub open spec fn hours_in_range(exp_hours: u64) -> bool {
    -2_562_047_788_015 <= (exp_hours as i64) <= 2_562_047_788_015
}

/// Makes the token of user `user_id` of kind `token_type` that expires
/// `exp_hours` hours after `now`.
pub fn gen_auth_token(
    key: &AuthSecret,
    now: i128,
    user_id: i64,
    token_type: TokenType,
    exp_hours: u64,
) -> (t: String)
    requires
        is_timestamp(now as int),
        hours_in_range(exp_hours),
        is_timestamp(hours_expiry(now as int, exp_hours)),
    ensures
        t@ == token_for(
            Claims { sub: user_id, exp: hours_expiry(now as int, exp_hours) as i128, aud: token_type },
            key@,
        ),
        jwt_claims_text(t@) == claims_of(
            Claims { sub: user_id, exp: hours_expiry(now as int, exp_hours) as i128, aud: token_type },
        ),
        exp_hours <= i64::MAX ==> jwt_claims_text(t@) == claims_text(
            user_id as int,
            secs_of(now as int) + exp_hours * 3600,
            token_type,
        ),
        hs256_signed(t@, key@),
        dot_count(t@) == 2,
{
    let hours = exp_hours as i64;
    let exp = now + (hours as i128) * NANOS_PER_HOUR;
    let claims = Claims { sub: user_id, exp, aud: token_type };
    proof {
        if exp_hours <= i64::MAX {
            lemma_expiry_counts_hours(now as int, exp_hours);
        }
    }
    sign_claims(&claims, key.secret())
}

/// The answer to a token check whose outcome is `decoded`: the claims text
/// as it came, or 401 with the decoder's message.
pub fn check_outcome(decoded: Result<String, String>) -> (r: Result<String, AuthError>)
    ensures
        match decoded {
            Ok(c) => r matches Ok(d) && d@ == c@,
            Err(m) => r matches Err(e) && e.message@ == m@ && e.status == UNAUTHORIZED,
        },
{
    match decoded {
        Ok(claims) => Ok(claims),
        Err(message) => Err(AuthError { message, status: UNAUTHORIZED }),
    }
}

/// Checks a token and hands back its claims object as JSON text; a token that
/// fails the check is answered with 401 and the decoder's message (see
/// `check_outcome`). Only a token signed with the secret and made for one of
/// the two token kinds passes, and its claims come back as it carries them;
/// a token without exactly two dots is refused.
pub fn parse_auth_token(key: &AuthSecret, token: &str) -> (r: Result<String, AuthError>)
    ensures
        r matches Err(e) ==> e.status == UNAUTHORIZED,
        r matches Ok(c) ==> c@ == jwt_claims_text(token@) && hs256_signed(token@, key@)
            && jwt_audience_accepted(token@, accepted_audiences()),
        dot_count(token@) < 2 ==> (r matches Err(e) && e.message@ == "InvalidToken"@),
        dot_count(token@) > 2 ==> r is Err,
{
    let audiences = token_audiences();
    check_outcome(decode_token(token, key.secret(), &audiences))
}

// ---------------------------------------------------------------------------
// The `Authorization` header
// ---------------------------------------------------------------------------

pub open spec fn bearer_prefix() -> Seq<char> {
    seq!['B', 'e', 'a', 'r', 'e', 'r', ' ']
}

/// What the header check answers: the token after `Bearer `, or 401 with a
/// message for a missing header or another scheme.
pub open spec fn spec_bearer_token(header: Option<Seq<char>>) -> Result<Seq<char>, Seq<char>> {
    match header {
        None => Err("Missing Authorization header"@),
        Some(h) => if h.len() >= 7 && h.subrange(0, 7) == bearer_prefix() {
            Ok(h.subrange(7, h.len() as int))
        } else {
            Err("Authorization header must use the Bearer scheme"@)
        },
    }
}

/// Takes the token out of an `Authorization` header value.
pub fn bearer_token(header: Option<&str>) -> (r: Result<String, AuthError>)
    ensures
        match (r, spec_bearer_token(
            match header {
                Some(h) => Some(h@),
                None => None,
            },
        )) {
            (Ok(t), Ok(u)) => t@ == u,
            (Err(e), Err(m)) => e.message@ == m && e.status == UNAUTHORIZED,
            _ => false,
        },
{
    match header {
        None => Err(
            AuthError {
                message: String::from_str("Missing Authorization header"),
                status: UNAUTHORIZED,
            },
        ),
        Some(h) => {
            let v = chars_of(h);
            let prefix: Vec<char> = vec!['B', 'e', 'a', 'r', 'e', 'r', ' '];
            let mut ok = v.len() >= 7;
            let mut k: usize = 0;
            while ok && k < 7
                invariant
                    v@ == h@,
                    prefix@ == bearer_prefix(),
                    k <= 7,
                    ok ==> v@.len() >= 7,
                    ok ==> forall|j: int| 0 <= j < k ==> v@[j] == prefix@[j],
                    !ok ==> !(v@.len() >= 7 && v@.subrange(0, 7) == bearer_prefix()),
                decreases 7 - k,
            {
                if v[k] != prefix[k] {
                    assert(v@.subrange(0, 7)[k as int] != bearer_prefix()[k as int]);
                    ok = false;
                }
                k = k + 1;
            }
            if ok {
                assert(v@.subrange(0, 7) =~= bearer_prefix());
                let t = h.substring_char(7, v.len());
                Ok(String::from_str(t))
            } else {
                Err(
                    AuthError {
                        message: String::from_str(
                            "Authorization header must use the Bearer scheme",
                        ),
                        status: UNAUTHORIZED,
                    },
                )
            }
        },
    }
}

} // verus!
