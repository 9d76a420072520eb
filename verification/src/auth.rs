//! Token service: issues and verifies signed, time-bound bearer tokens.
//!
//! A token proves that its holder presented a credential (an email and a
//! pre-hashed password) within the last [`TOKEN_TTL_SECONDS`] seconds. The
//! signing itself is done by the `jsonwebtoken` crate with an HMAC-SHA-512
//! keyed signature; what that crate guarantees is captured by the trusted
//! wrappers around it, and everything else here is verified against those
//! contracts.

use jsonwebtoken::errors::ErrorKind;
use jsonwebtoken::{Algorithm, DecodingKey, EncodingKey, Header, Validation};
use serde_json::Value;
use vstd::prelude::*;
use vstd::string::StrSliceExecFns;

verus! {

/// Lifetime of a token, in seconds: a token issued at `t` expires at
/// `t + TOKEN_TTL_SECONDS`, the expiry instant itself excluded.
pub const TOKEN_TTL_SECONDS: u64 = 300;

/// Mathematical view of the claims.
pub struct ClaimsView {
    pub expires_at: u64,
    pub issued_at: u64,
    pub email: Seq<char>,
    pub hashed_password: Seq<char>,
}

/// The claims carried inside a token: the instants it was issued at and
/// expires at (unix seconds), and the credential it was issued for.
#[derive(Debug, Clone, PartialEq, Eq)]
pub struct Claims {
    /// Expires at time (unix seconds); a token is valid strictly before it.
    pub expires_at: u64,
    /// Issued at time (unix seconds).
    pub issued_at: u64,
    /// Email the token was issued for.
    pub email: String,
    /// Hashed password embedded for downstream re-verification.
    pub hashed_password: String,
}

impl View for Claims {
    type V = ClaimsView;

    open spec fn view(&self) -> ClaimsView {
        ClaimsView {
            expires_at: self.expires_at,
            issued_at: self.issued_at,
            email: self.email@,
            hashed_password: self.hashed_password@,
        }
    }
}

/// Data sent by a client during login: the identity and the password,
/// already hashed by the caller. This layer never sees a plaintext password.
#[derive(Debug, Clone, PartialEq, Eq)]
pub struct Login {
    /// Email of the user.
    pub email: String,
    /// Pre-hashed password of the user.
    pub hashed_password: String,
}

/// Every way the token service can fail. The variants are distinguishable so
/// a caller can branch on the exact kind; none is collapsed into another.
#[derive(Debug, Clone, Copy, PartialEq, Eq, Structural)]
pub enum AuthError {
    /// The process-wide signing secret is absent: a startup-configuration
    /// error, surfaced before any token work is attempted.
    MissingSecret,
    /// The presented string is not structurally a token.
    MalformedToken,
    /// The signature does not match the claims under this secret.
    InvalidSignature,
    /// The signature is valid but the token's expiry has passed.
    Expired,
    /// The signing backend or the system clock failed. The backend cannot
    /// fail for the fixed HMAC configuration used here; the variant is kept
    /// so that no failure is silent.
    SigningFailure,
}

/// The process-wide signing secret, loaded once at startup and passed into
/// the token service explicitly. The secret is never exposed, logged, or
/// embedded in a token.
pub struct SigningContext {
    secret: Vec<u8>,
}

impl View for SigningContext {
    type V = Seq<u8>;

    closed spec fn view(&self) -> Seq<u8> {
        self.secret@
    }
}

impl SigningContext {
    /// Wraps a secret already read from the environment by the caller.
    pub fn new(secret: Vec<u8>) -> (r: Self)
        ensures
            r@ == secret@,
    {
        SigningContext { secret }
    }
}

/// The token that `jsonwebtoken` produces for the given secret and claims:
/// an HS512-signed serialization of the claims. Its exact shape takes pages
/// to state, but it is a function of these arguments alone, so it is only
/// named here; the trusted wrappers below relate it to the real calls.
pub uninterp spec fn token_of(
    secret: Seq<u8>,
    issued_at: u64,
    expires_at: u64,
    email: Seq<char>,
    hashed_password: Seq<char>,
) -> Seq<char>;

/// Relies on jsonwebtoken::encode with an HS512 header and a secret key from
/// EncodingKey::from_secret: the token is computed from the secret and the
/// claims alone (HMAC over a canonical claims encoding, no randomness), and
/// it embeds the claims, so equal tokens carry equal claims. The token is
/// three base64url segments joined by dots, so it holds no space character.
/// The call cannot fail: serializing a `serde_json::Value` is infallible and
/// HMAC signing returns a digest unconditionally.
#[verifier::external_body]
fn encode_hs512(
    secret: &Vec<u8>,
    issued_at: u64,
    expires_at: u64,
    email: &String,
    hashed_password: &String,
) -> (r: Option<String>)
    ensures
        r matches Some(t) ==> t@ == token_of(
            secret@,
            issued_at,
            expires_at,
            email@,
            hashed_password@,
        ),
        r matches Some(t) ==> forall|i2: u64, e2: u64, em2: Seq<char>, hp2: Seq<char>|
            t@ == #[trigger] token_of(secret@, i2, e2, em2, hp2) ==> i2 == issued_at && e2
                == expires_at && em2 == email@ && hp2 == hashed_password@,
        r matches Some(t) ==> forall|i: int| 0 <= i < t@.len() ==> #[trigger] t@[i] != ' ',
        r is Some,
{
    let mut claims = serde_json::Map::new();
    claims.insert("expires_at".to_string(), Value::from(expires_at));
    claims.insert("issued_at".to_string(), Value::from(issued_at));
    claims.insert("email".to_string(), Value::from(email.clone()));
    claims.insert("hashed_password".to_string(), Value::from(hashed_password.clone()));
    let header = Header::new(Algorithm::HS512);
    jsonwebtoken::encode(&header, &Value::Object(claims), &EncodingKey::from_secret(secret)).ok()
}

/// What the decode call returns for a given secret and token: the embedded
/// claim fields (each absent or of the wrong shape marked off), or which of
/// the two rejections. With the expiry check turned off the call reads no
/// clock, draws no randomness and touches no store, so its outcome is a
/// function of these two arguments alone; it is named here and pinned to the
/// real call by the trusted wrapper below.
pub uninterp spec fn decoded_of(secret: Seq<u8>, token: Seq<char>) -> Result<
    (Option<u64>, Option<u64>, Option<Seq<char>>, Option<Seq<char>>),
    AuthError,
>;

/// The claim fields by view: the strings as their character sequences.
pub open spec fn claim_fields_view(f: (Option<u64>, Option<u64>, Option<String>, Option<String>)) -> (
    Option<u64>,
    Option<u64>,
    Option<Seq<char>>,
    Option<Seq<char>>,
) {
    (
        f.0,
        f.1,
        match f.2 {
            Some(s) => Some(s@),
            None => None,
        },
        match f.3 {
            Some(s) => Some(s@),
            None => None,
        },
    )
}

/// Relies on jsonwebtoken::decode restricted to HS512, with its own expiry
/// check turned off (expiry is checked by this library, against the caller's
/// clock): it accepts every token signed with this secret and hands back the
/// embedded claim fields; a signature that does not match bit-for-bit is
/// reported as its own error kind, and everything structurally unparseable
/// as another. The outcome depends on the secret and the token alone.
#[verifier::external_body]
fn decode_hs512(secret: &Vec<u8>, token: &str) -> (r: Result<(Option<u64>, Option<u64>, Option<String>, Option<String>), AuthError>)
    ensures
        r matches Ok(f) ==> forall|i2: u64, e2: u64, em2: Seq<char>, hp2: Seq<char>|
            token@ == #[trigger] token_of(secret@, i2, e2, em2, hp2) ==> (f.0 == Some(i2) && f.1
                == Some(e2) && (f.2 matches Some(em) && em@ == em2) && (f.3 matches Some(hp)
                && hp@ == hp2)),
        r is Err ==> forall|i2: u64, e2: u64, em2: Seq<char>, hp2: Seq<char>|
            token@ != #[trigger] token_of(secret@, i2, e2, em2, hp2),
        r matches Err(e) ==> e == AuthError::InvalidSignature || e == AuthError::MalformedToken,
        decoded_of(secret@, token@) == match r {
            Ok(f) => Ok(claim_fields_view(f)),
            Err(e) => Err(e),
        },
{
    let mut validation = Validation::new(Algorithm::HS512);
    validation.validate_exp = false;
    validation.required_spec_claims = std::collections::HashSet::new();
    match jsonwebtoken::decode::<Value>(token, &DecodingKey::from_secret(secret), &validation) {
        Ok(d) => Ok((
            d.claims.get("issued_at").and_then(Value::as_u64),
            d.claims.get("expires_at").and_then(Value::as_u64),
            d.claims.get("email").and_then(Value::as_str).map(str::to_string),
            d.claims.get("hashed_password").and_then(Value::as_str).map(str::to_string),
        )),
        Err(e) => match e.kind() {
            ErrorKind::InvalidSignature => Err(AuthError::InvalidSignature),
            _ => Err(AuthError::MalformedToken),
        },
    }
}

/// Relies on std::time::SystemTime::now and duration_since: the system
/// clock as whole seconds since the Unix epoch, or nothing when the clock is
/// before the epoch (where a direct reading would panic). Nothing is assumed
/// of the value.
#[verifier::external_body]
fn now_unix_seconds() -> Option<u64> {
    match std::time::SystemTime::now().duration_since(std::time::UNIX_EPOCH) {
        Ok(since_epoch) => Some(since_epoch.as_secs()),
        Err(_) => None,
    }
}

/// The literal `"Bearer "` that an HTTP authorization header puts in front
/// of the token proper.
pub open spec fn bearer_prefix() -> Seq<char> {
    seq!['B', 'e', 'a', 'r', 'e', 'r', ' ']
}

/// The token part of a bearer string: one leading `"Bearer "` is stripped
/// (case-sensitive, exact match); a string without the prefix is taken as a
/// raw token unchanged.
pub open spec fn strip_bearer(s: Seq<char>) -> Seq<char> {
    if s.len() >= 7 && s.subrange(0, 7) == bearer_prefix() {
        s.subrange(7, s.len() as int)
    } else {
        s
    }
}

/// Whether the string starts with the exact `"Bearer "` prefix.
fn has_bearer_prefix(token: &str) -> (r: bool)
    ensures
        r == (token@.len() >= 7 && token@.subrange(0, 7) == bearer_prefix()),
{
    let n = token.unicode_len();
    if n < 7 {
        return false;
    }
    let r = token.get_char(0) == 'B' && token.get_char(1) == 'e' && token.get_char(2) == 'a'
        && token.get_char(3) == 'r' && token.get_char(4) == 'e' && token.get_char(5) == 'r'
        && token.get_char(6) == ' ';
    proof {
        if r {
            assert(token@.subrange(0, 7) =~= bearer_prefix());
        } else {
            if token@.subrange(0, 7) == bearer_prefix() {
                assert(forall|i: int| 0 <= i < 7 ==> token@.subrange(0, 7)[i] == token@[i]);
                assert(token@[0] == 'B' && token@[1] == 'e' && token@[2] == 'a' && token@[3] == 'r'
                    && token@[4] == 'e' && token@[5] == 'r' && token@[6] == ' ');
            }
        }
    }
    r
}

/// The bearer string with one leading `"Bearer "` stripped if present.
fn strip_bearer_prefix(token: &str) -> (r: &str)
    ensures
        r@ == strip_bearer(token@),
{
    if has_bearer_prefix(token) {
        let n = token.unicode_len();
        token.substring_char(7, n)
    } else {
        token
    }
}

/// Issues a token for the given credential at the given instant: the claims
/// are `{issued_at: now, expires_at: now + TOKEN_TTL_SECONDS, email,
/// hashed_password}`, signed with the context's secret. The token embeds its
/// claims, so tokens issued at different instants are distinct strings.
/// The email must be non-empty; beyond that, no format validation happens
/// here — that is the caller's concern.
pub fn generate_jwt_at(
    ctx: &SigningContext,
    email: String,
    hashed_password: String,
    now: u64,
) -> (r: Result<String, AuthError>)
    requires
        email@.len() > 0,
        now + TOKEN_TTL_SECONDS <= u64::MAX,
    ensures
        r matches Ok(t) ==> t@ == token_of(
            ctx@,
            now,
            (now + TOKEN_TTL_SECONDS) as u64,
            email@,
            hashed_password@,
        ),
        r matches Ok(t) ==> forall|i2: u64, e2: u64, em2: Seq<char>, hp2: Seq<char>|
            t@ == #[trigger] token_of(ctx@, i2, e2, em2, hp2) ==> i2 == now && e2 == now
                + TOKEN_TTL_SECONDS && em2 == email@ && hp2 == hashed_password@,
        r matches Ok(t) ==> forall|i: int| 0 <= i < t@.len() ==> #[trigger] t@[i] != ' ',
        r is Ok,
{
    let expires_at = now + TOKEN_TTL_SECONDS;
    match encode_hs512(&ctx.secret, now, expires_at, &email, &hashed_password) {
        Some(t) => Ok(t),
        None => Err(AuthError::SigningFailure),
    }
}

/// Issues a token for the given credential at the current wall-clock time,
/// truncated to seconds. The exact contract lives on [`generate_jwt_at`];
/// this one only fixes the instant from the clock.
pub fn generate_jwt(ctx: &SigningContext, email: String, hashed_password: String) -> (r: Result<
    String,
    AuthError,
>)
    requires
        email@.len() > 0,
    ensures
        r matches Ok(t) ==> exists|now: u64|
            now + TOKEN_TTL_SECONDS <= u64::MAX && t@ == #[trigger] token_of(
                ctx@,
                now,
                (now + TOKEN_TTL_SECONDS) as u64,
                email@,
                hashed_password@,
            ),
        r matches Ok(t) ==> forall|i: int| 0 <= i < t@.len() ==> #[trigger] t@[i] != ' ',
        r matches Err(e) ==> e == AuthError::SigningFailure,
{
    match now_unix_seconds() {
        Some(now) => {
            if now <= u64::MAX - TOKEN_TTL_SECONDS {
                generate_jwt_at(ctx, email, hashed_password, now)
            } else {
                Err(AuthError::SigningFailure)
            }
        },
        None => Err(AuthError::SigningFailure),
    }
}

/// The outcome of verifying a credential with a given secret at a given
/// instant: one leading `"Bearer "` prefix is stripped, the decode outcome
/// is taken from [`decoded_of`], a structurally complete set of claims is
/// accepted exactly when `now` is strictly before its expiry, and anything
/// incomplete is malformed. A function of its three arguments alone.
pub open spec fn verdict_of(secret: Seq<u8>, credential: Seq<char>, now: u64) -> Result<
    ClaimsView,
    AuthError,
> {
    match decoded_of(secret, strip_bearer(credential)) {
        Ok((Some(issued_at), Some(expires_at), Some(email), Some(hashed_password))) => {
            if now < expires_at {
                Ok(ClaimsView { expires_at, issued_at, email, hashed_password })
            } else {
                Err(AuthError::Expired)
            }
        },
        Ok(_) => Err(AuthError::MalformedToken),
        Err(e) => Err(e),
    }
}

/// Verifies a bearer string at the given instant. One leading `"Bearer "`
/// is stripped; the signature is checked against the context's secret; a
/// token whose signature is valid is accepted exactly when `now` is strictly
/// before its `expires_at`, and rejected as expired from that instant on.
/// On success the embedded claims are returned unchanged; no store lookup
/// is performed. The verdict is a function of the secret, the credential and
/// the instant alone: re-verifying the same credential at the same instant
/// always yields the same outcome.
pub fn decode_jwt_at(ctx: &SigningContext, token: &str, now: u64) -> (r: Result<Claims, AuthError>)
    ensures
        forall|i2: u64, e2: u64, em2: Seq<char>, hp2: Seq<char>|
            strip_bearer(token@) == #[trigger] token_of(ctx@, i2, e2, em2, hp2) ==> if now < e2 {
                r matches Ok(c) && c.issued_at == i2 && c.expires_at == e2 && c.email@ == em2
                    && c.hashed_password@ == hp2
            } else {
                r matches Err(e) && e == AuthError::Expired
            },
        r matches Ok(c) ==> now < c.expires_at,
        r matches Err(e) ==> (e == AuthError::Expired || e == AuthError::InvalidSignature || e
            == AuthError::MalformedToken),
        verdict_of(ctx@, token@, now) == match r {
            Ok(c) => Ok(c@),
            Err(e) => Err(e),
        },
{
    let stripped = strip_bearer_prefix(token);
    match decode_hs512(&ctx.secret, stripped) {
        Err(e) => Err(e),
        Ok((Some(issued_at), Some(expires_at), Some(email), Some(hashed_password))) => {
            if now < expires_at {
                Ok(Claims { expires_at, issued_at, email, hashed_password })
            } else {
                Err(AuthError::Expired)
            }
        },
        Ok(_) => Err(AuthError::MalformedToken),
    }
}

/// Verifies a bearer string at the current wall-clock time (a clock before
/// the Unix epoch is read as the epoch). The exact contract lives on
/// [`decode_jwt_at`]; this one only fixes the instant from the clock.
pub fn decode_jwt(ctx: &SigningContext, token: &str) -> (r: Result<Claims, AuthError>)
    ensures
        forall|i2: u64, e2: u64, em2: Seq<char>, hp2: Seq<char>|
            strip_bearer(token@) == #[trigger] token_of(ctx@, i2, e2, em2, hp2) ==> ((r matches Ok(
                c,
            ) && c.issued_at == i2 && c.expires_at == e2 && c.email@ == em2 && c.hashed_password@
                == hp2) || (r matches Err(e) && e == AuthError::Expired)),
        r matches Err(e) ==> (e == AuthError::Expired || e == AuthError::InvalidSignature || e
            == AuthError::MalformedToken),
{
    let now = match now_unix_seconds() {
        Some(seconds) => seconds,
        None => 0,
    };
    decode_jwt_at(ctx, token, now)
}

/// A string without a space character is left unchanged by the bearer-prefix
/// strip, since the prefix ends in a space. In particular a freshly issued
/// token is its own stripped form.
pub proof fn lemma_strip_bearer_no_space(s: Seq<char>)
    requires
        forall|i: int| 0 <= i < s.len() ==> #[trigger] s[i] != ' ',
    ensures
        strip_bearer(s) == s,
{
    if s.len() >= 7 && s.subrange(0, 7) == bearer_prefix() {
        assert(s.subrange(0, 7)[6] == s[6]);
        assert(bearer_prefix()[6] == ' ');
    }
}

/// An authorization header made of the `"Bearer "` literal followed by a
/// token strips back to exactly that token, whatever the token holds.
pub proof fn lemma_strip_bearer_header(t: Seq<char>)
    ensures
        strip_bearer(bearer_prefix() + t) == t,
{
    let s = bearer_prefix() + t;
    assert(s.subrange(0, 7) =~= bearer_prefix());
    assert(s.subrange(7, s.len() as int) =~= t);
}

/// Law: one leading `"Bearer "` prefix is transparent to verification. A
/// credential made of the prefix and a string that does not itself begin
/// with the prefix verifies to exactly the same outcome as the raw string,
/// under every secret and at every instant.
pub proof fn lemma_bearer_header_equivalent(secret: Seq<u8>, token: Seq<char>, now: u64)
    requires
        token.len() < 7 || token.subrange(0, 7) != bearer_prefix(),
    ensures
        verdict_of(secret, bearer_prefix() + token, now) == verdict_of(secret, token, now),
{
    lemma_strip_bearer_header(token);
}

/// Law: a token issued for a credential verifies successfully at any instant
/// strictly before its expiry and returns exactly the claims it was issued
/// with; at the expiry instant and after it, verification fails as expired.
/// The expiry bound is exclusive: `expires_at` itself is already rejected.
pub fn issue_then_verify_at(
    ctx: &SigningContext,
    email: String,
    hashed_password: String,
    issued_at: u64,
    check_at: u64,
) -> (r: Result<(String, Result<Claims, AuthError>), AuthError>)
    requires
        email@.len() > 0,
        issued_at + TOKEN_TTL_SECONDS <= u64::MAX,
    ensures
        r matches Ok((t, v)) ==> {
            &&& t@ == token_of(
                ctx@,
                issued_at,
                (issued_at + TOKEN_TTL_SECONDS) as u64,
                email@,
                hashed_password@,
            )
            &&& check_at < issued_at + TOKEN_TTL_SECONDS ==> (v matches Ok(c) && c.issued_at
                == issued_at && c.expires_at == issued_at + TOKEN_TTL_SECONDS && c.email@ == email@
                && c.hashed_password@ == hashed_password@)
            &&& check_at >= issued_at + TOKEN_TTL_SECONDS ==> (v matches Err(e) && e
                == AuthError::Expired)
        },
        r is Ok,
{
    match generate_jwt_at(ctx, email, hashed_password, issued_at) {
        Ok(token) => {
            proof {
                lemma_strip_bearer_no_space(token@);
            }
            let verdict = decode_jwt_at(ctx, token.as_str(), check_at);
            Ok((token, verdict))
        },
        Err(e) => Err(e),
    }
}

/// Law: two tokens issued for the same credential at different instants are
/// distinct strings, since each token embeds its own issuance instant; each
/// of them verifies independently until its own expiry.
pub fn issue_pair_at(
    ctx: &SigningContext,
    email: String,
    hashed_password: String,
    first_at: u64,
    second_at: u64,
) -> (r: Result<(String, String), AuthError>)
    requires
        email@.len() > 0,
        first_at != second_at,
        first_at + TOKEN_TTL_SECONDS <= u64::MAX,
        second_at + TOKEN_TTL_SECONDS <= u64::MAX,
    ensures
        r matches Ok((t1, t2)) ==> t1@ != t2@,
        r matches Ok((t1, t2)) ==> t1@ == token_of(
            ctx@,
            first_at,
            (first_at + TOKEN_TTL_SECONDS) as u64,
            email@,
            hashed_password@,
        ) && t2@ == token_of(
            ctx@,
            second_at,
            (second_at + TOKEN_TTL_SECONDS) as u64,
            email@,
            hashed_password@,
        ),
        r is Ok,
{
    let email_again = email.clone();
    let hashed_again = hashed_password.clone();
    let first = generate_jwt_at(ctx, email, hashed_password, first_at);
    match first {
        Ok(t1) => {
            match generate_jwt_at(ctx, email_again, hashed_again, second_at) {
                Ok(t2) => Ok((t1, t2)),
                Err(e) => Err(e),
            }
        },
        Err(e) => Err(e),
    }
}

} // verus!

