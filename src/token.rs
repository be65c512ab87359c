use crate::config::Config;
use crate::store::{SessionStore, Stored};
use crate::text::{has_prefix, starts_with};
use vstd::prelude::*;
use vstd::string::StringExecFns;

verus! {

/// Clock-skew allowance on the expiry and not-before checks, in seconds.
pub const LEEWAY_SECONDS: i64 = 60;

/// How long a burned nonce is remembered past the token's own lifetime, in seconds.
pub const NONCE_GRACE_SECONDS: u64 = 300;

/// The two purposes a token can be minted for.
#[derive(Clone, Copy, Debug, PartialEq, Eq, Structural)]
pub enum TokenType {
    Access,
    Refresh,
}

/// The signed payload of a token.
#[derive(Clone, Debug)]
pub struct TokenClaims {
    /// The user the token speaks for.
    pub sub: String,
    /// Expiry, in seconds since the epoch.
    pub exp: i64,
    /// Issue time, in seconds since the epoch.
    pub iat: i64,
    /// Unique id of this issuance; the key of its session.
    pub jti: String,
    pub iss: String,
    pub aud: String,
    /// `access` or `refresh`.
    pub typ: String,
    /// Random value burned on first verification.
    pub nonce: String,
    /// Start of validity, in seconds since the epoch.
    pub nbf: i64,
}

/// What issuing or verifying a token yields.
#[derive(Clone, Debug)]
pub struct TokenDetails {
    /// The signed token text, present only right after signing.
    pub token: Option<String>,
    pub token_uuid: String,
    pub user_id: String,
    pub expires_in: i64,
}

/// The two random values that make one issuance unique.
#[derive(Clone, Debug)]
pub struct TokenIds {
    pub token_id: String,
    pub nonce: String,
}

/// Why a token is refused.
#[derive(Clone, Copy, Debug, PartialEq, Eq, Structural)]
pub enum VerifyError {
    /// The signature does not match the public key.
    InvalidSignature,
    /// The token is not three dot-separated segments with this library's header and a
    /// readable payload, or its id is shaped like a burned nonce's store key.
    MalformedToken,
    Expired,
    NotYetValid,
    IssuerAudienceMismatch,
    /// The type claim is neither `access` nor `refresh`.
    InvalidTokenType,
    /// The token's nonce was already burned.
    ReplayedToken,
}

pub open spec fn kind_text(t: TokenType) -> Seq<char> {
    match t {
        TokenType::Access => "access"@,
        TokenType::Refresh => "refresh"@,
    }
}

/// The claim checks that follow the signature, in order.
pub open spec fn claims_check(c: TokenClaims, cfg: Config, now: int) -> Result<(), VerifyError> {
    if c.exp < now - LEEWAY_SECONDS {
        Err(VerifyError::Expired)
    } else if c.nbf > now + LEEWAY_SECONDS {
        Err(VerifyError::NotYetValid)
    } else if c.iss@ != cfg.token_issuer@ || c.aud@ != cfg.token_audience@ {
        Err(VerifyError::IssuerAudienceMismatch)
    } else if c.typ@ != "access"@ && c.typ@ != "refresh"@ {
        Err(VerifyError::InvalidTokenType)
    } else if starts_with(c.jti@, nonce_prefix()) {
        Err(VerifyError::MalformedToken)
    } else {
        Ok(())
    }
}

/// The prefix of the store keys that mark burned nonces; no token id may carry it.
pub open spec fn nonce_prefix() -> Seq<char> {
    "nonce:"@
}

/// The store key that marks a nonce as burned.
pub open spec fn nonce_key_of(nonce: Seq<char>) -> Seq<char> {
    nonce_prefix() + nonce
}

/// A token whose claims pass has an id that no burned nonce's record can take.
pub proof fn lemma_checked_id_is_no_nonce_key(c: TokenClaims, cfg: Config, now: int, nonce: Seq<char>)
    requires
        claims_check(c, cfg, now) is Ok,
    ensures
        c.jti@ != nonce_key_of(nonce),
{
    let k = nonce_key_of(nonce);
    assert(k.subrange(0, nonce_prefix().len() as int) =~= nonce_prefix());
}

/// The time-to-live of a burned nonce: the token's lifetime plus a grace period,
/// held within the range of a `u64`.
pub open spec fn nonce_ttl_of(c: TokenClaims) -> u64 {
    let d = c.exp - c.iat + NONCE_GRACE_SECONDS;
    if d < 0 {
        0
    } else if d > u64::MAX {
        u64::MAX
    } else {
        d as u64
    }
}

/// The value stored under a burned nonce.
pub open spec fn burned_marker() -> Seq<char> {
    "used"@
}

pub open spec fn details_of(c: TokenClaims) -> TokenDetails {
    TokenDetails { token: None, token_uuid: c.jti, user_id: c.sub, expires_in: c.exp }
}

/// What verifying `c` at time `now` yields, and the store after it.
pub open spec fn verify_outcome(c: TokenClaims, cfg: Config, now: int, s: Map<Seq<char>, Stored>) -> (
    Result<TokenDetails, VerifyError>,
    Map<Seq<char>, Stored>,
) {
    match claims_check(c, cfg, now) {
        Err(e) => (Err(e), s),
        Ok(_) => if s.contains_key(nonce_key_of(c.nonce@)) {
            (Err(VerifyError::ReplayedToken), s)
        } else {
            (
                Ok(details_of(c)),
                s.insert(nonce_key_of(c.nonce@), (burned_marker(), nonce_ttl_of(c))),
            )
        },
    }
}

/// A token of lifetime `ttl_minutes` can be minted at `now` without leaving the range
/// of an `i64`.
pub open spec fn lifetime_fits(now: int, ttl_minutes: int) -> bool {
    i64::MIN <= ttl_minutes * 60 <= i64::MAX && i64::MIN <= now + ttl_minutes * 60 <= i64::MAX
}

/// `c` is the claim set minted at `now` for `subject`.
pub open spec fn is_issued(
    c: TokenClaims,
    subject: Seq<char>,
    ttl_minutes: int,
    kind: TokenType,
    cfg: Config,
    token_id: Seq<char>,
    nonce: Seq<char>,
    now: int,
) -> bool {
    &&& c.sub@ == subject
    &&& c.exp == now + ttl_minutes * 60
    &&& c.iat == now
    &&& c.nbf == now
    &&& c.jti@ == token_id
    &&& c.nonce@ == nonce
    &&& c.iss@ == cfg.token_issuer@
    &&& c.aud@ == cfg.token_audience@
    &&& c.typ@ == kind_text(kind)
}

impl TokenType {
    /// The text of the type claim.
    pub fn name(&self) -> (r: &'static str)
        ensures
            r@ == kind_text(*self),
    {
        match self {
            TokenType::Access => "access",
            TokenType::Refresh => "refresh",
        }
    }
}

/// Mints the claim set of a token: valid from `now` for `ttl_minutes` minutes.
pub fn issue_claims(
    subject: &str,
    ttl_minutes: i64,
    kind: TokenType,
    config: &Config,
    ids: &TokenIds,
    now: i64,
) -> (r: TokenClaims)
    requires
        lifetime_fits(now as int, ttl_minutes as int),
    ensures
        is_issued(r, subject@, ttl_minutes as int, kind, *config, ids.token_id@, ids.nonce@, now as int),
{
    TokenClaims {
        sub: String::from_str(subject),
        exp: now + ttl_minutes * 60,
        iat: now,
        jti: ids.token_id.clone(),
        iss: config.token_issuer.clone(),
        aud: config.token_audience.clone(),
        typ: String::from_str(kind.name()),
        nonce: ids.nonce.clone(),
        nbf: now,
    }
}

/// Runs the claim checks that follow the signature: expiry and not-before with the
/// leeway, issuer and audience, the type, then that the token id is not shaped like a
/// burned nonce's store key.
pub fn check_claims(claims: &TokenClaims, config: &Config, now: i64) -> (r: Result<(), VerifyError>)
    ensures
        r == claims_check(*claims, *config, now as int),
{
    if (claims.exp as i128) < (now as i128) - (LEEWAY_SECONDS as i128) {
        return Err(VerifyError::Expired);
    }
    if (claims.nbf as i128) > (now as i128) + (LEEWAY_SECONDS as i128) {
        return Err(VerifyError::NotYetValid);
    }
    if !(claims.iss == config.token_issuer) || !(claims.aud == config.token_audience) {
        return Err(VerifyError::IssuerAudienceMismatch);
    }
    let access = String::from_str("access");
    let refresh = String::from_str("refresh");
    if !(claims.typ == access) && !(claims.typ == refresh) {
        return Err(VerifyError::InvalidTokenType);
    }
    if has_prefix(claims.jti.as_str(), "nonce:") {
        return Err(VerifyError::MalformedToken);
    }
    Ok(())
}

/// The store key that marks `nonce` as burned.
pub fn nonce_key(nonce: &str) -> (r: String)
    ensures
        r@ == nonce_key_of(nonce@),
{
    String::from_str("nonce:").concat(nonce)
}

/// How long the burned nonce of `claims` is kept, in seconds.
pub fn nonce_ttl(claims: &TokenClaims) -> (r: u64)
    ensures
        r == nonce_ttl_of(*claims),
{
    let d: i128 = (claims.exp as i128) - (claims.iat as i128) + (NONCE_GRACE_SECONDS as i128);
    if d < 0 {
        0
    } else if d > u64::MAX as i128 {
        u64::MAX
    } else {
        d as u64
    }
}

/// The time-to-live of a session whose token lives `ttl_minutes` minutes.
pub fn session_ttl_seconds(ttl_minutes: i64) -> (r: u64)
    requires
        0 <= ttl_minutes,
        ttl_minutes * 60 <= u64::MAX,
    ensures
        r == ttl_minutes * 60,
{
    (ttl_minutes as u64) * 60
}

/// Checks the claims of a token whose signature has been checked, then burns its
/// nonce: a check and a write in one step, so a token passes at most once.
pub fn verify(store: &mut SessionStore, claims: &TokenClaims, config: &Config, now: i64) -> (r:
    Result<TokenDetails, VerifyError>)
    ensures
        (r, final(store)@) == verify_outcome(*claims, *config, now as int, old(store)@),
{
    check_claims(claims, config, now)?;
    let key = nonce_key(claims.nonce.as_str());
    let written = store.set_if_absent(key.as_str(), "used", nonce_ttl(claims));
    nonce_decision(claims, written)
}

/// The last step of verification, once the claims have passed: the token is accepted
/// exactly when writing its nonce record found none there before.
pub fn nonce_decision(claims: &TokenClaims, nonce_written: bool) -> (r: Result<
    TokenDetails,
    VerifyError,
>)
    ensures
        r == if nonce_written {
            Ok::<TokenDetails, VerifyError>(details_of(*claims))
        } else {
            Err::<TokenDetails, VerifyError>(VerifyError::ReplayedToken)
        },
{
    if !nonce_written {
        return Err(VerifyError::ReplayedToken);
    }
    Ok(
        TokenDetails {
            token: None,
            token_uuid: claims.jti.clone(),
            user_id: claims.sub.clone(),
            expires_in: claims.exp,
        },
    )
}

/// Relies on chrono::Utc::now, read as whole seconds since the epoch by `timestamp`.
/// Nothing is known of the value: it is the time of the call.
#[verifier::external_body]
fn unix_now() -> (r: i64) {
    chrono::Utc::now().timestamp()
}

/// Relies on uuid::Uuid::new_v4, written in its hyphenated form, which is 36 characters
/// long. Nothing else is known of the value: it is random.
#[verifier::external_body]
fn new_uuid_text() -> (r: String)
    ensures
        r@.len() == 36,
{
    uuid::Uuid::new_v4().to_string()
}

impl TokenIds {
    /// A fresh random token id and nonce.
    pub fn fresh() -> (r: TokenIds)
        ensures
            r.token_id@.len() == 36,
            r.nonce@.len() == 36,
    {
        let token_id = new_uuid_text();
        let nonce = new_uuid_text();
        TokenIds { token_id, nonce }
    }
}

/// Whether a token of `ttl_minutes` minutes can be minted at `now`.
pub fn can_issue(now: i64, ttl_minutes: i64) -> (r: bool)
    ensures
        r == lifetime_fits(now as int, ttl_minutes as int),
{
    let span: i128 = (ttl_minutes as i128) * 60;
    let end: i128 = (now as i128) + span;
    i64::MIN as i128 <= span && span <= i64::MAX as i128 && i64::MIN as i128 <= end && end
        <= i64::MAX as i128
}

/// Mints the claims of a token at `now` with the given ids; `None` exactly where the
/// lifetime cannot be represented from `now`.
pub fn claims_at(
    subject: &str,
    ttl_minutes: i64,
    kind: TokenType,
    config: &Config,
    ids: &TokenIds,
    now: i64,
) -> (r: Option<TokenClaims>)
    ensures
        r is None <==> !lifetime_fits(now as int, ttl_minutes as int),
        r matches Some(c) ==> is_issued(
            c,
            subject@,
            ttl_minutes as int,
            kind,
            *config,
            ids.token_id@,
            ids.nonce@,
            now as int,
        ),
{
    if !can_issue(now, ttl_minutes) {
        return None;
    }
    Some(issue_claims(subject, ttl_minutes, kind, config, ids, now))
}

/// `r` is what minting at `now` gives: `None` exactly where the lifetime cannot be
/// represented from `now`, else claims issued at `now` under their own ids.
pub open spec fn minted_at(
    r: Option<TokenClaims>,
    subject: Seq<char>,
    ttl_minutes: int,
    kind: TokenType,
    cfg: Config,
    now: int,
) -> bool {
    &&& (r is None <==> !lifetime_fits(now, ttl_minutes))
    &&& (r matches Some(c) ==> is_issued(c, subject, ttl_minutes, kind, cfg, c.jti@, c.nonce@, now))
}

/// Mints the claims of a token at the current time, with a fresh random token id and
/// nonce; `None` where the lifetime cannot be represented from now.
pub fn issue_fresh(subject: &str, ttl_minutes: i64, kind: TokenType, config: &Config) -> (r:
    Option<TokenClaims>)
    ensures
        exists|t: i64| #[trigger] minted_at(r, subject@, ttl_minutes as int, kind, *config, t as int),
        r matches Some(c) ==> c.jti@.len() == 36 && c.nonce@.len() == 36,
{
    let now = unix_now();
    let ids = TokenIds::fresh();
    let r = claims_at(subject, ttl_minutes, kind, config, &ids, now);
    assert(minted_at(r, subject@, ttl_minutes as int, kind, *config, now as int));
    r
}

/// Runs the claim checks at the current time.
pub fn check_claims_now(claims: &TokenClaims, config: &Config) -> (r: Result<(), VerifyError>)
    ensures
        exists|t: i64| r == claims_check(*claims, *config, t as int),
{
    let now = unix_now();
    check_claims(claims, config, now)
}

} // verus!
