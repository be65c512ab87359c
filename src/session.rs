use crate::config::Config;
use crate::store::{after, step, SessionStore, StoreCommand, Stored};
use crate::token::{
    is_issued, issue_claims, lifetime_fits, verify, verify_outcome, TokenClaims, TokenIds,
    TokenType, VerifyError,
};
use crate::text::{has_prefix, starts_with};
use vstd::prelude::*;
use vstd::string::StringExecFns;

verus! {

/// Lifetime of the access token minted on each authenticated request, in minutes.
pub const ROTATED_LIFETIME_MINUTES: i64 = 5;

/// Time-to-live of the session of a rotated access token, in seconds.
pub const ROTATED_SESSION_SECONDS: u64 = 300;

/// Why a request is refused.
#[derive(Clone, Copy, Debug, PartialEq, Eq, Structural)]
pub enum AuthError {
    /// The token itself was refused.
    Token(VerifyError),
    /// The token's session is absent: expired, revoked or rotated away.
    SessionNotFound,
    /// The subject's user record no longer exists.
    UserNotFound,
    /// The backing store could not be reached.
    StoreUnavailable,
    /// The private key could not sign.
    SigningFailed,
    /// No token came with the request.
    MissingToken,
}

/// What checking a presented token yields (the subject of its session), and the store
/// after it.
pub open spec fn authorize_outcome(c: TokenClaims, cfg: Config, now: int, s: Map<Seq<char>, Stored>) -> (
    Result<Seq<char>, AuthError>,
    Map<Seq<char>, Stored>,
) {
    let (v, s1) = verify_outcome(c, cfg, now, s);
    match v {
        Err(e) => (Err(AuthError::Token(e)), s1),
        Ok(_) => if s1.contains_key(c.jti@) {
            (Ok(s1[c.jti@].0), s1)
        } else {
            (Err(AuthError::SessionNotFound), s1)
        },
    }
}

/// Both lifetimes of the configuration are positive and can be minted at `now`.
pub open spec fn lifetimes_fit(cfg: Config, now: int) -> bool {
    &&& 0 < cfg.access_token_max_age
    &&& 0 < cfg.refresh_token_max_age
    &&& lifetime_fits(now, cfg.access_token_max_age as int)
    &&& lifetime_fits(now, cfg.refresh_token_max_age as int)
}

/// The store after the sessions of a fresh access and refresh pair are written.
pub open spec fn pair_sessions(
    s: Map<Seq<char>, Stored>,
    subject: Seq<char>,
    cfg: Config,
    access_id: Seq<char>,
    refresh_id: Seq<char>,
) -> Map<Seq<char>, Stored> {
    s.insert(access_id, (subject, (cfg.access_token_max_age * 60) as u64)).insert(
        refresh_id,
        (subject, (cfg.refresh_token_max_age * 60) as u64),
    )
}

/// What presenting a refresh token yields (the subject of the new pair), and the store
/// after it.
pub open spec fn refresh_outcome(
    c: TokenClaims,
    cfg: Config,
    now: int,
    s: Map<Seq<char>, Stored>,
    access_id: Seq<char>,
    refresh_id: Seq<char>,
) -> (Result<Seq<char>, AuthError>, Map<Seq<char>, Stored>) {
    let (a, s1) = authorize_outcome(c, cfg, now, s);
    match a {
        Err(e) => (Err(e), s1),
        Ok(subject) => (
            Ok(subject),
            pair_sessions(s1, subject, cfg, access_id, refresh_id).remove(c.jti@),
        ),
    }
}

/// What logging out yields, and the store after it.
pub open spec fn logout_outcome(
    c: TokenClaims,
    access_id: Seq<char>,
    cfg: Config,
    now: int,
    s: Map<Seq<char>, Stored>,
) -> (Result<(), AuthError>, Map<Seq<char>, Stored>) {
    let (v, s1) = verify_outcome(c, cfg, now, s);
    match v {
        Err(e) => (Err(AuthError::Token(e)), s1),
        Ok(_) => (Ok(()), s1.remove(c.jti@).remove(access_id)),
    }
}

pub open spec fn bearer_prefix() -> Seq<char> {
    "Bearer "@
}

/// The token a request carries: the cookie's when there is one, else the rest of an
/// `Authorization` header that starts with `Bearer `.
pub open spec fn presented_token(cookie: Option<Seq<char>>, authorization: Option<Seq<char>>) -> Option<Seq<char>> {
    match cookie {
        Some(c) => Some(c),
        None => match authorization {
            Some(h) => if starts_with(h, bearer_prefix()) {
                Some(h.subrange(bearer_prefix().len() as int, h.len() as int))
            } else {
                None
            },
            None => None,
        },
    }
}

pub open spec fn text_of(o: Option<&str>) -> Option<Seq<char>> {
    match o {
        Some(s) => Some(s@),
        None => None,
    }
}

/// Picks the token of a request from its `access_token` cookie and its
/// `Authorization` header; the cookie takes precedence.
pub fn token_from_request(cookie: Option<&str>, authorization: Option<&str>) -> (r: Option<String>)
    ensures
        match presented_token(text_of(cookie), text_of(authorization)) {
            Some(t) => r matches Some(v) && v@ == t,
            None => r is None,
        },
{
    match cookie {
        Some(c) => Some(String::from_str(c)),
        None => match authorization {
            Some(h) => {
                if has_prefix(h, "Bearer ") {
                    let n = h.unicode_len();
                    let start = "Bearer ".unicode_len();
                    Some(String::from_str(h.substring_char(start, n)))
                } else {
                    None
                }
            },
            None => None,
        },
    }
}

proof fn lemma_after_run(s: Map<Seq<char>, Stored>, cmds: Seq<StoreCommand>)
    requires
        1 <= cmds.len() <= 3,
    ensures
        cmds.len() == 1 ==> after(s, cmds) == step(s, cmds[0]),
        cmds.len() == 2 ==> after(s, cmds) == step(step(s, cmds[0]), cmds[1]),
        cmds.len() == 3 ==> after(s, cmds) == step(step(step(s, cmds[0]), cmds[1]), cmds[2]),
{
    let d1 = cmds.drop_last();
    assert(after(s, cmds) == step(after(s, d1), cmds[cmds.len() - 1]));
    if cmds.len() >= 2 {
        let d2 = d1.drop_last();
        assert(after(s, d1) == step(after(s, d2), cmds[cmds.len() - 2]));
        if cmds.len() == 3 {
            let d3 = d2.drop_last();
            assert(after(s, d2) == step(after(s, d3), cmds[0]));
            assert(after(s, d3) == s);
        } else {
            assert(after(s, d2) == s);
        }
    } else {
        assert(after(s, d1) == s);
    }
}

fn set_command(key: &str, value: &str, ttl_seconds: u64) -> (r: StoreCommand)
    ensures
        r matches StoreCommand::SetWithExpiry { key: k, value: v, ttl_seconds: t } && k@ == key@
            && v@ == value@ && t == ttl_seconds,
{
    StoreCommand::SetWithExpiry {
        key: String::from_str(key),
        value: String::from_str(value),
        ttl_seconds,
    }
}

fn delete_command(key: &str) -> (r: StoreCommand)
    ensures
        r matches StoreCommand::Delete { key: k } && k@ == key@,
{
    StoreCommand::Delete { key: String::from_str(key) }
}

/// The writes that rotate a request's access session: open the new one, then close the
/// old one.
pub fn rotation_commands(old_token_id: &str, new_token_id: &str, subject: &str) -> (r: Vec<
    StoreCommand,
>)
    ensures
        forall|s: Map<Seq<char>, Stored>| #[trigger]
            after(s, r@) == s.insert(new_token_id@, (subject@, ROTATED_SESSION_SECONDS)).remove(
                old_token_id@,
            ),
{
    let mut r: Vec<StoreCommand> = Vec::new();
    r.push(set_command(new_token_id, subject, ROTATED_SESSION_SECONDS));
    r.push(delete_command(old_token_id));
    proof {
        assert forall|s: Map<Seq<char>, Stored>| #[trigger]
            after(s, r@) == s.insert(new_token_id@, (subject@, ROTATED_SESSION_SECONDS)).remove(
                old_token_id@,
            ) by {
            lemma_after_run(s, r@);
        }
    }
    r
}

/// The writes that replace an access session by one of the configured lifetime: close
/// the old one, then open the new one.
pub fn reissue_commands(old_token_id: &str, new_token_id: &str, subject: &str, config: &Config) -> (r:
    Vec<StoreCommand>)
    requires
        0 < config.access_token_max_age,
        config.access_token_max_age * 60 <= i64::MAX,
    ensures
        forall|s: Map<Seq<char>, Stored>| #[trigger]
            after(s, r@) == s.remove(old_token_id@).insert(
                new_token_id@,
                (subject@, (config.access_token_max_age * 60) as u64),
            ),
{
    let mut r: Vec<StoreCommand> = Vec::new();
    r.push(delete_command(old_token_id));
    r.push(set_command(new_token_id, subject, (config.access_token_max_age as u64) * 60));
    proof {
        assert forall|s: Map<Seq<char>, Stored>| #[trigger]
            after(s, r@) == s.remove(old_token_id@).insert(
                new_token_id@,
                (subject@, (config.access_token_max_age * 60) as u64),
            ) by {
            lemma_after_run(s, r@);
        }
    }
    r
}

/// The writes that open the sessions of a fresh access and refresh pair.
pub fn pair_commands(subject: &str, config: &Config, access_id: &str, refresh_id: &str) -> (r: Vec<
    StoreCommand,
>)
    requires
        0 < config.access_token_max_age,
        0 < config.refresh_token_max_age,
        config.access_token_max_age * 60 <= i64::MAX,
        config.refresh_token_max_age * 60 <= i64::MAX,
    ensures
        forall|s: Map<Seq<char>, Stored>| #[trigger]
            after(s, r@) == pair_sessions(s, subject@, *config, access_id@, refresh_id@),
{
    let mut r: Vec<StoreCommand> = Vec::new();
    r.push(set_command(access_id, subject, (config.access_token_max_age as u64) * 60));
    r.push(set_command(refresh_id, subject, (config.refresh_token_max_age as u64) * 60));
    proof {
        assert forall|s: Map<Seq<char>, Stored>| #[trigger]
            after(s, r@) == pair_sessions(s, subject@, *config, access_id@, refresh_id@) by {
            lemma_after_run(s, r@);
        }
    }
    r
}

/// The writes that follow an accepted refresh token: open the new pair's sessions, then
/// close the old refresh session.
pub fn refresh_commands(
    subject: &str,
    config: &Config,
    access_id: &str,
    refresh_id: &str,
    old_refresh_id: &str,
) -> (r: Vec<StoreCommand>)
    requires
        0 < config.access_token_max_age,
        0 < config.refresh_token_max_age,
        config.access_token_max_age * 60 <= i64::MAX,
        config.refresh_token_max_age * 60 <= i64::MAX,
    ensures
        forall|s: Map<Seq<char>, Stored>| #[trigger]
            after(s, r@) == pair_sessions(s, subject@, *config, access_id@, refresh_id@).remove(
                old_refresh_id@,
            ),
{
    let mut r = pair_commands(subject, config, access_id, refresh_id);
    let ghost pair = r@;
    r.push(delete_command(old_refresh_id));
    proof {
        assert forall|s: Map<Seq<char>, Stored>| #[trigger]
            after(s, r@) == pair_sessions(s, subject@, *config, access_id@, refresh_id@).remove(
                old_refresh_id@,
            ) by {
            assert(r@.drop_last() =~= pair);
            assert(after(s, pair) == pair_sessions(s, subject@, *config, access_id@, refresh_id@));
        }
    }
    r
}

/// The writes of a logout: close the refresh session and the access session.
pub fn logout_commands(refresh_id: &str, access_id: &str) -> (r: Vec<StoreCommand>)
    ensures
        forall|s: Map<Seq<char>, Stored>| #[trigger]
            after(s, r@) == s.remove(refresh_id@).remove(access_id@),
{
    let mut r: Vec<StoreCommand> = Vec::new();
    r.push(delete_command(refresh_id));
    r.push(delete_command(access_id));
    proof {
        assert forall|s: Map<Seq<char>, Stored>| #[trigger]
            after(s, r@) == s.remove(refresh_id@).remove(access_id@) by {
            lemma_after_run(s, r@);
        }
    }
    r
}

/// Verifies a presented token, then finds its session. Gives the subject the session
/// was opened for.
pub fn authorize(store: &mut SessionStore, claims: &TokenClaims, config: &Config, now: i64) -> (r:
    Result<String, AuthError>)
    ensures
        final(store)@ == authorize_outcome(*claims, *config, now as int, old(store)@).1,
        match authorize_outcome(*claims, *config, now as int, old(store)@).0 {
            Ok(subject) => r matches Ok(v) && v@ == subject,
            Err(e) => r == Err::<String, AuthError>(e),
        },
{
    match verify(store, claims, config, now) {
        Err(e) => Err(AuthError::Token(e)),
        Ok(_) => session_decision(store.get(claims.jti.as_str())),
    }
}

/// The step after verification: the request goes on for the subject of the token's
/// session, and fails where no session stands.
pub fn session_decision(session: Option<String>) -> (r: Result<String, AuthError>)
    ensures
        match session {
            Some(v) => r == Ok::<String, AuthError>(v),
            None => r == Err::<String, AuthError>(AuthError::SessionNotFound),
        },
{
    match session {
        Some(subject) => Ok(subject),
        None => Err(AuthError::SessionNotFound),
    }
}

/// Replaces the token of an authenticated request: mints a five-minute access token for
/// the same subject, opens its session, then closes the old one.
pub fn rotate_access(
    store: &mut SessionStore,
    old_token_id: &str,
    subject: &str,
    config: &Config,
    ids: &TokenIds,
    now: i64,
) -> (r: TokenClaims)
    requires
        lifetime_fits(now as int, ROTATED_LIFETIME_MINUTES as int),
    ensures
        is_issued(
            r,
            subject@,
            ROTATED_LIFETIME_MINUTES as int,
            TokenType::Access,
            *config,
            ids.token_id@,
            ids.nonce@,
            now as int,
        ),
        final(store)@ == old(store)@.insert(ids.token_id@, (subject@, ROTATED_SESSION_SECONDS)).remove(
            old_token_id@,
        ),
{
    let claims = issue_claims(subject, ROTATED_LIFETIME_MINUTES, TokenType::Access, config, ids, now);
    store.apply(&rotation_commands(old_token_id, ids.token_id.as_str(), subject));
    claims
}

/// Replaces the access token of a request that reads the caller's own record: closes the
/// old session, then mints an access token of the configured lifetime and opens its
/// session.
pub fn reissue_access(
    store: &mut SessionStore,
    old_token_id: &str,
    subject: &str,
    config: &Config,
    ids: &TokenIds,
    now: i64,
) -> (r: TokenClaims)
    requires
        0 < config.access_token_max_age,
        lifetime_fits(now as int, config.access_token_max_age as int),
    ensures
        is_issued(
            r,
            subject@,
            config.access_token_max_age as int,
            TokenType::Access,
            *config,
            ids.token_id@,
            ids.nonce@,
            now as int,
        ),
        final(store)@ == old(store)@.remove(old_token_id@).insert(
            ids.token_id@,
            (subject@, (config.access_token_max_age * 60) as u64),
        ),
{
    let claims = issue_claims(
        subject,
        config.access_token_max_age,
        TokenType::Access,
        config,
        ids,
        now,
    );
    store.apply(&reissue_commands(old_token_id, ids.token_id.as_str(), subject, config));
    claims
}

/// Whether a user's role grants the administrator pages.
pub fn is_admin_role(role: &str) -> (r: bool)
    ensures
        r == (role@ == "admin"@),
{
    String::from_str(role) == String::from_str("admin")
}

/// Mints an access and a refresh token for `subject`.
fn mint_pair(
    subject: &str,
    config: &Config,
    now: i64,
    access_ids: &TokenIds,
    refresh_ids: &TokenIds,
) -> (r: (TokenClaims, TokenClaims))
    requires
        lifetimes_fit(*config, now as int),
    ensures
        is_issued(
            r.0,
            subject@,
            config.access_token_max_age as int,
            TokenType::Access,
            *config,
            access_ids.token_id@,
            access_ids.nonce@,
            now as int,
        ),
        is_issued(
            r.1,
            subject@,
            config.refresh_token_max_age as int,
            TokenType::Refresh,
            *config,
            refresh_ids.token_id@,
            refresh_ids.nonce@,
            now as int,
        ),
{
    let access = issue_claims(
        subject,
        config.access_token_max_age,
        TokenType::Access,
        config,
        access_ids,
        now,
    );
    let refresh = issue_claims(
        subject,
        config.refresh_token_max_age,
        TokenType::Refresh,
        config,
        refresh_ids,
        now,
    );
    (access, refresh)
}

/// Opens a session pair for a user whose credentials were checked.
pub fn login(
    store: &mut SessionStore,
    subject: &str,
    config: &Config,
    now: i64,
    access_ids: &TokenIds,
    refresh_ids: &TokenIds,
) -> (r: (TokenClaims, TokenClaims))
    requires
        lifetimes_fit(*config, now as int),
    ensures
        is_issued(
            r.0,
            subject@,
            config.access_token_max_age as int,
            TokenType::Access,
            *config,
            access_ids.token_id@,
            access_ids.nonce@,
            now as int,
        ),
        is_issued(
            r.1,
            subject@,
            config.refresh_token_max_age as int,
            TokenType::Refresh,
            *config,
            refresh_ids.token_id@,
            refresh_ids.nonce@,
            now as int,
        ),
        final(store)@ == pair_sessions(
            old(store)@,
            subject@,
            *config,
            access_ids.token_id@,
            refresh_ids.token_id@,
        ),
{
    let pair = mint_pair(subject, config, now, access_ids, refresh_ids);
    store.apply(
        &pair_commands(subject, config, access_ids.token_id.as_str(), refresh_ids.token_id.as_str()),
    );
    pair
}

/// Exchanges a refresh token for a fresh access and refresh pair, and closes the old
/// refresh session.
pub fn refresh(
    store: &mut SessionStore,
    presented: &TokenClaims,
    config: &Config,
    now: i64,
    access_ids: &TokenIds,
    refresh_ids: &TokenIds,
) -> (r: Result<(TokenClaims, TokenClaims), AuthError>)
    requires
        lifetimes_fit(*config, now as int),
    ensures
        final(store)@ == refresh_outcome(
            *presented,
            *config,
            now as int,
            old(store)@,
            access_ids.token_id@,
            refresh_ids.token_id@,
        ).1,
        match refresh_outcome(
            *presented,
            *config,
            now as int,
            old(store)@,
            access_ids.token_id@,
            refresh_ids.token_id@,
        ).0 {
            Err(e) => r == Err::<(TokenClaims, TokenClaims), AuthError>(e),
            Ok(subject) => r matches Ok((a, b)) && is_issued(
                a,
                subject,
                config.access_token_max_age as int,
                TokenType::Access,
                *config,
                access_ids.token_id@,
                access_ids.nonce@,
                now as int,
            ) && is_issued(
                b,
                subject,
                config.refresh_token_max_age as int,
                TokenType::Refresh,
                *config,
                refresh_ids.token_id@,
                refresh_ids.nonce@,
                now as int,
            ),
        },
{
    let subject = authorize(store, presented, config, now)?;
    let pair = mint_pair(subject.as_str(), config, now, access_ids, refresh_ids);
    store.apply(
        &refresh_commands(
            subject.as_str(),
            config,
            access_ids.token_id.as_str(),
            refresh_ids.token_id.as_str(),
            presented.jti.as_str(),
        ),
    );
    Ok(pair)
}

/// Verifies a refresh token, then closes its session and the given access session.
pub fn logout(
    store: &mut SessionStore,
    presented: &TokenClaims,
    access_token_id: &str,
    config: &Config,
    now: i64,
) -> (r: Result<(), AuthError>)
    ensures
        (r, final(store)@) == logout_outcome(
            *presented,
            access_token_id@,
            *config,
            now as int,
            old(store)@,
        ),
{
    match verify(store, presented, config, now) {
        Err(e) => Err(AuthError::Token(e)),
        Ok(_) => {
            store.apply(&logout_commands(presented.jti.as_str(), access_token_id));
            Ok(())
        },
    }
}

} // verus!
