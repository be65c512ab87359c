use crate::config::Config;
use crate::session::{
    authorize_outcome, lifetimes_fit, logout_outcome, pair_sessions, refresh_outcome, AuthError,
};
use crate::store::Stored;
use crate::token::{
    claims_check, details_of, is_issued, lemma_checked_id_is_no_nonce_key, nonce_key_of,
    nonce_prefix, verify_outcome, TokenClaims, TokenType,
    VerifyError, LEEWAY_SECONDS,
};
use crate::text::starts_with;
use vstd::prelude::*;

verus! {

proof fn lemma_nonce_keys_carry_prefix(n: Seq<char>)
    ensures
        starts_with(nonce_key_of(n), nonce_prefix()),
{
    assert(nonce_key_of(n).subrange(0, nonce_prefix().len() as int) =~= nonce_prefix());
}

/// A token whose claims hold and whose nonce is unburned passes verification once; an
/// immediate second verification of the same token is refused as replayed.
pub proof fn lemma_single_use(c: TokenClaims, cfg: Config, now: int, s: Map<Seq<char>, Stored>)
    requires
        claims_check(c, cfg, now) is Ok,
        !s.contains_key(nonce_key_of(c.nonce@)),
    ensures
        verify_outcome(c, cfg, now, s).0 == Ok::<_, VerifyError>(details_of(c)),
        verify_outcome(c, cfg, now, verify_outcome(c, cfg, now, s).1).0 == Err::<
            crate::token::TokenDetails,
            VerifyError,
        >(VerifyError::ReplayedToken),
{
}

/// Of two verifications of one token, one after the other on the same store, at most
/// one succeeds, whenever each runs; where the claims hold at both times and the nonce
/// starts unburned, exactly one does.
pub proof fn lemma_one_of_two(
    c: TokenClaims,
    cfg: Config,
    t1: int,
    t2: int,
    s: Map<Seq<char>, Stored>,
)
    ensures
        !(verify_outcome(c, cfg, t1, s).0 is Ok && verify_outcome(
            c,
            cfg,
            t2,
            verify_outcome(c, cfg, t1, s).1,
        ).0 is Ok),
        claims_check(c, cfg, t1) is Ok && claims_check(c, cfg, t2) is Ok && !s.contains_key(
            nonce_key_of(c.nonce@),
        ) ==> verify_outcome(c, cfg, t1, s).0 is Ok && verify_outcome(
            c,
            cfg,
            t2,
            verify_outcome(c, cfg, t1, s).1,
        ).0 is Err,
{
}

/// A token is expired exactly when its expiry lies more than the leeway before now:
/// sixty-one seconds past is refused, fifty-nine seconds past is still accepted.
pub proof fn lemma_expiry_boundary(c: TokenClaims, cfg: Config, now: int)
    ensures
        c.exp < now - LEEWAY_SECONDS ==> claims_check(c, cfg, now) == Err::<(), VerifyError>(
            VerifyError::Expired,
        ),
        c.exp >= now - LEEWAY_SECONDS ==> claims_check(c, cfg, now) != Err::<(), VerifyError>(
            VerifyError::Expired,
        ),
        c.exp == now - 61 ==> claims_check(c, cfg, now) == Err::<(), VerifyError>(
            VerifyError::Expired,
        ),
        c.exp == now - 59 && c.nbf <= now && c.iss@ == cfg.token_issuer@ && c.aud@
            == cfg.token_audience@ && (c.typ@ == "access"@ || c.typ@ == "refresh"@)
            && !starts_with(c.jti@, nonce_prefix()) ==> claims_check(c, cfg, now) is Ok,
{
}

/// A token not yet valid is refused exactly when its start lies more than the leeway
/// after now: sixty-one seconds ahead is refused, fifty-nine seconds ahead is accepted.
pub proof fn lemma_not_before_boundary(c: TokenClaims, cfg: Config, now: int)
    ensures
        c.exp >= now - LEEWAY_SECONDS ==> (claims_check(c, cfg, now) == Err::<(), VerifyError>(
            VerifyError::NotYetValid,
        ) <==> c.nbf > now + LEEWAY_SECONDS),
        c.exp >= now && c.nbf == now + 61 ==> claims_check(c, cfg, now) == Err::<
            (),
            VerifyError,
        >(VerifyError::NotYetValid),
        c.exp >= now && c.nbf == now + 59 && c.iss@ == cfg.token_issuer@ && c.aud@
            == cfg.token_audience@ && (c.typ@ == "access"@ || c.typ@ == "refresh"@)
            && !starts_with(c.jti@, nonce_prefix()) ==> claims_check(c, cfg, now) is Ok,
{
}

/// A token whose type is neither `access` nor `refresh` never passes verification, and
/// verifying it leaves the store as it was.
pub proof fn lemma_type_enforced(c: TokenClaims, cfg: Config, now: int, s: Map<Seq<char>, Stored>)
    requires
        c.typ@ != "access"@,
        c.typ@ != "refresh"@,
    ensures
        verify_outcome(c, cfg, now, s).0 is Err,
        verify_outcome(c, cfg, now, s).1 == s,
{
}

/// Logging in opens each session with a time-to-live of its lifetime in minutes times
/// sixty: fifteen minutes give nine hundred seconds.
pub proof fn lemma_session_ttl(
    s: Map<Seq<char>, Stored>,
    subject: Seq<char>,
    cfg: Config,
    access_id: Seq<char>,
    refresh_id: Seq<char>,
)
    requires
        access_id != refresh_id,
    ensures
        pair_sessions(s, subject, cfg, access_id, refresh_id)[access_id] == (
            subject,
            (cfg.access_token_max_age * 60) as u64,
        ),
        pair_sessions(s, subject, cfg, access_id, refresh_id)[refresh_id] == (
            subject,
            (cfg.refresh_token_max_age * 60) as u64,
        ),
        cfg.access_token_max_age == 15 ==> pair_sessions(s, subject, cfg, access_id, refresh_id)[access_id].1 == 900,
{
}

/// After login, the access token passes once and yields its subject, with its session;
/// presenting it a second time fails.
pub proof fn lemma_login_then_verify_twice(
    s: Map<Seq<char>, Stored>,
    subject: Seq<char>,
    cfg: Config,
    now: int,
    access_id: Seq<char>,
    access_nonce: Seq<char>,
    refresh_id: Seq<char>,
    a: TokenClaims,
)
    requires
        lifetimes_fit(cfg, now),
        is_issued(
            a,
            subject,
            cfg.access_token_max_age as int,
            TokenType::Access,
            cfg,
            access_id,
            access_nonce,
            now,
        ),
        !s.contains_key(nonce_key_of(access_nonce)),
        !starts_with(access_id, nonce_prefix()),
        !starts_with(refresh_id, nonce_prefix()),
        access_id != refresh_id,
    ensures
        ({
            let s1 = pair_sessions(s, subject, cfg, access_id, refresh_id);
            &&& verify_outcome(a, cfg, now, s1).0 matches Ok(d) && d.user_id@ == subject
            &&& verify_outcome(a, cfg, now, verify_outcome(a, cfg, now, s1).1).0 is Err
            &&& authorize_outcome(a, cfg, now, s1).0 == Ok::<Seq<char>, AuthError>(subject)
            &&& authorize_outcome(a, cfg, now, authorize_outcome(a, cfg, now, s1).1).0 is Err
        }),
{
    let s1 = pair_sessions(s, subject, cfg, access_id, refresh_id);
    lemma_nonce_keys_carry_prefix(access_nonce);
    assert(claims_check(a, cfg, now) is Ok);
    assert(!s1.contains_key(nonce_key_of(access_nonce)));
}

/// A refresh token can be exchanged once: the exchange closes its session, and
/// presenting it again fails, as replayed or for want of a session.
pub proof fn lemma_rotation_chain(
    p: TokenClaims,
    cfg: Config,
    now: int,
    later: int,
    s: Map<Seq<char>, Stored>,
    access_id: Seq<char>,
    refresh_id: Seq<char>,
    next_access_id: Seq<char>,
    next_refresh_id: Seq<char>,
)
    requires
        refresh_outcome(p, cfg, now, s, access_id, refresh_id).0 is Ok,
    ensures
        !refresh_outcome(p, cfg, now, s, access_id, refresh_id).1.contains_key(p.jti@),
        refresh_outcome(
            p,
            cfg,
            later,
            refresh_outcome(p, cfg, now, s, access_id, refresh_id).1,
            next_access_id,
            next_refresh_id,
        ).0 is Err,
        ({
            let r = refresh_outcome(
                p,
                cfg,
                now,
                refresh_outcome(p, cfg, now, s, access_id, refresh_id).1,
                next_access_id,
                next_refresh_id,
            ).0;
            r == Err::<Seq<char>, AuthError>(AuthError::SessionNotFound) || r == Err::<
                Seq<char>,
                AuthError,
            >(AuthError::Token(VerifyError::ReplayedToken))
        }),
{
    lemma_checked_id_is_no_nonce_key(p, cfg, now, p.nonce@);
    let s1 = verify_outcome(p, cfg, now, s).1;
    let s2 = refresh_outcome(p, cfg, now, s, access_id, refresh_id).1;
    assert(s1.contains_key(nonce_key_of(p.nonce@)));
    assert(s2.contains_key(nonce_key_of(p.nonce@)));
}

/// After logout neither the access session open at that time nor the refresh session
/// admits a request again, whenever it is tried.
pub proof fn lemma_logout_finality(
    p: TokenClaims,
    a: TokenClaims,
    cfg: Config,
    now: int,
    later: int,
    s: Map<Seq<char>, Stored>,
    access_id: Seq<char>,
    refresh_id: Seq<char>,
)
    requires
        logout_outcome(p, a.jti@, cfg, now, s).0 is Ok,
    ensures
        authorize_outcome(a, cfg, later, logout_outcome(p, a.jti@, cfg, now, s).1).0 is Err,
        authorize_outcome(p, cfg, later, logout_outcome(p, a.jti@, cfg, now, s).1).0 is Err,
        refresh_outcome(
            p,
            cfg,
            later,
            logout_outcome(p, a.jti@, cfg, now, s).1,
            access_id,
            refresh_id,
        ).0 is Err,
{
    lemma_checked_id_is_no_nonce_key(p, cfg, now, p.nonce@);
    if claims_check(a, cfg, later) is Ok {
        lemma_checked_id_is_no_nonce_key(a, cfg, later, a.nonce@);
    }
    if claims_check(p, cfg, later) is Ok {
        lemma_checked_id_is_no_nonce_key(p, cfg, later, p.nonce@);
    }
    let s1 = logout_outcome(p, a.jti@, cfg, now, s).1;
    assert(!s1.contains_key(a.jti@));
    assert(!s1.contains_key(p.jti@));
}

} // verus!
