use token_engine::config::Config;
use token_engine::session::{
    authorize, is_admin_role, login, logout, logout_commands, refresh, reissue_access,
    rotate_access, rotation_commands, session_decision, token_from_request, AuthError,
};
use token_engine::store::{SessionStore, StoreCommand};
use token_engine::token::{
    can_issue, check_claims, check_claims_now, claims_at, issue_claims, nonce_decision, issue_fresh, nonce_key, nonce_ttl,
    session_ttl_seconds, verify, TokenClaims, TokenIds, TokenType, VerifyError,
};

const NOW: i64 = 1_700_000_000;

fn config() -> Config {
    Config {
        database_url: "postgres://db".to_string(),
        redis_url: "redis://cache".to_string(),
        client_origin: "http://localhost".to_string(),
        access_token_private_key: "PRIVATE KEY".to_string(),
        access_token_public_key: "PUBLIC KEY".to_string(),
        access_token_expires_in: 15,
        access_token_max_age: 15,
        refresh_token_private_key: "PRIVATE KEY".to_string(),
        refresh_token_public_key: "PUBLIC KEY".to_string(),
        refresh_token_expires_in: 60,
        refresh_token_max_age: 60,
        token_issuer: "secure-app".to_string(),
        token_audience: "secure-app-users".to_string(),
        https_only: true,
        cookie_secure: true,
    }
}

fn ids(tag: &str) -> TokenIds {
    TokenIds {
        token_id: format!("id-{}", tag),
        nonce: format!("nonce-{}", tag),
    }
}

fn claims(exp: i64, nbf: i64, typ: &str) -> TokenClaims {
    TokenClaims {
        sub: "user-1".to_string(),
        exp,
        iat: NOW - 600,
        jti: "jti-1".to_string(),
        iss: "secure-app".to_string(),
        aud: "secure-app-users".to_string(),
        typ: typ.to_string(),
        nonce: "n-1".to_string(),
        nbf,
    }
}

#[test]
fn issued_claims_have_fixed_shape() {
    let c = issue_claims("user-1", 15, TokenType::Access, &config(), &ids("a"), NOW);
    assert_eq!(c.sub, "user-1");
    assert_eq!(c.iat, NOW);
    assert_eq!(c.nbf, NOW);
    assert_eq!(c.exp, NOW + 900);
    assert_eq!(c.jti, "id-a");
    assert_eq!(c.nonce, "nonce-a");
    assert_eq!(c.iss, "secure-app");
    assert_eq!(c.aud, "secure-app-users");
    assert_eq!(c.typ, "access");
    let r = issue_claims("user-1", 60, TokenType::Refresh, &config(), &ids("r"), NOW);
    assert_eq!(r.typ, "refresh");
    assert_eq!(r.exp, NOW + 3600);
}

#[test]
fn fresh_issue_uses_random_ids() {
    let c = issue_fresh("user-1", 15, TokenType::Access, &config()).unwrap();
    assert_eq!(c.jti.len(), 36);
    assert_eq!(c.nonce.len(), 36);
    assert_ne!(c.jti, c.nonce);
    assert_eq!(c.exp - c.iat, 900);
    let d = issue_fresh("user-1", 15, TokenType::Access, &config()).unwrap();
    assert_ne!(c.jti, d.jti);
    assert_ne!(c.nonce, d.nonce);
    assert!(issue_fresh("user-1", i64::MAX / 2, TokenType::Access, &config()).is_none());
}

#[test]
fn lifetime_range_is_checked() {
    assert!(can_issue(NOW, 15));
    assert!(!can_issue(i64::MAX - 10, 1));
    assert!(!can_issue(0, i64::MAX / 10));
    assert!(can_issue(0, -5));
}

#[test]
fn expiry_boundary() {
    let cfg = config();
    assert_eq!(
        check_claims(&claims(NOW - 61, NOW - 600, "access"), &cfg, NOW),
        Err(VerifyError::Expired)
    );
    assert_eq!(check_claims(&claims(NOW - 59, NOW - 600, "access"), &cfg, NOW), Ok(()));
    assert_eq!(check_claims(&claims(NOW - 60, NOW - 600, "access"), &cfg, NOW), Ok(()));
}

#[test]
fn not_before_boundary() {
    let cfg = config();
    assert_eq!(
        check_claims(&claims(NOW + 900, NOW + 61, "access"), &cfg, NOW),
        Err(VerifyError::NotYetValid)
    );
    assert_eq!(check_claims(&claims(NOW + 900, NOW + 59, "access"), &cfg, NOW), Ok(()));
    assert_eq!(check_claims(&claims(NOW + 900, NOW + 60, "refresh"), &cfg, NOW), Ok(()));
}

#[test]
fn issuer_and_audience_must_match() {
    let cfg = config();
    let mut c = claims(NOW + 900, NOW, "access");
    c.iss = "other".to_string();
    assert_eq!(check_claims(&c, &cfg, NOW), Err(VerifyError::IssuerAudienceMismatch));
    let mut c = claims(NOW + 900, NOW, "access");
    c.aud = "other".to_string();
    assert_eq!(check_claims(&c, &cfg, NOW), Err(VerifyError::IssuerAudienceMismatch));
}

#[test]
fn type_outside_access_and_refresh_is_refused() {
    let cfg = config();
    let mut store = SessionStore::new();
    let c = claims(NOW + 900, NOW, "admin");
    assert_eq!(check_claims(&c, &cfg, NOW), Err(VerifyError::InvalidTokenType));
    assert_eq!(
        verify(&mut store, &c, &cfg, NOW).unwrap_err(),
        VerifyError::InvalidTokenType
    );
    assert!(!store.contains("nonce:n-1"));
}

#[test]
fn nonce_key_and_ttl() {
    assert_eq!(nonce_key("abc"), "nonce:abc");
    let c = claims(NOW + 900, NOW, "access");
    assert_eq!(nonce_ttl(&c), 900 + 600 + 300);
    let mut odd = c.clone();
    odd.iat = odd.exp + 1000;
    assert_eq!(nonce_ttl(&odd), 0);
}

#[test]
fn session_ttl_of_fifteen_minutes() {
    assert_eq!(session_ttl_seconds(15), 900);
    assert_eq!(session_ttl_seconds(5), 300);
}

#[test]
fn verify_is_single_use() {
    let cfg = config();
    let mut store = SessionStore::new();
    let c = issue_claims("user-1", 15, TokenType::Access, &cfg, &ids("a"), NOW);
    let d = verify(&mut store, &c, &cfg, NOW).unwrap();
    assert_eq!(d.user_id, "user-1");
    assert_eq!(d.token_uuid, "id-a");
    assert_eq!(d.expires_in, NOW + 900);
    assert!(d.token.is_none());
    assert_eq!(store.get("nonce:nonce-a").unwrap(), "used");
    assert_eq!(store.ttl("nonce:nonce-a"), Some(900 + 300));
    assert_eq!(
        verify(&mut store, &c, &cfg, NOW).unwrap_err(),
        VerifyError::ReplayedToken
    );
}

#[test]
fn two_verifications_admit_exactly_one() {
    let cfg = config();
    let mut store = SessionStore::new();
    let c = issue_claims("user-1", 15, TokenType::Access, &cfg, &ids("a"), NOW);
    let first = verify(&mut store, &c, &cfg, NOW + 1);
    let second = verify(&mut store, &c, &cfg, NOW + 1);
    assert_eq!(first.is_ok() as u8 + second.is_ok() as u8, 1);
}

#[test]
fn login_opens_both_sessions() {
    let cfg = config();
    let mut store = SessionStore::new();
    let (a, r) = login(&mut store, "user-1", &cfg, NOW, &ids("a"), &ids("r"));
    assert_eq!(a.typ, "access");
    assert_eq!(r.typ, "refresh");
    assert_eq!(a.exp, NOW + 15 * 60);
    assert_eq!(r.exp, NOW + 60 * 60);
    assert_eq!(store.get("id-a").unwrap(), "user-1");
    assert_eq!(store.ttl("id-a"), Some(900));
    assert_eq!(store.get("id-r").unwrap(), "user-1");
    assert_eq!(store.ttl("id-r"), Some(3600));
}

#[test]
fn login_then_verify_twice() {
    let cfg = config();
    let mut store = SessionStore::new();
    let (a, _) = login(&mut store, "user-7", &cfg, NOW, &ids("a"), &ids("r"));
    assert_eq!(authorize(&mut store, &a, &cfg, NOW + 5).unwrap(), "user-7");
    assert_eq!(
        authorize(&mut store, &a, &cfg, NOW + 6).unwrap_err(),
        AuthError::Token(VerifyError::ReplayedToken)
    );
}

#[test]
fn authorize_needs_a_session() {
    let cfg = config();
    let mut store = SessionStore::new();
    let c = issue_claims("user-1", 15, TokenType::Access, &cfg, &ids("a"), NOW);
    assert_eq!(
        authorize(&mut store, &c, &cfg, NOW).unwrap_err(),
        AuthError::SessionNotFound
    );
    assert!(store.contains("nonce:nonce-a"));
}

#[test]
fn rotation_replaces_the_session() {
    let cfg = config();
    let mut store = SessionStore::new();
    let (a, _) = login(&mut store, "user-1", &cfg, NOW, &ids("a"), &ids("r"));
    let subject = authorize(&mut store, &a, &cfg, NOW).unwrap();
    let n = rotate_access(&mut store, &a.jti, &subject, &cfg, &ids("b"), NOW + 1);
    assert_eq!(n.exp, NOW + 1 + 300);
    assert_eq!(n.typ, "access");
    assert_eq!(n.sub, "user-1");
    assert!(!store.contains("id-a"));
    assert_eq!(store.ttl("id-b"), Some(300));
    assert_eq!(authorize(&mut store, &n, &cfg, NOW + 2).unwrap(), "user-1");
}

#[test]
fn refresh_succeeds_once() {
    let cfg = config();
    let mut store = SessionStore::new();
    let (_, r) = login(&mut store, "user-1", &cfg, NOW, &ids("a"), &ids("r"));
    let (a2, r2) = refresh(&mut store, &r, &cfg, NOW + 10, &ids("a2"), &ids("r2")).unwrap();
    assert_eq!(a2.jti, "id-a2");
    assert_eq!(r2.jti, "id-r2");
    assert_eq!(a2.sub, "user-1");
    assert!(!store.contains("id-r"));
    assert!(store.contains("id-a2"));
    assert!(store.contains("id-r2"));
    let again = refresh(&mut store, &r, &cfg, NOW + 20, &ids("a3"), &ids("r3")).unwrap_err();
    assert!(
        again == AuthError::SessionNotFound
            || again == AuthError::Token(VerifyError::ReplayedToken)
    );
    assert!(!store.contains("id-a3"));
    assert!(refresh(&mut store, &r2, &cfg, NOW + 30, &ids("a4"), &ids("r4")).is_ok());
}

#[test]
fn logout_is_final() {
    let cfg = config();
    let mut store = SessionStore::new();
    let (a, r) = login(&mut store, "user-1", &cfg, NOW, &ids("a"), &ids("r"));
    let subject = authorize(&mut store, &a, &cfg, NOW).unwrap();
    let current = rotate_access(&mut store, &a.jti, &subject, &cfg, &ids("b"), NOW);
    assert_eq!(logout(&mut store, &r, &current.jti, &cfg, NOW + 1), Ok(()));
    assert!(!store.contains("id-b"));
    assert!(!store.contains("id-r"));
    assert_eq!(
        authorize(&mut store, &current, &cfg, NOW + 2).unwrap_err(),
        AuthError::SessionNotFound
    );
    assert!(refresh(&mut store, &r, &cfg, NOW + 2, &ids("x"), &ids("y")).is_err());
    assert_eq!(
        logout(&mut store, &r, &current.jti, &cfg, NOW + 3),
        Err(AuthError::Token(VerifyError::ReplayedToken))
    );
}

#[test]
fn token_taken_from_cookie_then_header() {
    assert_eq!(
        token_from_request(Some("c-tok"), Some("Bearer h-tok")),
        Some("c-tok".to_string())
    );
    assert_eq!(
        token_from_request(None, Some("Bearer h-tok")),
        Some("h-tok".to_string())
    );
    assert_eq!(token_from_request(None, Some("Basic abc")), None);
    assert_eq!(token_from_request(None, None), None);
}

#[test]
fn store_operations() {
    let mut s = SessionStore::new();
    assert_eq!(s.get("k"), None);
    s.set_with_expiry("k", "v1", 10);
    s.set_with_expiry("k", "v2", 20);
    assert_eq!(s.get("k").unwrap(), "v2");
    assert_eq!(s.ttl("k"), Some(20));
    assert!(!s.set_if_absent("k", "v3", 30));
    assert_eq!(s.get("k").unwrap(), "v2");
    assert!(s.set_if_absent("j", "w", 5));
    assert!(s.delete("k"));
    assert!(!s.delete("k"));
    assert!(!s.contains("k"));
    assert!(s.contains("j"));
}

#[test]
fn reissue_uses_configured_lifetime() {
    let cfg = config();
    let mut store = SessionStore::new();
    let (a, _) = login(&mut store, "user-1", &cfg, NOW, &ids("a"), &ids("r"));
    let n = reissue_access(&mut store, &a.jti, "user-1", &cfg, &ids("m"), NOW + 5);
    assert_eq!(n.exp, NOW + 5 + 15 * 60);
    assert_eq!(n.jti, "id-m");
    assert!(!store.contains("id-a"));
    assert_eq!(store.get("id-m").unwrap(), "user-1");
    assert_eq!(store.ttl("id-m"), Some(900));
    let same = reissue_access(&mut store, "id-m", "user-1", &cfg, &ids("m"), NOW + 6);
    assert_eq!(same.iat, NOW + 6);
    assert!(store.contains("id-m"));
}

#[test]
fn only_admin_role_is_admin() {
    assert!(is_admin_role("admin"));
    assert!(!is_admin_role("user"));
    assert!(!is_admin_role("Admin"));
    assert!(!is_admin_role(""));
}

fn system_seconds() -> i64 {
    std::time::SystemTime::now()
        .duration_since(std::time::UNIX_EPOCH)
        .unwrap()
        .as_secs() as i64
}

#[test]
fn claims_checked_against_the_clock() {
    let cfg = config();
    let now = system_seconds();
    assert_eq!(check_claims_now(&claims(now + 100, now - 100, "access"), &cfg), Ok(()));
    assert_eq!(
        check_claims_now(&claims(now - 600, now - 900, "access"), &cfg),
        Err(VerifyError::Expired)
    );
    assert_eq!(
        check_claims_now(&claims(now + 900, now + 600, "access"), &cfg),
        Err(VerifyError::NotYetValid)
    );
    let c = issue_fresh("user-1", 15, TokenType::Refresh, &cfg).unwrap();
    assert!((c.iat - now).abs() <= 5);
    assert_eq!(c.typ, "refresh");
}

#[test]
fn fresh_ids_are_uuids() {
    let a = TokenIds::fresh();
    let b = TokenIds::fresh();
    assert_eq!(a.token_id.len(), 36);
    assert_eq!(a.nonce.len(), 36);
    assert_eq!(a.token_id.matches('-').count(), 4);
    assert_ne!(a.token_id, a.nonce);
    assert_ne!(a.token_id, b.token_id);
}

#[test]
fn plans_list_their_writes_in_order() {
    let plan = rotation_commands("old", "new", "user-1");
    assert_eq!(plan.len(), 2);
    match &plan[0] {
        StoreCommand::SetWithExpiry { key, value, ttl_seconds } => {
            assert_eq!(key, "new");
            assert_eq!(value, "user-1");
            assert_eq!(*ttl_seconds, 300);
        }
        other => panic!("unexpected {:?}", other),
    }
    assert!(matches!(&plan[1], StoreCommand::Delete { key } if key == "old"));
    let mut store = SessionStore::new();
    store.set_with_expiry("old", "user-1", 10);
    store.apply(&plan);
    assert!(!store.contains("old"));
    assert_eq!(store.ttl("new"), Some(300));
    store.apply(&logout_commands("new", "other"));
    assert!(!store.contains("new"));
}

#[test]
fn decision_steps() {
    let c = claims(NOW + 900, NOW, "access");
    let d = nonce_decision(&c, true).unwrap();
    assert_eq!(d.token_uuid, "jti-1");
    assert_eq!(d.user_id, "user-1");
    assert_eq!(d.expires_in, NOW + 900);
    assert_eq!(nonce_decision(&c, false).unwrap_err(), VerifyError::ReplayedToken);
    assert_eq!(session_decision(Some("u".to_string())), Ok("u".to_string()));
    assert_eq!(session_decision(None), Err(AuthError::SessionNotFound));
}

#[test]
fn nonce_shaped_ids_are_refused() {
    let cfg = config();
    let mut c = claims(NOW + 900, NOW, "access");
    c.jti = "nonce:n-1".to_string();
    assert_eq!(check_claims(&c, &cfg, NOW), Err(VerifyError::MalformedToken));
    let mut store = SessionStore::new();
    assert_eq!(verify(&mut store, &c, &cfg, NOW).unwrap_err(), VerifyError::MalformedToken);
    assert!(!store.contains("nonce:n-1"));
}

#[test]
fn claims_at_decides_on_the_lifetime() {
    let cfg = config();
    let c = claims_at("user-1", 15, TokenType::Access, &cfg, &ids("a"), NOW).unwrap();
    assert_eq!(c.exp, NOW + 900);
    assert_eq!(c.jti, "id-a");
    assert!(claims_at("user-1", 1, TokenType::Access, &cfg, &ids("a"), i64::MAX - 10).is_none());
    assert!(claims_at("user-1", i64::MAX / 10, TokenType::Refresh, &cfg, &ids("a"), 0).is_none());
}
