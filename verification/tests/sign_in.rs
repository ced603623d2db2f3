use cloudillo::auth::access::{
    derived_sub, narrow_to_presented, normalized_dav_scope, proxy_exchange_allowed,
};
use cloudillo::auth::webauthn::{new_jti, SpentChallenges};
use cloudillo::types::{AuthCtx, TnId};

fn auth_ctx(anonymous: bool, scope: Option<&str>) -> AuthCtx {
    AuthCtx {
        tn_id: TnId(1),
        id_tag: "alice.example.com".into(),
        roles: Vec::new(),
        scope: scope.map(str::to_string),
        anonymous,
    }
}

#[test]
fn a_re_read_never_upgrades_a_credential_that_carries_no_roles() {
    assert_eq!(
        narrow_to_presented(Some("leader,moderator".into()), &Vec::new()),
        Some(String::new())
    );
}

#[test]
fn a_re_read_keeps_the_roles_a_session_legitimately_holds() {
    let presented: Vec<String> = vec!["leader".into(), "moderator".into()];
    assert_eq!(
        narrow_to_presented(Some("leader,moderator".into()), &presented),
        Some("leader,moderator".into())
    );
}

#[test]
fn a_re_read_drops_roles_the_presented_set_never_had() {
    let presented: Vec<String> = vec!["moderator".into()];
    assert_eq!(
        narrow_to_presented(Some("leader,moderator".into()), &presented),
        Some("moderator".into())
    );
}

#[test]
fn derived_sub_keeps_a_session_callers_identity() {
    assert_eq!(derived_sub(&auth_ctx(false, None)), Some("alice.example.com"));
}

#[test]
fn derived_sub_keeps_a_scoped_signed_in_callers_identity() {
    assert_eq!(derived_sub(&auth_ctx(false, Some("file:f1~abc:W"))), Some("alice.example.com"));
}

#[test]
fn derived_sub_asserts_nothing_for_an_anonymous_caller() {
    assert_eq!(derived_sub(&auth_ctx(true, Some("file:f1~abc:R"))), None);
}

#[test]
fn only_a_short_lived_proxy_token_is_exchangeable() {
    let max = 1_000;
    assert!(proxy_exchange_allowed("PROXY", Some(940), max));
    assert!(proxy_exchange_allowed("PROXY", Some(max), max), "the boundary is inclusive");

    assert!(!proxy_exchange_allowed("PROXY", None, max), "a missing exp never expires");
    assert!(!proxy_exchange_allowed("PROXY", Some(max + 1), max), "too distant");
    for typ in ["POST", "APRV", "CONN", "STAT", ""] {
        assert!(!proxy_exchange_allowed(typ, Some(940), max), "{typ} must not be exchangeable");
    }
}

#[test]
fn only_known_dav_capability_scopes_pass_through() {
    assert_eq!(normalized_dav_scope("carddav:read").as_deref(), Some("carddav:read"));
    assert_eq!(
        normalized_dav_scope("carddav:read,caldav:write").as_deref(),
        Some("carddav:read,caldav:write")
    );
    assert_eq!(
        normalized_dav_scope("carddav:read, caldav:write").as_deref(),
        Some("carddav:read,caldav:write"),
        "a blank behind a comma is tolerated"
    );

    assert_eq!(normalized_dav_scope("carddav:reader"), None);
    assert_eq!(normalized_dav_scope("carddav"), None);
    assert_eq!(normalized_dav_scope(""), None);
    assert_eq!(normalized_dav_scope("carddav:read,bogus"), None, "one bad entry sinks it");
}

#[test]
fn a_spent_challenge_cannot_be_spent_again() {
    let mut spent = SpentChallenges::new();
    let jti = new_jti();
    assert!(spent.consume_challenge(&jti, 0).is_ok());
    assert!(spent.consume_challenge(&jti, 0).is_err());
}

#[test]
fn distinct_challenges_are_independent() {
    let mut spent = SpentChallenges::new();
    let a = new_jti();
    let b = new_jti();
    assert_ne!(a, b);
    assert!(spent.consume_challenge(&a, 0).is_ok());
    assert!(spent.consume_challenge(&b, 0).is_ok());
}
