use cloudillo::auth::access::{
    access_route, bare_file_id, drop_empty, federated_proxy_token, get_access_token, get_proxy_token,
    local_proxy_token, owner_role_names, reread_roles, role_list, uses_link, validated_scope,
    AccessFacts, AccessLevel, AccessRoute, ApiKeyInfo, GetAccessTokenQuery,
    ProxyRoute, ProxyTokenQuery, RoleFacts, ShareRef, TokenScope, VerifiedAction,
};
use cloudillo::auth::cleanup::{AuthCleanupTask, CleanupStep};
use cloudillo::auth::handler::{
    advance_reset, check_password_strength, forgot_password_answer, get_login_token,
    normalized_email, onboarding_gate, plan_reset, post_complete_onboarding, post_forgot_password,
    post_login, post_login_init, post_logout, post_password, post_set_password, reference_error,
    return_login, AuthLogin, ForgotPasswordReq, Login, LoginStart, Onboarding, PasswordRef, PasswordReq, RefKind, ResetEvent,
    ResetStep, SetPasswordReq, TenantEntry,
    TenantProfile,
};
use cloudillo::auth::qr_login::{
    new_qr_login_store, respond_status, status_response, QrLoginStore, Resolution, RespondRequest,
    SessionOrigin, MAX_SESSIONS, SESSION_EXPIRY_MS,
};
use cloudillo::auth::secrets::{
    claims_or_error, create_challenge_jwt, decode_challenge_jwt, hash_secret, signed_or_error,
    to_hex,
};
use cloudillo::auth::webauthn::{
    check_login, check_registration, credential_info, describe_passkey, excluded_credentials,
    finish_challenge, finish_login, get_login_challenge, get_reg_challenge, has_passkeys,
    new_credential, new_jti, parse_user_agent, post_reg, read_challenge, reg_challenge,
    sign_challenge, try_login_challenge, valid_passkeys, ChallengeToken, PasskeyFailure,
    SpentChallenges,
};
use cloudillo::auth::webauthn;
use cloudillo::json::Json;
use cloudillo::types::{AuthCtx, Error, Timestamp, TnId};

fn caller(id_tag: &str, scope: Option<&str>) -> AuthCtx {
    AuthCtx {
        tn_id: TnId(1),
        id_tag: id_tag.to_string(),
        roles: vec!["leader".to_string(), "contributor".to_string()],
        scope: scope.map(str::to_string),
        anonymous: false,
    }
}

fn query() -> GetAccessTokenQuery {
    GetAccessTokenQuery {
        token: None,
        scope: None,
        ref_id: None,
        api_key: None,
        refresh: None,
        via: None,
    }
}

fn facts() -> AccessFacts {
    AccessFacts {
        requested_scope: None,
        caller_scope: None,
        via_access: None,
        link_permission: Ok(None),
        action: Err(Error::NotFound),
        max_exp: 1000,
        share: Err(Error::NotFound),
        api_key: None,
        roles: Ok(Some("leader".to_string())),
        leader: false,
        file_access: None,
    }
}

fn message<T>(r: Result<T, Error>) -> Option<String> {
    match r {
        Err(Error::ValidationError(m)) => Some(m),
        _ => None,
    }
}

fn file(id: &str, access: AccessLevel) -> TokenScope {
    TokenScope::File { file_id: id.to_string(), access }
}

// Access

#[test]
fn scopes_never_exceed_what_is_held() {
    let ask = |level, held| {
        validated_scope(Some("file:f:W"), Some(&file("f", level)), held, false)
    };
    assert_eq!(
        ask(AccessLevel::Write, Some(AccessLevel::Read)).unwrap().as_deref(),
        Some("file:f:R")
    );
    assert_eq!(
        ask(AccessLevel::Admin, Some(AccessLevel::Admin)).unwrap().as_deref(),
        Some("file:f:W")
    );
    assert!(matches!(ask(AccessLevel::Read, None), Err(Error::PermissionDenied)));
    assert_eq!(validated_scope(None, None, None, false).unwrap(), None);
    assert_eq!(
        message(validated_scope(Some("bogus"), None, None, false)).as_deref(),
        Some("Invalid scope format")
    );
    let publish = Some(&TokenScope::ApkgPublish);
    assert!(validated_scope(Some("apkg:publish"), publish, None, true).is_ok());
    assert!(matches!(
        validated_scope(Some("apkg:publish"), publish, None, false),
        Err(Error::PermissionDenied)
    ));
    assert_eq!(AccessLevel::Comment.lower_of(AccessLevel::Write), AccessLevel::Comment);
}

#[test]
fn tokens_are_traded() {
    let us = TnId(1);
    assert_eq!(access_route(&query()), AccessRoute::Session);
    assert!(uses_link(&query()));
    assert!(!uses_link(&GetAccessTokenQuery { refresh: Some(true), ..query() }));
    assert_eq!(bare_file_id("bob.org:f1~x"), "f1~x");
    assert_eq!(bare_file_id("f1~x"), "f1~x");
    // A session renews itself; a restricted credential does not.
    let me = caller("alice", None);
    let g = get_access_token("us", us, Some(&me), &query(), facts()).unwrap();
    assert_eq!(g.sub.as_deref(), Some("alice"));
    assert_eq!(g.roles.as_deref(), Some("leader"));
    let scoped = caller("alice", Some("file:f:R"));
    assert!(matches!(
        get_access_token("us", us, Some(&scoped), &query(), facts()),
        Err(Error::PermissionDenied)
    ));
    assert!(matches!(
        get_access_token("us", us, None, &query(), facts()),
        Err(Error::Unauthorized)
    ));

    // A share link names nobody.
    let mut q = query();
    q.ref_id = Some("r".into());
    let mut f = facts();
    f.share = Ok(ShareRef { tn_id: us, resource_id: Some("f".into()), access_level: Some('A'), params: Some("p=1".into()) });
    let g = get_access_token("us", us, Some(&me), &q, f).unwrap();
    assert_eq!(g.sub, None);
    assert_eq!(g.roles, None);
    assert_eq!(g.scope.as_deref(), Some("file:f:W"));
    assert_eq!(g.level, Some(AccessLevel::Write));
    assert_eq!(g.params.as_deref(), Some("p=1"));
    assert_eq!(
        message(get_access_token("us", us, None, &q, facts())).as_deref(),
        Some("Invalid or expired share link")
    );
    let mut f = facts();
    f.share = Ok(ShareRef { tn_id: TnId(2), resource_id: Some("f".into()), access_level: None, params: None });
    assert!(matches!(
        get_access_token("us", us, None, &q, f),
        Err(Error::PermissionDenied)
    ));
    let mut f = facts();
    f.share = Ok(ShareRef { tn_id: us, resource_id: None, access_level: None, params: None });
    assert_eq!(
        message(get_access_token("us", us, None, &q, f)).as_deref(),
        Some("Share link missing resource_id")
    );

    // An API key passes on what it carries, at its own tenant.
    let mut q = query();
    q.api_key = Some("k".into());
    let key = |tn| ApiKeyInfo {
        tn_id: tn,
        id_tag: "bot".into(),
        roles: None,
        scopes: Some("caldav:read".into()),
    };
    let mut f = facts();
    f.api_key = Some(key(us));
    assert_eq!(
        get_access_token("us", us, None, &q, f).unwrap().scope.as_deref(),
        Some("caldav:read")
    );
    let mut f = facts();
    f.api_key = Some(key(TnId(2)));
    assert!(get_access_token("us", us, None, &q, f).is_err());

    // An action token has to be a proxy token for this tenant.
    let mut q = query();
    q.token = Some("t".into());
    let action = |typ: &str, aud: &str| {
        Ok(VerifiedAction {
            typ: typ.into(),
            iss: "bob".into(),
            aud: Some(aud.into()),
            exp: Some(900),
        })
    };
    let mut f = facts();
    f.action = action("PROXY", "us");
    assert_eq!(get_access_token("us", us, None, &q, f).unwrap().sub.as_deref(), Some("bob"));
    for (typ, aud) in [("PROXY", "other"), ("CONN", "us")] {
        let mut f = facts();
        f.action = action(typ, aud);
        assert!(matches!(
            get_access_token("us", us, None, &q, f),
            Err(Error::PermissionDenied)
        ));
    }

    // Access to a file for access to one that embeds it.
    let mut q = query();
    q.via = Some("us:doc".into());
    assert_eq!(
        message(get_access_token("us", us, Some(&me), &q, facts())).as_deref(),
        Some("scope parameter required with via")
    );
    q.scope = Some("file:g:W".into());
    let mut f = facts();
    f.requested_scope = Some(file("g", AccessLevel::Write));
    f.link_permission = Ok(Some('C'));
    f.via_access = Some(AccessLevel::Admin);
    assert_eq!(
        get_access_token("us", us, Some(&me), &q, f).unwrap().scope.as_deref(),
        Some("file:g:C")
    );
    let mut f = facts();
    f.requested_scope = Some(file("g", AccessLevel::Write));
    f.via_access = Some(AccessLevel::Admin);
    assert!(matches!(
        get_access_token("us", us, Some(&me), &q, f),
        Err(Error::PermissionDenied)
    ));
    let mut f = facts();
    f.requested_scope = Some(file("g", AccessLevel::Write));
    f.via_access = Some(AccessLevel::Admin);
    f.link_permission = Err(Error::DbError);
    assert!(matches!(get_access_token("us", us, Some(&me), &q, f), Err(Error::DbError)));
    let mut f = facts();
    f.requested_scope = Some(TokenScope::ApkgPublish);
    assert_eq!(
        message(get_access_token("us", us, Some(&me), &q, f)).as_deref(),
        Some("scope must be a file scope")
    );
}

#[test]
fn roles_are_read_again() {
    let roles = |deleted, profile: Result<Option<String>, Error>| RoleFacts {
        tenant_status: if deleted { Some("X".to_string()) } else { Some("A".to_string()) },
        owner_roles: "leader,moderator,contributor".into(),
        profile_roles: profile,
    };
    let me = caller("us", None);
    assert_eq!(
        reread_roles("us", &me, roles(false, Ok(None))).unwrap().as_deref(),
        Some("leader,contributor")
    );
    let other = caller("bob", None);
    assert_eq!(
        reread_roles("us", &other, roles(false, Ok(Some("contributor".into())))).unwrap().as_deref(),
        Some("contributor")
    );
    assert_eq!(reread_roles("us", &other, roles(false, Err(Error::NotFound))).unwrap(), None);
    assert!(matches!(
        reread_roles("us", &me, roles(true, Ok(None))),
        Err(Error::PermissionDenied)
    ));
    assert_eq!(owner_role_names(None), vec!["leader".to_string()]);
    assert_eq!(
        owner_role_names(Some(vec!["SADM".to_string()])),
        vec!["leader".to_string(), "SADM".to_string()]
    );
    let local = local_proxy_token("t".into(), &Some("a,,b".to_string()));
    assert_eq!(local.token, "t");
    assert_eq!(local.roles, Some(vec!["a".to_string(), "b".to_string()]));
    assert_eq!(local_proxy_token("t".into(), &None).roles, Some(vec![]));
    assert_eq!(
        federated_proxy_token("t".into(), Some("a,,b")).roles,
        Some(vec!["a".to_string(), String::new(), "b".to_string()])
    );
    assert_eq!(federated_proxy_token("t".into(), None).roles, None);
    assert_eq!(drop_empty(Some(String::new())), None);
    assert_eq!(role_list("a,,b"), vec!["a".to_string(), "b".to_string()]);

    let q = |t: Option<&str>| ProxyTokenQuery { id_tag: t.map(str::to_string) };
    let held = || Ok(Some("leader".to_string()));
    assert!(matches!(
        get_proxy_token("us", &me, &q(Some("peer")), held(), true),
        Ok(ProxyRoute::Federated(t)) if t == "peer"
    ));
    assert!(matches!(
        get_proxy_token("us", &me, &q(Some("peer")), held(), false),
        Err(Error::PermissionDenied)
    ));
    assert!(matches!(
        get_proxy_token("us", &me, &q(None), held(), false),
        Ok(ProxyRoute::Local(Some(r))) if r == "leader"
    ));
    let scoped = caller("us", Some("file:f:R"));
    assert!(get_proxy_token("us", &scoped, &q(None), held(), true).is_err());
}

// Passwords and sessions

fn auth_login() -> AuthLogin {
    AuthLogin { tn_id: TnId(1), id_tag: "alice".into(), roles: None, token: "tok".into() }
}

fn login() -> Login {
    return_login(auth_login(), None)
}

#[test]
fn logins_are_answered() {
    let l = return_login(
        auth_login(),
        Some(TenantProfile { name: "Alice".into(), profile_pic: Some("p".into()) }),
    );
    assert_eq!((l.name.as_str(), l.profile_pic.as_str()), ("Alice", "p"));
    assert_eq!(login().name, "alice");
    assert!(post_login(Some(auth_login())).is_ok());
    assert!(post_login(None).is_err());
    assert!(get_login_token(None, None).is_err() || get_login_token(None, None).unwrap().is_none());
    assert_eq!(post_logout(TnId(1), Some((TnId(1), 5))), Some(5));
    assert_eq!(post_logout(TnId(1), Some((TnId(2), 5))), None);
    assert!(matches!(post_login_init(None), Ok(LoginStart::Offer)));
    assert!(matches!(post_login_init(Some(&caller("a", None))), Ok(LoginStart::Renew)));
}

#[test]
fn passwords_are_checked() {
    assert_eq!(
        message(check_password_strength("        ")).as_deref(),
        Some("Password cannot be empty or only whitespace")
    );
    assert_eq!(
        message(check_password_strength("short")).as_deref(),
        Some("Password must be at least 8 characters")
    );
    assert!(check_password_strength("longenough").is_ok());
    let change = |new: &str, ok| {
        post_password(
            &PasswordReq { current_password: "old-password".into(), new_password: new.into() },
            ok,
        )
    };
    assert!(change("new-password", true).is_ok());
    assert_eq!(
        message(change("old-password", true)).as_deref(),
        Some("New password must be different from current password")
    );
    assert!(matches!(change("new-password", false), Err(Error::PermissionDenied)));

    let set = |reference, onboarding| {
        post_set_password(
            &SetPasswordReq { ref_id: "r".into(), new_password: "new-password".into() },
            reference,
            "us",
            onboarding,
        )
    };
    let r = |tag: &str, kind| Ok(PasswordRef { id_tag: tag.into(), kind });
    assert!(set(r("us", RefKind::Password), Onboarding::Open).unwrap());
    assert!(!set(r("us", RefKind::Welcome), Onboarding::Open).unwrap());
    assert!(matches!(
        set(r("other", RefKind::Password), Onboarding::Open),
        Err(Error::PermissionDenied)
    ));
    assert_eq!(
        message(set(Err(Error::NotFound), Onboarding::Open)).as_deref(),
        Some("Invalid or expired reference")
    );
    assert!(message(set(r("us", RefKind::Welcome), Onboarding::VerifyIdp))
        .unwrap()
        .starts_with("Identity is not yet activated."));
    assert!(message(set(r("us", RefKind::Welcome), Onboarding::Unknown))
        .unwrap()
        .starts_with("Unable to verify"));
    assert_eq!(onboarding_gate(Ok(Some("verify-idp".into()))), Onboarding::VerifyIdp);
    assert_eq!(onboarding_gate(Ok(Some("profile".into()))), Onboarding::Open);
    assert_eq!(onboarding_gate(Ok(None)), Onboarding::Open);
    assert_eq!(onboarding_gate(Err(Error::DbError)), Onboarding::Unknown);
    assert!(matches!(reference_error(Error::DbError), Error::ValidationError(m) if m == "Invalid reference"));
    assert!(post_complete_onboarding(TnId(1), Ok(TnId(1))).unwrap());
    assert!(!post_complete_onboarding(TnId(1), Err(Error::NotFound)).unwrap());
    assert!(matches!(
        post_complete_onboarding(TnId(1), Ok(TnId(2))),
        Err(Error::PermissionDenied)
    ));
}

#[test]
fn forgotten_passwords_are_reset_with_restraint() {
    assert!(!forgot_password_answer().message.is_empty());
    assert_eq!(normalized_email("  Alice@Example.ORG "), "alice@example.org");
    let entry = |n, tag: &str, mail: Option<&str>| TenantEntry {
        tn_id: TnId(n),
        id_tag: tag.into(),
        email: mail.map(str::to_string),
    };
    let tenants =
        || vec![entry(1, "a.org", Some("x@y.z")), entry(2, "b.org", Some("Q@y.z"))];
    let begin = |email: &str, host: Option<&str>| {
        post_forgot_password(&ForgotPasswordReq { email: email.into() }, host)
    };
    let account = |email: &str, host: &str| {
        advance_reset(begin(email, Some(host)), ResetEvent::Tenants(Ok(tenants())))
    };
    let answered = |s: ResetStep| match s {
        ResetStep::Answer { status: 200, body } => {
            body.message
                == "If an account with this email exists, a password reset link has been sent."
        },
        _ => false,
    };
    match account(" X@y.z", "a.org") {
        ResetStep::Account(a) => {
            assert_eq!((a.tn_id, a.id_tag.as_str(), a.email.as_str()), (TnId(1), "a.org", "x@y.z"));
        },
        other => panic!("{other:?}"),
    }
    // The account has to be that of the host, and the address exactly this one.
    assert!(answered(account("x@y.z", "b.org")));
    assert!(answered(account("q@y.z", "b.org")));
    assert!(answered(begin("x@y.z", None)));
    assert!(answered(begin("x@y", Some("a.org"))));
    assert!(answered(advance_reset(
        begin("x@y.z", Some("a.org")),
        ResetEvent::Tenants(Err(Error::DbError))
    )));
    let read = |earlier: Vec<i64>| ResetEvent::Account { name: None, earlier, now: 1_000_000 };
    assert!(answered(advance_reset(account("x@y.z", "a.org"), read(vec![1_000_000; 3]))));
    let referred = || advance_reset(account("x@y.z", "a.org"), read(vec![]));
    assert!(answered(advance_reset(referred(), ResetEvent::Reference(Err(Error::DbError)))));
    let mail = advance_reset(referred(), ResetEvent::Reference(Ok("link".into())));
    match &mail {
        ResetStep::Mail { tn_id, mail } => {
            assert_eq!((*tn_id, mail.to.as_str()), (TnId(1), "x@y.z"));
            assert_eq!(mail.template, "password_reset");
            assert_eq!(mail.vars.get_text("reset_link"), Some("link"));
            assert_eq!(mail.vars.get_text("idTag"), Some("a.org"));
            assert_eq!(mail.vars.get_text("identity_tag"), Some("a.org"));
            assert_eq!(mail.key, "pw-reset:1:1000000");
        },
        other => panic!("{other:?}"),
    }
    assert!(answered(advance_reset(mail, ResetEvent::Mailed(Ok(())))));
    assert!(answered(advance_reset(referred(), ResetEvent::Mailed(Ok(())))));
    let now = 1_000_000;
    let plan = plan_reset(TnId(1), "a.org", Some("Ann"), &vec![], now).unwrap();
    assert_eq!(plan.reference.expires_at, Timestamp(now + 86_400));
    assert_eq!(plan.reference.typ, "password");
    assert_eq!(plan.mail_key, "pw-reset:1:1000000");
    assert_eq!(plan.sender_name, "Cloudillo | A.ORG");
    assert_eq!(plan.user_name, "Ann");
    let plan = plan_reset(TnId(1), "a.org", None, &vec![], now).unwrap();
    assert_eq!(plan.user_name, "a.org");
    assert!(plan_reset(TnId(1), "a.org", Some("Ann"), &vec![now; 2], now).is_some());
    assert!(plan_reset(TnId(1), "a.org", Some("Ann"), &vec![now; 3], now).is_none());
    assert!(plan_reset(TnId(1), "a.org", Some("Ann"), &vec![now - 3600; 4], now).is_some());
    assert!(plan_reset(TnId(1), "a.org", Some("Ann"), &vec![now - 3600; 5], now).is_none());
    assert_eq!(AuthCleanupTask::kind(), "auth.cleanup");
    assert_eq!(AuthCleanupTask::orphan_cutoff(Timestamp(700_000)), Timestamp(95_200));
    assert_eq!(AuthCleanupTask::build().serialize(), "");
    assert_eq!(
        AuthCleanupTask::steps(Timestamp(700_000)),
        vec![
            CleanupStep::ApiKeys,
            CleanupStep::VerificationCodes,
            CleanupStep::OrphanedActions(Timestamp(95_200)),
            CleanupStep::QrSessions,
        ]
    );
}

// Signing in by another device

fn origin(tn: u32) -> SessionOrigin {
    SessionOrigin { tn_id: TnId(tn), user_agent: Some("ua".into()), ip_address: None }
}

#[test]
fn sessions_are_opened_and_answered() {
    let mut store: QrLoginStore = new_qr_login_store();
    let s = store.create_session(origin(1), 0).unwrap();
    assert_ne!(s.session_id, s.secret);
    assert!(store.verify_secret(&s.session_id, &s.secret).is_ok());
    assert!(store.verify_secret(&s.session_id, "wrong").is_err());
    assert!(store.verify_secret("nobody", &s.secret).is_err());
    assert!(matches!(store.try_resolve_status(&s.session_id, 1), Resolution::Pending));
    assert_eq!(
        store.get_details(&s.session_id, TnId(1), 1).unwrap().user_agent.as_deref(),
        Some("ua")
    );
    assert!(matches!(
        store.get_details(&s.session_id, TnId(2), 1),
        Err(Error::PermissionDenied)
    ));
    assert!(matches!(
        store.get_details(&s.session_id, TnId(1), SESSION_EXPIRY_MS + 1),
        Err(Error::NotFound)
    ));
    assert!(store.check_response(&s.session_id, TnId(1), 1).is_ok());
    assert!(store.approve(&s.session_id, login()).is_ok());
    assert_eq!(
        message(store.check_response(&s.session_id, TnId(1), 1)).as_deref(),
        Some("Session already responded")
    );
    assert_eq!(
        message(store.approve(&s.session_id, login())).as_deref(),
        Some("Session already responded")
    );
    // The sign-in is handed out once.
    assert!(matches!(
        store.try_resolve_status(&s.session_id, 2),
        Resolution::Approved(Some(l)) if l.token == "tok"
    ));
    assert!(matches!(store.try_resolve_status(&s.session_id, 3), Resolution::Expired));

    let d = store.create_session(origin(1), 0).unwrap();
    assert!(store.deny(&d.session_id).is_ok());
    assert!(matches!(store.try_resolve_status(&d.session_id, 1), Resolution::Denied));
    assert!(matches!(store.deny("nobody"), Err(Error::NotFound)));
    let _ = store.create_session(origin(1), 0);
    assert_eq!(store.cleanup_expired(SESSION_EXPIRY_MS + 1), 1);
    assert_eq!(store.wait_ms("nobody", Some(5), 0), 0);
    assert_eq!(status_response(Resolution::Pending).status, "pending");
    assert_eq!(respond_status(RespondRequest { approved: false }).status, "denied");
}

#[test]
fn there_is_an_end_to_sessions() {
    let mut store = QrLoginStore::new();
    for i in 0..MAX_SESSIONS {
        assert!(store.open_session(format!("s{i}"), "secret", origin(1), 0).is_ok());
    }
    assert!(matches!(
        store.open_session("one more".into(), "secret", origin(1), 0),
        Err(Error::ServiceUnavailable(m)) if m == "too many QR login sessions"
    ));
    // Expired sessions make room.
    assert!(store
        .open_session("later".into(), "secret", origin(1), SESSION_EXPIRY_MS + 1)
        .is_ok());
}

#[test]
fn secrets_are_kept_as_digests() {
    assert_eq!(to_hex(&[0, 255, 16]), "00ff10");
    assert_eq!(
        hash_secret("abc"),
        "ba7816bf8f01cfea414140de5dae2223b00361a396177a9cb410ff61f20015ad"
    );
    let far = 4_000_000_000u64;
    let claims = Json::Object(vec![("exp".to_string(), Json::Unsigned(far))]);
    let token = create_challenge_jwt(&claims, "s").unwrap();
    assert_eq!(token.split('.').count(), 3);
    assert_eq!(decode_challenge_jwt(&token, "s").unwrap().get("exp"), Some(&Json::Unsigned(far)));
    assert!(matches!(decode_challenge_jwt(&token, "other"), Err(Error::Unauthorized)));
    let old = Json::Object(vec![("exp".to_string(), Json::Unsigned(1))]);
    let token = create_challenge_jwt(&old, "s").unwrap();
    assert!(matches!(decode_challenge_jwt(&token, "s"), Err(Error::Unauthorized)));
    assert!(matches!(signed_or_error(None), Err(Error::Internal(_))));
    assert!(matches!(claims_or_error(None), Err(Error::Unauthorized)));
}

// Passkeys

const FAR: u64 = 4_000_000_000;

fn challenge(jti: Option<&str>) -> ChallengeToken {
    ChallengeToken {
        tn_id: 1,
        id_tag: "alice.example.com".into(),
        state: "{}".into(),
        exp: FAR,
        jti: jti.map(str::to_string),
    }
}

#[test]
fn challenges_survive_their_signature() {
    for c in [challenge(None), challenge(Some("j"))] {
        let token = sign_challenge(&c, "secret").unwrap();
        let back = read_challenge(&token, "secret").unwrap();
        assert_eq!(back.tn_id, 1);
        assert_eq!(back.id_tag, "alice.example.com");
        assert_eq!(back.state, "{}");
        assert_eq!(back.exp, FAR);
        assert_eq!(back.jti, c.jti);
        assert!(matches!(read_challenge(&token, "other"), Err(Error::Unauthorized)));
    }
    let c = challenge(None);
    assert!(check_registration(&c, TnId(1), "alice.example.com", FAR).is_ok());
    assert!(matches!(
        check_registration(&c, TnId(2), "alice.example.com", 0),
        Err(Error::PermissionDenied)
    ));
    assert!(matches!(
        check_registration(&c, TnId(1), "bob.example.com", 0),
        Err(Error::PermissionDenied)
    ));
    assert!(matches!(
        check_registration(&c, TnId(1), "alice.example.com", FAR + 1),
        Err(Error::Unauthorized)
    ));
    assert!(check_login(&c, "alice.example.com", 0).is_ok());
    assert!(matches!(check_login(&c, "bob.example.com", 0), Err(Error::Unauthorized)));
}

#[test]
fn registrations_start_and_are_checked() {
    let now = 3_999_999_000;
    let host = "alice.example.com";
    let res = get_reg_challenge(TnId(1), host, &vec!["AAAA".into(), "!".into()], "s", now).unwrap();
    assert!(res.options.get("challenge").is_some());
    let c = read_challenge(&res.token, "s").unwrap();
    assert_eq!((c.tn_id, c.exp, c.jti.is_none()), (1, now + 120, true));
    assert!(c.state.contains("challenge"));
    assert_eq!(
        excluded_credentials(&vec!["AAAA".into(), "!".into()]),
        vec![vec![0u8, 0, 0]]
    );
    assert!(matches!(
        get_reg_challenge(TnId(1), "not a host", &vec![], "s", now),
        Err(Error::Internal(m)) if m == "invalid origin URL"
    ));
    assert!(matches!(
        reg_challenge(TnId(1), host, Err(PasskeyFailure::Refused), "s", now),
        Err(Error::Internal(m)) if m == "WebAuthn registration error"
    ));
    let options = Json::Object(vec![("publicKey".to_string(), Json::Unsigned(1))]);
    let res = reg_challenge(TnId(1), host, Ok((options, "st".into())), "s", now).unwrap();
    assert_eq!(res.options, Json::Unsigned(1));

    // Answers that are none.
    let finish = |answer: &str, c: &ChallengeToken| {
        finish_challenge(c, TnId(1), host, answer, None, None, now)
    };
    assert!(matches!(finish("{}", &challenge(None)), Err(Error::Parse)));
    assert!(matches!(
        post_reg("no token", "s", TnId(1), host, "{}", None, None, now),
        Err(Error::Unauthorized)
    ));
    let stored = new_credential(
        Ok((vec![0, 0, 0], "key".into())),
        None,
        Some("Mozilla/5.0 (X11; Linux x86_64) Firefox/1"),
        Timestamp(0),
    )
    .unwrap();
    assert_eq!(stored.credential_id, "AAAA");
    assert_eq!(stored.public_key, "key");
    assert_eq!(stored.description, "Firefox on Linux - 1970-01-01 00:00 UTC");
    assert!(matches!(
        new_credential(Err(PasskeyFailure::Refused), None, None, Timestamp(0)),
        Err(Error::PermissionDenied)
    ));
    assert!(matches!(
        new_credential(Err(PasskeyFailure::State), None, None, Timestamp(0)),
        Err(Error::Internal(m)) if m == "Invalid registration state"
    ));
}

#[test]
fn sign_ins_are_checked() {
    let now = 3_999_999_000;
    let host = "alice.example.com";
    assert!(!has_passkeys(&vec!["{}".into(), "x".into()]));
    assert!(valid_passkeys(&vec!["{}".into()]).is_empty());
    assert!(matches!(
        get_login_challenge(TnId(1), host, &vec![], "s", now),
        Err(Error::NotFound)
    ));
    let res = try_login_challenge(TnId(1), host, Ok((Json::Null, "st".into())), "j", "s", now);
    let c = read_challenge(&res.unwrap().token, "s").unwrap();
    assert_eq!(c.jti.as_deref(), Some("j"));
    assert_eq!(c.exp, now + 120);
    assert!(try_login_challenge(TnId(1), host, Err(PasskeyFailure::Party), "j", "s", now).is_none());

    let mut spent = SpentChallenges::new();
    let mut finish = |c: &ChallengeToken, at: &str| {
        let e = finish_login(&mut spent, c, at, "{}", now, 0).unwrap_err();
        (e.error, e.penalize)
    };
    assert!(matches!(finish(&challenge(Some("j")), "bob.example.com"), (Error::Unauthorized, true)));
    assert!(matches!(finish(&challenge(None), host), (Error::Unauthorized, true)));
    assert!(matches!(finish(&challenge(Some("j")), host), (Error::Parse, false)));
    let e = webauthn::post_login(&mut spent, "no token", "s", host, "{}", now, 0).unwrap_err();
    assert!(matches!(e.error, Error::Unauthorized));
    assert!(e.penalize);
}

#[test]
fn challenges_are_forgotten_when_they_expire() {
    let mut spent = SpentChallenges::new();
    assert!(spent.consume_challenge("j", 0).is_ok());
    assert!(spent.consume_challenge("j", 119_999).is_err());
    assert!(spent.consume_challenge("j", 120_000).is_ok());
    assert_eq!(new_jti().len(), 22);
}

#[test]
fn devices_have_names() {
    assert_eq!(parse_user_agent("Edg/1 Chrome Safari Windows"), "Edge on Windows");
    assert_eq!(parse_user_agent("Safari Macintosh"), "Safari on macOS");
    assert_eq!(parse_user_agent("x"), "Browser on Unknown");
    assert_eq!(credential_info("c", None).description, "Passkey");
    assert_eq!(describe_passkey(Some("mine"), None, Timestamp(0)), "mine");
    assert_eq!(
        describe_passkey(None, None, Timestamp(60)),
        "Browser on Unknown - 1970-01-01 00:01 UTC"
    );
}
