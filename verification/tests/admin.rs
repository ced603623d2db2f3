use cloudillo::admin::cert::{days_until_expiry, get_cert_status, CertRecord};
use cloudillo::admin::email::{
    is_email_like, send_test_email, test_message, SmtpCategory, TestEmailRequest,
};
use cloudillo::admin::invite::{
    invitation_action, invitation_content, invitation_expiry, invitation_ref,
    post_invite_community, InviteCommunityRequest,
};
use cloudillo::admin::maintenance::{manual_run_key, post_db_maintenance};
use cloudillo::admin::perm::require_admin;
use cloudillo::admin::tenant::{
    list_tenants, page_of, purge_advance, purge_tenant, purge_tenant_handler, reset_mail,
    send_password_reset,
    AuthTenant, ListTenantsQuery, MetaTenant, ProfileType, PurgeRun, PurgeTenantBody,
};
use cloudillo::json::Json;
use cloudillo::types::{AuthCtx, Error, Timestamp, TnId};

fn caller(id_tag: &str, roles: &[&str]) -> AuthCtx {
    AuthCtx {
        tn_id: TnId(1),
        id_tag: id_tag.to_string(),
        roles: roles.iter().map(|r| r.to_string()).collect(),
        scope: None,
        anonymous: false,
    }
}

#[test]
fn administrators_are_told_apart() {
    assert!(require_admin(&caller("a", &["SADM"])).is_ok());
    assert!(matches!(require_admin(&caller("a", &["leader"])), Err(Error::PermissionDenied)));
}

#[test]
fn certificates_run_out() {
    assert_eq!(days_until_expiry(86_400 * 10, 0), 10);
    assert_eq!(days_until_expiry(86_400 * 10 - 1, 0), 9);
    assert_eq!(days_until_expiry(0, 86_400 * 2 - 1), -1);
    assert_eq!(days_until_expiry(i64::MIN, 0), i64::MIN / 86_400);
    let cert = CertRecord {
        domain: "cl-o.a.org".to_string(),
        expires_at: Timestamp(86_400 * 3),
        expires_at_iso: "1970-01-04T00:00:00Z".to_string(),
        last_renewal_attempt_at: None,
        last_renewal_error: Some("late".to_string()),
        failure_count: 2,
        notified_at: None,
    };
    let status = get_cert_status(cert, Some("A".to_string()), Timestamp(0));
    assert_eq!(status.domain, "cl-o.a.org");
    assert_eq!(status.expires_at, "1970-01-04T00:00:00Z");
    assert_eq!(status.days_until_expiry, 3);
    assert_eq!(status.last_renewal_error.as_deref(), Some("late"));
    assert_eq!(status.failure_count, 2);
    assert_eq!(status.tenant_status.as_deref(), Some("A"));
}

#[test]
fn test_mails_are_sent() {
    assert!(is_email_like("a@b.c"));
    assert!(!is_email_like("nonsense"));
    let m = test_message("a@b.c", Some("node"));
    assert_eq!(m.to, "a@b.c");
    let ask = |to: &str| TestEmailRequest { to: to.to_string() };
    assert_eq!(send_test_email(&ask("a@b.c"), Ok(())).http_status, 200);
    assert!(send_test_email(&ask("a@b.c"), Ok(())).response.unwrap().success);
    let missing = send_test_email(&ask("a@b.c"), Err(SmtpCategory::NotConfigured));
    let failed = send_test_email(&ask("a@b.c"), Err(SmtpCategory::Other));
    assert_ne!(missing.http_status, 200);
    assert!(failed.error_code.is_some());
    assert_ne!(send_test_email(&ask("nonsense"), Ok(())).http_status, 200);
}

#[test]
fn communities_are_invited() {
    let now = Timestamp(1000);
    assert_eq!(invitation_expiry(now, Some(2)), Timestamp(1000 + 2 * 86_400));
    assert_eq!(invitation_expiry(now, None), Timestamp(1000 + 30 * 86_400));
    let c = invitation_content("r", "node", Some("hello"));
    assert_eq!(c.get_text("refId"), Some("r"));
    assert_eq!(c.get_text("nodeName"), Some("node"));
    assert_eq!(c.get_text("message"), Some("hello"));
    let request = InviteCommunityRequest {
        target_id_tag: "club".into(),
        expires_in_days: Some(1),
        message: None,
    };
    let n = invitation_ref("node.org", now, request.expires_in_days);
    assert_eq!((n.typ.as_str(), n.id_tag.as_str()), ("profile.invite", "node.org"));
    assert_eq!((n.path_prefix.as_str(), n.expires_at), ("/profile/new?invite=", Timestamp(87_400)));
    let a = invitation_action(&request, "r", "Node", now);
    assert_eq!((a.typ.as_str(), a.audience_tag.as_deref()), ("PRINVT", Some("club")));
    assert_eq!(a.expires_at, Some(Timestamp(87_400)));
    assert_eq!(a.content.unwrap().get("message"), Some(&Json::Null));
    let r = post_invite_community(request, "r".into(), "https://x".into(), now);
    assert_eq!(r.expires_at, Some(87_400));
    assert_eq!(r.target_id_tag, "club");
    assert_eq!(post_db_maintenance(5).task_id, 5);
    assert!(!manual_run_key().is_empty());
}

fn account(n: u32, tag: &str, email: Option<&str>) -> AuthTenant {
    AuthTenant {
        tn_id: TnId(n),
        id_tag: tag.into(),
        email: email.map(str::to_string),
        status: None,
        roles: None,
        created_at: Timestamp(7),
    }
}

#[test]
fn tenants_are_listed() {
    let auths = vec![account(1, "a", None), account(2, "b", None)];
    let metas = vec![MetaTenant {
        tn_id: TnId(2),
        name: "Bee".into(),
        typ: ProfileType::Community,
        profile_pic: None,
        created_at: Timestamp(9),
    }];
    let all = list_tenants(&auths, &metas);
    assert_eq!((all[0].name.as_str(), all[0].created_at), ("a", 7));
    assert_eq!((all[1].name.as_str(), all[1].created_at), ("Bee", 9));
    assert_eq!(all[1].typ, ProfileType::Community);
    let q = ListTenantsQuery { limit: Some(5), offset: Some(3), ..ListTenantsQuery::default() };
    assert_eq!(page_of(&q, 10), (3, 5));
    assert_eq!(page_of(&ListTenantsQuery::default(), 10), (0, 10));
}

#[test]
fn passwords_are_reset_by_administrators() {
    let auths = vec![account(1, "a", Some("a@b.c")), account(2, "b", None)];
    let r = send_password_reset(TnId(1), "a", &auths, None, 100).unwrap();
    assert_eq!(r.to, "a@b.c");
    assert_eq!(r.reference.expires_at, Timestamp(86_500));
    assert_eq!((r.reference.typ.as_str(), r.reference.id_tag.as_str()), ("password", "a"));
    assert_eq!(r.reference.path_prefix, "/reset-password");
    let mail = reset_mail(&r, "Ann", None, "https://link");
    assert_eq!((mail.to.as_str(), mail.template.as_str()), ("a@b.c", "password_reset"));
    assert_eq!(mail.vars.get_text("identity_tag"), Some("Ann"));
    assert_eq!(mail.vars.get_text("base_id_tag"), Some("cloudillo"));
    assert_eq!(mail.vars.get_text("reset_link"), Some("https://link"));
    assert_eq!(mail.vars.get("expire_hours"), Some(&Json::Unsigned(24)));
    assert_eq!(r.mail_key, "pw-reset:1:100");
    assert_eq!(r.sender_name, "Cloudillo | CLOUDILLO");
    assert_eq!(r.response.message, "Password reset email sent to a@b.c");
    assert!(matches!(
        send_password_reset(TnId(2), "b", &auths, None, 100),
        Err(Error::ValidationError(m)) if m == "Tenant does not have an email address"
    ));
    assert!(matches!(
        send_password_reset(TnId(3), "c", &auths, None, 100),
        Err(Error::NotFound)
    ));
}

#[test]
fn tenants_are_purged_in_order() {
    let admin = caller("root", &["SADM"]);
    let ask = |tag: &str| PurgeTenantBody { confirm_id_tag: tag.to_string() };
    let why = |r: Result<TnId, Error>| match r {
        Err(Error::ValidationError(m)) => m,
        _ => String::new(),
    };
    assert!(purge_tenant_handler(&admin, "t", &ask("t"), Ok(TnId(5))).is_ok());
    assert_eq!(
        why(purge_tenant_handler(&admin, "t", &ask("x"), Err(Error::NotFound))),
        "confirm_id_tag mismatch"
    );
    assert_eq!(
        why(purge_tenant_handler(&admin, "root", &ask("root"), Ok(TnId(5)))),
        "cannot purge the admin's own tenant"
    );
    assert_eq!(
        why(purge_tenant_handler(&admin, "t", &ask("t"), Ok(TnId(1)))),
        "cannot purge the base tenant"
    );
    assert!(matches!(
        purge_tenant_handler(&admin, "t", &ask("t"), Err(Error::NotFound)),
        Err(Error::NotFound)
    ));
    let mut run = purge_tenant();
    let mut n = 0;
    while let PurgeRun::Next(step) = run {
        run = purge_advance(step, Ok(()));
        n += 1;
    }
    assert_eq!(n, 6);
    assert!(matches!(run, PurgeRun::Done));
    if let PurgeRun::Next(step) = purge_tenant() {
        assert!(matches!(purge_advance(step, Err(Error::DbError)), PurgeRun::Failed(Error::DbError)));
    }
}
