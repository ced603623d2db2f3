//! What administering the node comes to.
use crate::action::task::CreateAction;
use crate::admin::cert::{days_until_expiry, get_cert_status, CertRecord, CertStatusResponse};
use crate::admin::email::{
    is_email_like, send_test_email, test_message, EmailMessage, SmtpCategory, TestEmailAnswer,
    TestEmailRequest,
};
use crate::admin::invite::{
    invitation_action, invitation_ref, post_invite_community, InviteCommunityRequest,
    InviteCommunityResponse,
};
use crate::admin::perm::require_admin;
use crate::admin::tenant::{
    self, list_tenants, page_of, purge_advance, purge_tenant, purge_tenant_handler, reset_mail,
    send_password_reset, AdminReset, AuthTenant, ListTenantsQuery, MetaTenant, ProfileType,
    PurgeRun, PurgeStep, PurgeTenantBody, TenantView,
};
use crate::json::JsonView;
use crate::mail::{Mail, NewRef};
use crate::types::{AuthCtx, Error, Timestamp, TnId};
use vstd::prelude::*;

verus! {

/// Only who has the role of a site administrator administers the node.
pub proof fn law_administrators(auth: &AuthCtx, r: Result<(), Error>, i: int)
    requires
        call_ensures(require_admin, (auth,), r),
    ensures
        0 <= i < auth.roles@.len() && auth.roles@[i]@ == "SADM"@ ==> r is Ok,
        (forall|k: int| 0 <= k < auth.roles@.len() ==> (#[trigger] auth.roles@[k])@ != "SADM"@)
            ==> r is Err && r->Err_0 is PermissionDenied,
{
    if 0 <= i < auth.roles@.len() && auth.roles@[i]@ == "SADM"@ {
        assert(auth.roles.deep_view()[i] == "SADM"@);
    }
    if r is Ok {
        let k = choose|k: int|
            0 <= k < auth.roles.deep_view().len() && auth.roles.deep_view()[k] == "SADM"@;
        assert(auth.roles@[k]@ == "SADM"@);
    }
}

/// A certificate that expires in a number of days and less than another one is reported with that number,
/// and one that expired so long ago with its negative.
pub proof fn law_days_until_expiry(expires_at: i64, now: i64, days: i64, part: i64, r: i64)
    requires
        call_ensures(days_until_expiry, (expires_at, now), r),
        0 <= days < 100_000_000,
        0 <= part < 86400,
        i64::MIN <= expires_at - now <= i64::MAX,
    ensures
        expires_at - now == days * 86400 + part ==> r == days,
        now - expires_at == days * 86400 + part ==> r == -days,
{
    if expires_at - now == days * 86400 + part {
        vstd::arithmetic::div_mod::lemma_fundamental_div_mod_converse(
            expires_at - now,
            86400,
            days as int,
            part as int,
        );
    }
    if now - expires_at == days * 86400 + part {
        vstd::arithmetic::div_mod::lemma_fundamental_div_mod_converse(
            now - expires_at,
            86400,
            days as int,
            part as int,
        );
    }
}

/// A report on a certificate says what is on record of it.
pub proof fn law_certificates_are_reported(
    c: CertRecord,
    status: Option<String>,
    now: Timestamp,
    r: CertStatusResponse,
    days: i64,
)
    requires
        call_ensures(get_cert_status, (c, status, now), r),
        call_ensures(days_until_expiry, (c.expires_at.0, now.0), days),
    ensures
        r.domain@ == c.domain@ && r.expires_at@ == c.expires_at_iso@,
        r.days_until_expiry == days,
        r.last_renewal_attempt_at == c.last_renewal_attempt_at,
        r.last_renewal_error == c.last_renewal_error && r.failure_count == c.failure_count,
        r.notified_at == c.notified_at && r.tenant_status == status,
{
}

/// A trial of mail is answered by what became of it: 400 for what is no address, 200 where it was sent,
/// 412 where no server is set up, and 503 for anything else.
pub proof fn law_trials_of_mail(
    req: &TestEmailRequest,
    sent: Result<(), SmtpCategory>,
    r: TestEmailAnswer,
    to: &str,
    like: bool,
    m: EmailMessage,
)
    requires
        call_ensures(send_test_email, (req, sent), r),
        to@ == req.to@,
        call_ensures(is_email_like, (to,), like),
        call_ensures(test_message, (to, None), m),
    ensures
        like <==> to@.contains('@') && to@.contains('.'),
        !like ==> r.http_status == 400 && r.response is None,
        like && sent is Ok ==> r.http_status == 200 && r.error_code is None && r.response is Some
            && r.response->0.success,
        like && sent == Err::<(), SmtpCategory>(SmtpCategory::NotConfigured) ==> r.http_status == 412
            && r.response is None,
        like && sent == Err::<(), SmtpCategory>(SmtpCategory::Other) ==> r.http_status == 503
            && r.response is None,
        m.to@ == to@,
{
}

/// An invitation goes to whom it is for, is about the reference that was made for it, and lasts as many
/// days as were asked for, thirty by default.
pub proof fn law_invitations(
    req: InviteCommunityRequest,
    node: &str,
    name: &str,
    ref_id: String,
    ref_text: &str,
    url: String,
    now: Timestamp,
    reference: NewRef,
    action: CreateAction,
    r: InviteCommunityResponse,
)
    requires
        0 <= now.0 < 0x1000_0000_0000,
        ref_text@ == ref_id@,
        call_ensures(invitation_ref, (node, now, req.expires_in_days), reference),
        call_ensures(invitation_action, (&req, ref_text, name, now), action),
        call_ensures(post_invite_community, (req, ref_id, url, now), r),
    ensures
        ({
            let days = if req.expires_in_days is Some {
                req.expires_in_days->0 as int
            } else {
                30
            };
            &&& reference.expires_at.0 == now.0 + days * 86400
            &&& reference.id_tag@ == node@ && reference.typ@ == "profile.invite"@
            &&& action.expires_at is Some && (action.expires_at->0).0 == now.0 + days * 86400
            &&& action.typ@ == "PRINVT"@ && action.audience_tag.deep_view() == Some(
                req.target_id_tag@,
            )
            &&& action.content is Some && action.content->0@ is Object
            &&& action.content->0@->Object_0.contains(("refId"@, JsonView::Text(ref_id@)))
            &&& action.content->0@->Object_0.contains(("nodeName"@, JsonView::Text(name@)))
            &&& req.message is Some ==> action.content->0@->Object_0.contains(
                ("message"@, JsonView::Text(req.message->0@)),
            )
            &&& r.ref_id@ == ref_id@ && r.invite_url@ == url@
            &&& r.target_id_tag@ == req.target_id_tag@
            &&& r.expires_at is Some && r.expires_at->0 == now.0 + days * 86400
        }),
{
    let v = reference.deep_view();
    assert(v.expires_at == reference.expires_at && v.id_tag == reference.id_tag@);
    assert(v.typ == reference.typ@);
    let o = action.content->0@->Object_0;
    assert(o[0].0 == "refId"@ && o[1].0 == "nodeName"@ && o[2].0 == "message"@);
    if req.message is Some {
        assert(req.message.deep_view() == Some(req.message->0@));
    }
}

/// Tenants are listed in the order of their accounts, each with what is on record of it: its account, and
/// its profile where there is one.
pub proof fn law_tenants_are_listed(
    auths: &Vec<AuthTenant>,
    metas: &Vec<MetaTenant>,
    r: Vec<TenantView>,
    i: int,
    k: int,
)
    requires
        call_ensures(list_tenants, (auths, metas), r),
        0 <= i < auths@.len(),
    ensures
        r@.len() == auths@.len(),
        r@[i].tn_id == auths@[i].tn_id.0 && r@[i].id_tag@ == auths@[i].id_tag@,
        r@[i].email.deep_view() == auths@[i].email.deep_view(),
        r@[i].status.deep_view() == auths@[i].status.deep_view(),
        r@[i].roles.deep_view() == auths@[i].roles.deep_view(),
        (0 <= k < metas@.len() && metas@[k].tn_id == auths@[i].tn_id && forall|j: int|
            k < j < metas@.len() ==> (#[trigger] metas@[j]).tn_id != auths@[i].tn_id) ==> r@[i].name@
            == metas@[k].name@ && r@[i].typ == metas@[k].typ && r@[i].profile_pic.deep_view()
            == metas@[k].profile_pic.deep_view() && (metas@[k].created_at.0 > 0 ==> r@[i].created_at
            == metas@[k].created_at.0),
        (forall|j: int| 0 <= j < metas@.len() ==> (#[trigger] metas@[j]).tn_id != auths@[i].tn_id)
            ==> r@[i].name@ == auths@[i].id_tag@ && r@[i].typ == ProfileType::Person
            && r@[i].profile_pic is None && r@[i].created_at == auths@[i].created_at.0,
{
    assert(tenant::combines(r@[i], auths@[i], tenant::profile_of(metas@, auths@[i].tn_id)));
    lemma_profile_of(metas@, auths@[i].tn_id, k);
    assert(r@[i].profile_pic.deep_view() is None <==> r@[i].profile_pic is None);
}

proof fn lemma_profile_of(metas: Seq<MetaTenant>, tn_id: TnId, k: int)
    ensures
        (0 <= k < metas.len() && metas[k].tn_id == tn_id && forall|j: int|
            k < j < metas.len() ==> (#[trigger] metas[j]).tn_id != tn_id) ==> tenant::profile_of(
            metas,
            tn_id,
        ) == Some(metas[k]),
        (forall|j: int| 0 <= j < metas.len() ==> (#[trigger] metas[j]).tn_id != tn_id)
            ==> tenant::profile_of(metas, tn_id) is None,
    decreases metas.len(),
{
    if metas.len() > 0 {
        let rest = metas.drop_last();
        lemma_profile_of(rest, tn_id, k);
        if forall|j: int| 0 <= j < metas.len() ==> (#[trigger] metas[j]).tn_id != tn_id {
            assert(metas[metas.len() - 1].tn_id != tn_id);
            assert forall|j: int| 0 <= j < rest.len() implies (#[trigger] rest[j]).tn_id != tn_id by {
                assert(metas[j].tn_id != tn_id);
            }
        }
        if 0 <= k < metas.len() && metas[k].tn_id == tn_id && forall|j: int|
            k < j < metas.len() ==> (#[trigger] metas[j]).tn_id != tn_id {
            if k < metas.len() - 1 {
                assert(metas[metas.len() - 1].tn_id != tn_id);
                assert(rest[k] == metas[k]);
                assert forall|j: int| k < j < rest.len() implies (#[trigger] rest[j]).tn_id
                    != tn_id by {
                    assert(metas[j].tn_id != tn_id);
                }
            }
        }
    }
}

/// A page begins where it was asked to and is as long as was asked for; without a length it goes to the
/// end.
pub proof fn law_pages_of_tenants(q: &ListTenantsQuery, total: usize, r: (usize, usize))
    requires
        call_ensures(page_of, (q, total), r),
    ensures
        q.offset is Some ==> r.0 == q.offset->0,
        q.offset is None ==> r.0 == 0,
        q.limit is Some ==> r.1 == q.limit->0,
        q.limit is None ==> r.1 == total,
{
}

/// A reset that an administrator orders goes to the address on record of the account with that identity,
/// with a reference of that account that is good for a day; without such an account or address it is
/// refused.
pub proof fn law_resets_by_an_administrator(
    tn_id: TnId,
    id_tag: &str,
    auths: &Vec<AuthTenant>,
    node: Option<&str>,
    now: i64,
    r: Result<AdminReset, Error>,
    i: int,
)
    requires
        0 <= now < 0x1000_0000_0000,
        call_ensures(send_password_reset, (tn_id, id_tag, auths, node, now), r),
        0 <= i < auths@.len(),
        auths@[i].id_tag@ == id_tag@,
        forall|k: int| 0 <= k < i ==> (#[trigger] auths@[k]).id_tag@ != id_tag@,
    ensures
        r is Ok <==> auths@[i].email is Some,
        r matches Ok(x) ==> x.to@ == auths@[i].email->0@ && x.reference.id_tag@ == id_tag@
            && x.reference.expires_at.0 == now + 24 * 3600 && x.reference.typ@ == "password"@,
{
    assert(tenant::first_with(auths@, id_tag@, i));
    if let Ok(x) = r {
        let v = x.reference.deep_view();
        assert(v.id_tag == x.reference.id_tag@ && v.typ == x.reference.typ@);
        assert(v.expires_at == x.reference.expires_at);
    }
}

/// The mail of such a reset goes where the reset goes and carries the link that was made.
pub proof fn law_mails_of_an_administrator(
    reset: &AdminReset,
    user: &str,
    node: Option<&str>,
    link: &str,
    r: Mail,
)
    requires
        call_ensures(reset_mail, (reset, user, node, link), r),
    ensures
        r.to@ == reset.to@ && r.key@ == reset.mail_key@ && r.sender_name@ == reset.sender_name@,
        r.vars@ is Object && r.vars@->Object_0.contains(("reset_link"@, JsonView::Text(link@))),
        r.vars@->Object_0.contains(("identity_tag"@, JsonView::Text(user@))),
{
    let v = r.deep_view();
    assert(v.to == r.to@ && v.key == r.key@ && v.sender_name == r.sender_name@);
    assert(v.vars == r.vars@);
    assert(r.vars@->Object_0[3] == ("reset_link"@, JsonView::Text(link@)));
    assert(r.vars@->Object_0[0] == ("identity_tag"@, JsonView::Text(user@)));
}

/// A tenant is removed exactly where the removal is confirmed and it is neither the administrator's own nor
/// the base tenant.
pub proof fn law_removals(
    auth: &AuthCtx,
    id_tag: &str,
    body: &PurgeTenantBody,
    tn_id: Result<TnId, Error>,
    r: Result<TnId, Error>,
)
    requires
        call_ensures(purge_tenant_handler, (auth, id_tag, body, tn_id), r),
    ensures
        r is Ok <==> body.confirm_id_tag@ == id_tag@ && auth.id_tag@ != id_tag@ && tn_id is Ok
            && tn_id->Ok_0.0 != 1,
        r is Ok ==> r->Ok_0 == tn_id->Ok_0,
{
}

/// A removal marks the tenant first, then takes blobs, documents, databases, the profile and at last the
/// account; a failure ends it.
pub proof fn law_steps_of_a_removal(
    start: PurgeRun,
    step: PurgeStep,
    ok: PurgeRun,
    e: Error,
    failed: PurgeRun,
)
    requires
        call_ensures(purge_tenant, (), start),
        call_ensures(purge_advance, (step, Ok(())), ok),
        call_ensures(purge_advance, (step, Err(e)), failed),
    ensures
        start == PurgeRun::Next(PurgeStep::MarkDeleted),
        failed == PurgeRun::Failed(e),
        step == PurgeStep::MarkDeleted ==> ok == PurgeRun::Next(PurgeStep::Blobs),
        step == PurgeStep::Blobs ==> ok == PurgeRun::Next(PurgeStep::Documents),
        step == PurgeStep::Documents ==> ok == PurgeRun::Next(PurgeStep::Databases),
        step == PurgeStep::Databases ==> ok == PurgeRun::Next(PurgeStep::Profile),
        step == PurgeStep::Profile ==> ok == PurgeRun::Next(PurgeStep::Account),
        step == PurgeStep::Account ==> ok is Done,
{
}

} // verus!
