//! What signing in, passwords and their resets, and sessions on a second device come to.
use crate::auth::cleanup::{AuthCleanupTask, CleanupStep};
use crate::auth::handler::{
    self, check_password_strength, get_login_token, normalized_email, onboarding_gate,
    plan_reset, post_complete_onboarding, post_forgot_password, post_login, post_login_init,
    post_logout, post_password, post_set_password, reference_error, return_login, AuthLogin, ForgotPasswordReq,
    Login, LoginStart, Onboarding, PasswordRef, PasswordReq, RefKind, ResetEvent,
    ResetPlan, ResetStep, ResetStepView, SetPasswordReq, TenantEntry, TenantProfile,
};
use crate::auth::qr_login::{
    self, respond_status, status_response, DetailsResponse, QrLoginStatus, QrLoginStore,
    Resolution, ResolutionView, RespondRequest, SessionOrigin, SessionView, StatusResponse,
};
use crate::auth::secrets;
use crate::text;
use crate::types::{AuthCtx, Error, Timestamp, TnId};
use vstd::prelude::*;

verus! {

// ---------------------------------------------------------------------------------------------
// Signing in and out
// ---------------------------------------------------------------------------------------------

/// Who signed in gets the session that was opened for them, with the name and the picture of the
/// tenant, or its identity where there is no profile.
pub proof fn law_logins_carry_their_session(
    auth: AuthLogin,
    tenant: Option<TenantProfile>,
    r: Login,
)
    requires
        call_ensures(return_login, (auth, tenant), r),
    ensures
        r.tn_id == auth.tn_id && r.id_tag@ == auth.id_tag@ && r.token@ == auth.token@,
        r.roles.deep_view() == auth.roles.deep_view(),
        tenant is Some ==> r.name@ == tenant->0.name@,
        tenant is None ==> r.name@ == auth.id_tag@ && r.profile_pic@.len() == 0,
        tenant is Some && tenant->0.profile_pic is Some ==> r.profile_pic@
            == tenant->0.profile_pic->0@,
        tenant is Some && tenant->0.profile_pic is None ==> r.profile_pic@.len() == 0,
        r.settings@.len() == 0,
{
    reveal_strlit("");
    assert(r@.tn_id == r.tn_id);
    assert(r@.settings.len() == r.settings@.len());
}

/// A copy of a sign-in is the same sign-in.
pub proof fn law_copies_of_logins(l: &Login, r: Login)
    requires
        call_ensures(Login::duplicate, (l,), r),
    ensures
        r.tn_id == l.tn_id && r.id_tag@ == l.id_tag@ && r.token@ == l.token@ && r.name@ == l.name@,
        r.roles.deep_view() == l.roles.deep_view() && r.profile_pic@ == l.profile_pic@,
{
    assert(r@.tn_id == l@.tn_id && r@.id_tag == l@.id_tag && r@.token == l@.token);
    assert(r@.name == l@.name && r@.roles == l@.roles && r@.profile_pic == l@.profile_pic);
}

/// A right password opens the session of its account, a wrong one is denied. A session is renewed for
/// who has an unrestricted one; a restricted credential is denied, and who has none gets none.
pub proof fn law_who_gets_a_session(
    checked: Option<AuthLogin>,
    p: Result<AuthLogin, Error>,
    auth: Option<&AuthCtx>,
    opened: Option<AuthLogin>,
    t: Result<Option<AuthLogin>, Error>,
    s: Result<LoginStart, Error>,
)
    requires
        call_ensures(post_login, (checked,), p),
        call_ensures(get_login_token, (auth, opened), t),
        call_ensures(post_login_init, (auth,), s),
    ensures
        checked is Some ==> p is Ok && p->Ok_0 == checked->0,
        checked is None ==> p is Err && p->Err_0 is PermissionDenied,
        auth is None ==> t is Ok && t->Ok_0 is None && s == Ok::<LoginStart, Error>(
            LoginStart::Offer,
        ),
        auth is Some && auth->0.scope is Some ==> t is Err && t->Err_0 is PermissionDenied && s is Err
            && s->Err_0 is PermissionDenied,
        auth is Some && auth->0.scope is None && opened is Some ==> t is Ok && t->Ok_0 == opened,
        auth is Some && auth->0.scope is None && opened is None ==> t is Err,
        auth is Some && auth->0.scope is None ==> s == Ok::<LoginStart, Error>(LoginStart::Renew),
{
}

/// To sign out deletes the key that was presented, and never one of another tenant.
pub proof fn law_signing_out(tn_id: TnId, key: Option<(TnId, i64)>, r: Option<i64>)
    requires
        call_ensures(post_logout, (tn_id, key), r),
    ensures
        r is Some ==> key is Some && (key->0).0 == tn_id && r->0 == (key->0).1,
        key is Some && (key->0).0 == tn_id ==> r is Some,
{
}

// ---------------------------------------------------------------------------------------------
// Passwords
// ---------------------------------------------------------------------------------------------

/// A password is admitted exactly where it holds something besides white space and has eight bytes at
/// least.
pub proof fn law_strong_passwords(password: &str, r: Result<(), Error>)
    requires
        call_ensures(check_password_strength, (password,), r),
    ensures
        r is Ok <==> text::trimmed(password@).len() > 0 && text::byte_length(password@) >= 8,
        r is Err ==> r->Err_0 is ValidationError,
{
}

/// A password is changed exactly where the new one is admitted and another one and the current one was
/// right.
pub proof fn law_changed_passwords(
    req: &PasswordReq,
    verified: bool,
    r: Result<(), Error>,
    password: &str,
    strong: Result<(), Error>,
)
    requires
        call_ensures(post_password, (req, verified), r),
        password@ == req.new_password@,
        call_ensures(check_password_strength, (password,), strong),
    ensures
        r is Ok <==> strong is Ok && req.new_password@ != req.current_password@ && verified,
        strong is Ok && req.new_password@ != req.current_password@ && !verified ==> r->Err_0
            is PermissionDenied,
{
}

/// A reference sets a password exactly where the password is admitted, the reference is valid and of the
/// tenant that is asked, and the account is activated. Only one for a password is used up by it.
pub proof fn law_passwords_by_reference(
    req: &SetPasswordReq,
    reference: Result<PasswordRef, Error>,
    host: &str,
    setting: Result<Option<String>, Error>,
    gate: Onboarding,
    r: Result<bool, Error>,
    password: &str,
    strong: Result<(), Error>,
)
    requires
        call_ensures(onboarding_gate, (setting,), gate),
        call_ensures(post_set_password, (req, reference, host, gate), r),
        password@ == req.new_password@,
        call_ensures(check_password_strength, (password,), strong),
    ensures
        r is Ok <==> strong is Ok && reference is Ok && reference->Ok_0.id_tag@ == host@ && setting is Ok
            && !(setting->Ok_0 is Some && setting->Ok_0->0@ == "verify-idp"@),
        r is Ok ==> (r->Ok_0 <==> reference->Ok_0.kind == RefKind::Password),
        strong is Ok && reference is Ok && reference->Ok_0.id_tag@ != host@ ==> r->Err_0
            is PermissionDenied,
{
    if setting is Ok {
        assert(setting->Ok_0.deep_view() is Some <==> setting->Ok_0 is Some);
        if setting->Ok_0 is Some {
            assert(setting->Ok_0.deep_view() == Some(setting->Ok_0->0@));
        }
    }
}

/// Onboarding ends with the welcome of the tenant itself; one that is gone already does not matter, and
/// one of another tenant is denied.
pub proof fn law_end_of_onboarding(tn_id: TnId, reference: Result<TnId, Error>, r: Result<bool, Error>)
    requires
        call_ensures(post_complete_onboarding, (tn_id, reference), r),
    ensures
        reference is Ok && reference->Ok_0 == tn_id ==> r == Ok::<bool, Error>(true),
        reference is Ok && reference->Ok_0 != tn_id ==> r is Err && r->Err_0 is PermissionDenied,
        reference is Err && (reference->Err_0 is NotFound || reference->Err_0 is ValidationError)
            ==> r == Ok::<bool, Error>(false),
        reference is Err && reference->Err_0 is DbError ==> r is Err && r->Err_0 is DbError,
{
}

/// A reset is admitted where fewer than three were made in the last hour and fewer than five in the
/// last day: without earlier ones always, and what lies further back does not count.
pub proof fn law_admitted_resets(earlier: Seq<i64>, more: Seq<i64>, now: i64)
    ensures
        earlier.len() < 3 ==> handler::reset_admitted(earlier, now),
        (forall|i: int| 0 <= i < earlier.len() ==> earlier[i] <= now - 86400)
            ==> handler::reset_admitted(earlier, now),
        handler::count_after(earlier + more, now - 3600) == handler::count_after(earlier, now - 3600)
            + handler::count_after(more, now - 3600),
        handler::count_after(earlier + more, now - 86400) == handler::count_after(
            earlier,
            now - 86400,
        ) + handler::count_after(more, now - 86400),
        (more.len() == 3 && forall|i: int| 0 <= i < 3 ==> more[i] > now - 3600)
            ==> !handler::reset_admitted(earlier + more, now),
        (more.len() == 5 && forall|i: int| 0 <= i < 5 ==> more[i] > now - 86400)
            ==> !handler::reset_admitted(earlier + more, now),
{
    lemma_count_bound(earlier, now - 3600);
    lemma_count_bound(earlier, now - 86400);
    lemma_count_adds(earlier, more, now - 3600);
    lemma_count_adds(earlier, more, now - 86400);
    if forall|i: int| 0 <= i < earlier.len() ==> earlier[i] <= now - 86400 {
        lemma_count_none(earlier, now - 3600);
        lemma_count_none(earlier, now - 86400);
    }
    if more.len() == 3 && forall|i: int| 0 <= i < 3 ==> more[i] > now - 3600 {
        lemma_count_all(more, now - 3600);
    }
    if more.len() == 5 && forall|i: int| 0 <= i < 5 ==> more[i] > now - 86400 {
        lemma_count_all(more, now - 86400);
    }
}

proof fn lemma_count_bound(times: Seq<i64>, t: int)
    ensures
        handler::count_after(times, t) <= times.len(),
    decreases times.len(),
{
    if times.len() > 0 {
        lemma_count_bound(times.drop_last(), t);
    }
}

proof fn lemma_count_none(times: Seq<i64>, t: int)
    requires
        forall|i: int| 0 <= i < times.len() ==> times[i] <= t,
    ensures
        handler::count_after(times, t) == 0,
    decreases times.len(),
{
    if times.len() > 0 {
        lemma_count_none(times.drop_last(), t);
    }
}

proof fn lemma_count_all(times: Seq<i64>, t: int)
    requires
        forall|i: int| 0 <= i < times.len() ==> times[i] > t,
    ensures
        handler::count_after(times, t) == times.len(),
    decreases times.len(),
{
    if times.len() > 0 {
        lemma_count_all(times.drop_last(), t);
    }
}

proof fn lemma_count_adds(a: Seq<i64>, b: Seq<i64>, t: int)
    ensures
        handler::count_after(a + b, t) == handler::count_after(a, t) + handler::count_after(b, t),
    decreases b.len(),
{
    if b.len() == 0 {
        assert(a + b =~= a);
    } else {
        assert((a + b).drop_last() =~= a + b.drop_last());
        lemma_count_adds(a, b.drop_last(), t);
    }
}

/// A reset that is admitted makes a reference for the account that is good for a day, and addresses its
/// user by name, or by identity where there is no name.
pub proof fn law_planned_resets(
    tn_id: TnId,
    id_tag: &str,
    name: Option<&str>,
    earlier: &Vec<i64>,
    now: i64,
    r: Option<ResetPlan>,
)
    requires
        0 <= now < 0x1000_0000_0000,
        call_ensures(plan_reset, (tn_id, id_tag, name, earlier, now), r),
    ensures
        r is Some <==> handler::reset_admitted(earlier@, now),
        r matches Some(p) ==> {
            &&& p.reference.id_tag@ == id_tag@ && p.reference.typ@ == "password"@
            &&& p.reference.expires_at.0 == now + 24 * 3600
            &&& p.reference.path_prefix@ == "/reset-password"@
            &&& name is Some ==> p.user_name@ == name->0@
            &&& name is None ==> p.user_name@ == id_tag@
        },
{
    assert(r.deep_view() is Some <==> r is Some);
    if name is Some {
        assert(name.deep_view() == Some(name->0@));
    }
    if r is Some {
        assert(r.deep_view() == Some(r->0.deep_view()));
        assert(r->0.deep_view().reference == r->0.reference.deep_view());
    }
}

/// A request for a reset goes on only with what can be a mail address and at a known host; it looks for
/// an account of that host with that address, and its mail goes to that address and to no other.
pub proof fn law_reset_mails_go_to_the_account(
    req: &ForgotPasswordReq,
    host: &str,
    r: ResetStep,
    raw: &str,
    email: String,
    tenants: Vec<TenantEntry>,
)
    requires
        call_ensures(post_forgot_password, (req, Some(host)), r),
        raw@ == req.email@,
        call_ensures(normalized_email, (raw,), email),
    ensures
        email@.contains('@') && text::byte_length(email@) >= 5 ==> (r matches ResetStep::Tenants {
            email: e,
            host: h,
        } && e@ == email@ && h@ == host@),
        !email@.contains('@') || text::byte_length(email@) < 5 ==> r is Answer,
        (handler::next_reset_step(
            ResetStepView::Tenants { email: email@, host: host@ },
            ResetEvent::Tenants(Ok(tenants)),
        ) matches ResetStepView::Account(a) ==> a.email == email@ && a.id_tag == host@ && exists|
            i: int,
        |
            0 <= i < tenants@.len() && (#[trigger] tenants@[i]).tn_id == a.tn_id
                && tenants@[i].id_tag@ == host@ && tenants@[i].email.deep_view() == Some(email@)),
        (forall|i: int|
            0 <= i < tenants@.len() ==> !((#[trigger] tenants@[i]).id_tag@ == host@
                && tenants@[i].email.deep_view() == Some(email@))) ==> handler::next_reset_step(
            ResetStepView::Tenants { email: email@, host: host@ },
            ResetEvent::Tenants(Ok(tenants)),
        ) is Answer,
{
    assert(Some(host).deep_view() == Some(host@));
    lemma_account_in(tenants@, host@, email@);
    match r {
        ResetStep::Tenants { email: e, host: h } => {
            assert(r.deep_view() == ResetStepView::Tenants { email: e@, host: h@ });
        },
        _ => {},
    }
}

proof fn lemma_account_in(tenants: Seq<TenantEntry>, host: Seq<char>, email: Seq<char>)
    ensures
        handler::account_in(tenants, host, email) matches Some(a) ==> a.email == email && a.id_tag
            == host && exists|i: int|
            0 <= i < tenants.len() && (#[trigger] tenants[i]).tn_id == a.tn_id && tenants[i].id_tag@
                == host && tenants[i].email.deep_view() == Some(email),
        (forall|i: int|
            0 <= i < tenants.len() ==> !((#[trigger] tenants[i]).id_tag@ == host
                && tenants[i].email.deep_view() == Some(email))) ==> handler::account_in(
            tenants,
            host,
            email,
        ) is None,
    decreases tenants.len(),
{
    if tenants.len() > 0 {
        let rest = tenants.drop_first();
        lemma_account_in(rest, host, email);
        if handler::is_account(tenants[0], host, email) {
            assert(tenants[0].id_tag@ == host);
        } else {
            if let Some(a) = handler::account_in(rest, host, email) {
                let i = choose|i: int|
                    0 <= i < rest.len() && (#[trigger] rest[i]).tn_id == a.tn_id && rest[i].id_tag@
                        == host && rest[i].email.deep_view() == Some(email);
                assert(tenants[i + 1] == rest[i]);
            }
            assert forall|i: int| 0 <= i < rest.len() implies rest[i] == #[trigger] tenants[i + 1] by {}
            if forall|i: int|
                0 <= i < tenants.len() ==> !((#[trigger] tenants[i]).id_tag@ == host
                    && tenants[i].email.deep_view() == Some(email)) {
                assert forall|i: int| 0 <= i < rest.len() implies !((#[trigger] rest[i]).id_tag@
                    == host && rest[i].email.deep_view() == Some(email)) by {
                    assert(tenants[i + 1] == rest[i]);
                }
            }
        }
    }
}

/// The mail of a reset goes to the address of the account and carries the link that was made.
pub proof fn law_reset_mails_carry_their_link(
    account: handler::ResetAccountView,
    plan: handler::ResetPlanView,
    link: String,
)
    ensures
        handler::next_reset_step(
            ResetStepView::Reference { account, plan },
            ResetEvent::Reference(Ok(link)),
        ) matches ResetStepView::Mail { tn_id, mail } && tn_id == account.tn_id && mail.to
            == account.email && mail.key == plan.mail_key && mail.vars is Object
            && mail.vars->Object_0.contains(("reset_link"@, crate::json::JsonView::Text(link@)))
            && mail.vars->Object_0.contains(
            ("identity_tag"@, crate::json::JsonView::Text(plan.user_name)),
        ),
{
    let m = handler::reset_mail(account, plan, link@);
    assert(m.vars->Object_0[3] == ("reset_link"@, crate::json::JsonView::Text(link@)));
    assert(m.vars->Object_0[0] == ("identity_tag"@, crate::json::JsonView::Text(plan.user_name)));
}

// ---------------------------------------------------------------------------------------------
// A second device
// ---------------------------------------------------------------------------------------------

/// A session that is opened waits for an answer for five minutes, belongs to the tenant at which it was
/// opened, and is proved by its secret.
pub proof fn law_opened_sessions(
    m: Map<Seq<char>, SessionView>,
    id: Seq<char>,
    origin: SessionOrigin,
    secret: &str,
    store: &QrLoginStore,
    now: u64,
    later: u64,
    session: &str,
    proved: Result<(), Error>,
    details: Result<DetailsResponse, Error>,
    tn_id: TnId,
    answerable: Result<(), Error>,
)
    requires
        now < 0x1000_0000_0000_0000,
        store@ == m.insert(id, qr_login::opened(origin, secret@, now)),
        session@ == id,
        call_ensures(QrLoginStore::verify_secret, (store, session, secret), proved),
        call_ensures(QrLoginStore::get_details, (store, session, tn_id, later), details),
        call_ensures(QrLoginStore::check_response, (store, session, tn_id, later), answerable),
    ensures
        proved is Ok,
        qr_login::outcome_of(store@, id, later) is Pending <==> later < now + 300_000,
        qr_login::outcome_of(store@, id, later) is Expired <==> later >= now + 300_000,
        details is Ok <==> later < now + 300_000 && tn_id == origin.tn_id,
        details is Ok ==> details->Ok_0.user_agent.deep_view() == origin.user_agent.deep_view()
            && details->Ok_0.ip_address.deep_view() == origin.ip_address.deep_view(),
        answerable is Ok <==> later < now + 300_000 && tn_id == origin.tn_id,
        later < now + 300_000 && tn_id != origin.tn_id ==> answerable is Err && answerable->Err_0
            is PermissionDenied,
{
}

/// A secret proves a session only where its digest is that of the session.
pub proof fn law_secrets_prove_sessions(
    store: &QrLoginStore,
    session: &str,
    secret: &str,
    r: Result<(), Error>,
)
    requires
        call_ensures(QrLoginStore::verify_secret, (store, session, secret), r),
    ensures
        r is Ok ==> store@.dom().contains(session@) && store@[session@].secret_hash
            == secrets::secret_digest(secret@),
        !store@.dom().contains(session@) ==> r is Err && r->Err_0 is NotFound,
{
}

/// How long a client waits: as long as it asks, fifteen seconds by default, thirty at most, and never
/// beyond the life of the session.
pub proof fn law_waits(
    store: &QrLoginStore,
    session: &str,
    secs: Option<u64>,
    now: u64,
    r: u64,
)
    requires
        call_ensures(QrLoginStore::wait_ms, (store, session, secs, now), r),
    ensures
        r <= 30_000,
        !store@.dom().contains(session@) ==> r == 0,
        store@.dom().contains(session@) && store@[session@].expires_at > now ==> r
            <= store@[session@].expires_at - now,
        store@.dom().contains(session@) && store@[session@].expires_at <= now ==> r == 0,
        (store@.dom().contains(session@) && store@[session@].expires_at > now + 30_000) ==> r == (
        if secs is None {
            15_000
        } else if secs->0 < 30 {
            secs->0 * 1000
        } else {
            30_000
        }),
{
}

/// What a client is told of its session is its outcome, and the sign-in only where it was approved.
pub proof fn law_outcomes_are_told(outcome: Resolution, r: StatusResponse)
    requires
        call_ensures(status_response, (outcome,), r),
    ensures
        outcome is Expired ==> r.status@ == "expired"@ && r.login is None,
        outcome is Denied ==> r.status@ == "denied"@ && r.login is None,
        outcome is Pending ==> r.status@ == "pending"@ && r.login is None,
        (outcome matches Resolution::Approved(l) && l is Some) ==> r.status@ == "approved"@
            && r.login is Some && r.login->0@ == outcome->Approved_0->0@,
{
    assert(qr_login::opt_login(r.login) is None <==> r.login is None);
}

/// The answer of a device is confirmed as it was given.
pub proof fn law_answers_are_confirmed(req: RespondRequest, r: StatusResponse)
    requires
        call_ensures(respond_status, (req,), r),
    ensures
        req.approved ==> r.status@ == "approved"@,
        !req.approved ==> r.status@ == "denied"@,
        r.login is None,
{
}

/// A session that is denied, or that was approved, is over: it tells its outcome once, and the other
/// sessions stay as they are.
pub proof fn law_collected_sessions(
    m: Map<Seq<char>, SessionView>,
    id: Seq<char>,
    other: Seq<char>,
    now: u64,
)
    requires
        m.dom().contains(id),
        m[id].expires_at > now,
        other != id,
    ensures
        m[id].status == QrLoginStatus::Denied ==> qr_login::outcome_of(m, id, now) is Denied,
        m[id].status == QrLoginStatus::Approved ==> qr_login::outcome_of(m, id, now)
            == ResolutionView::Approved(m[id].login_data),
        m[id].status == QrLoginStatus::Pending ==> qr_login::outcome_of(m, id, now) is Pending
            && qr_login::collected(m, id, now) == m,
        m[id].status != QrLoginStatus::Pending ==> !qr_login::collected(m, id, now).dom().contains(
            id,
        ),
        m.dom().contains(other) ==> qr_login::collected(m, id, now).dom().contains(other)
            && qr_login::collected(m, id, now)[other] == m[other],
{
}

/// Expired sessions go, live ones stay as they are.
pub proof fn law_expired_sessions_go(m: Map<Seq<char>, SessionView>, id: Seq<char>, now: u64)
    requires
        m.dom().contains(id),
    ensures
        qr_login::live_sessions(m, now).dom().contains(id) <==> now < m[id].expires_at,
        now < m[id].expires_at ==> qr_login::live_sessions(m, now)[id] == m[id],
        now < m[id].expires_at ==> qr_login::room_made(m, now).dom().contains(id),
        m.dom().len() < 10_000 ==> qr_login::room_made(m, now) == m,
{
}

// ---------------------------------------------------------------------------------------------
// Removal of what has expired
// ---------------------------------------------------------------------------------------------

/// The regular removal takes every step, and related actions are given up after a week.
pub proof fn law_cleanup(now: Timestamp, r: Vec<CleanupStep>)
    requires
        call_ensures(AuthCleanupTask::steps, (now,), r),
        0 <= now.0,
    ensures
        r@.len() == 4,
        r@.contains(CleanupStep::ApiKeys),
        r@.contains(CleanupStep::VerificationCodes),
        r@.contains(CleanupStep::QrSessions),
        r@.contains(CleanupStep::OrphanedActions(Timestamp((now.0 - 7 * 86400) as i64))),
{
    assert(r@[0] == CleanupStep::ApiKeys);
    assert(r@[1] == CleanupStep::VerificationCodes);
    assert(r@[2] == CleanupStep::OrphanedActions(Timestamp((now.0 - 7 * 86400) as i64)));
    assert(r@[3] == CleanupStep::QrSessions);
}

/// A reference that is not there is invalid or expired; one with a fault says which.
pub proof fn law_faults_of_references(e: Error, r: Error)
    requires
        call_ensures(reference_error, (e,), r),
    ensures
        r is ValidationError,
        e matches Error::ValidationError(m) ==> r->ValidationError_0@ == m@,
        e is NotFound ==> r->ValidationError_0@ == "Invalid or expired reference"@,
        !(e is NotFound || e is ValidationError) ==> r->ValidationError_0@ == "Invalid reference"@,
{
}

/// A session that was denied is told as denied, keeps to its tenant and its time, and no other session changes;
/// the same goes for one that was approved, which is told with the sign-in that it was approved with.
pub proof fn law_answered_sessions(
    m: Map<Seq<char>, SessionView>,
    id: Seq<char>,
    other: Seq<char>,
    login: handler::LoginView,
    now: u64,
)
    requires
        m.dom().contains(id),
        m[id].expires_at > now,
        other != id,
    ensures
        ({
            let n = qr_login::denied(m, id);
            let y = qr_login::approved(m, id, login);
            &&& qr_login::outcome_of(n, id, now) is Denied
            &&& qr_login::outcome_of(y, id, now) == ResolutionView::Approved(Some(login))
            &&& qr_login::outcome_of(n, other, now) == qr_login::outcome_of(m, other, now)
            &&& qr_login::outcome_of(y, other, now) == qr_login::outcome_of(m, other, now)
            &&& n[id].tn_id == m[id].tn_id && n[id].expires_at == m[id].expires_at
            &&& y[id].tn_id == m[id].tn_id && y[id].expires_at == m[id].expires_at
            &&& n[id].secret_hash == m[id].secret_hash && y[id].secret_hash == m[id].secret_hash
        }),
{
}

} // verus!
