//! Tenants: listing them, resetting their passwords, and removing them for good.
use crate::mail::{self, Mail, MailView, NewRef};
use crate::text;
use crate::types::{AuthCtx, Error, ErrorView, Timestamp, TnId};
use vstd::prelude::*;

verus! {

#[derive(Debug, Clone, Copy, PartialEq, Eq, Structural)]
pub enum ProfileType {
    Person,
    Community,
}

/// A tenant as it is listed.
#[derive(Debug)]
pub struct TenantView {
    pub tn_id: u32,
    pub id_tag: String,
    pub name: String,
    pub typ: ProfileType,
    pub email: Option<String>,
    pub status: Option<String>,
    pub roles: Option<Vec<String>>,
    pub profile_pic: Option<String>,
    pub created_at: i64,
}

#[derive(Debug)]
pub struct ListTenantsQuery {
    pub status: Option<String>,
    pub q: Option<String>,
    pub limit: Option<u32>,
    pub offset: Option<u32>,
}

impl Default for ListTenantsQuery {
    fn default() -> (r: Self)
        ensures
            r.status is None && r.q is None && r.limit is None && r.offset is None,
    {
        ListTenantsQuery { status: None, q: None, limit: None, offset: None }
    }
}

#[derive(Debug)]
pub struct PasswordResetResponse {
    pub message: String,
}

/// What the account database knows of a tenant.
#[derive(Debug)]
pub struct AuthTenant {
    pub tn_id: TnId,
    pub id_tag: String,
    pub email: Option<String>,
    pub status: Option<String>,
    pub roles: Option<Vec<String>>,
    pub created_at: Timestamp,
}

/// What the profile database knows of a tenant.
#[derive(Debug)]
pub struct MetaTenant {
    pub tn_id: TnId,
    pub name: String,
    pub typ: ProfileType,
    pub profile_pic: Option<String>,
    pub created_at: Timestamp,
}

/// The profile of a tenant: of several for one tenant, the last.
pub open spec fn profile_of(metas: Seq<MetaTenant>, tn_id: TnId) -> Option<MetaTenant>
    decreases metas.len(),
{
    if metas.len() == 0 {
        None
    } else if metas.last().tn_id == tn_id {
        Some(metas.last())
    } else {
        profile_of(metas.drop_last(), tn_id)
    }
}

fn find_profile<'a>(metas: &'a Vec<MetaTenant>, tn_id: TnId) -> (r: Option<&'a MetaTenant>)
    ensures
        match r {
            Some(m) => profile_of(metas@, tn_id) == Some(*m),
            None => profile_of(metas@, tn_id) is None,
        },
{
    let mut i: usize = metas.len();
    assert(metas@.take(i as int) =~= metas@);
    while i > 0
        invariant
            i <= metas@.len(),
            profile_of(metas@, tn_id) == profile_of(metas@.take(i as int), tn_id),
        decreases i,
    {
        i = i - 1;
        proof {
            assert(metas@.take(i + 1).drop_last() =~= metas@.take(i as int));
            assert(metas@.take(i + 1).last() == metas@[i as int]);
        }
        if metas[i].tn_id == tn_id {
            return Some(&metas[i]);
        }
    }
    None
}

/// Whether a listed tenant combines what the two databases know: the name, the kind, the picture
/// and, where it is known there, the time of creation come from the profile; the rest from the
/// account. Without a profile the tenant is a person who goes by their identity.
pub open spec fn combines(v: TenantView, auth: AuthTenant, meta: Option<MetaTenant>) -> bool {
    &&& v.tn_id == auth.tn_id.0
    &&& v.id_tag@ == auth.id_tag@
    &&& v.email.deep_view() == auth.email.deep_view()
    &&& v.status.deep_view() == auth.status.deep_view()
    &&& v.roles.deep_view() == auth.roles.deep_view()
    &&& v.name@ == (match meta {
        Some(m) => m.name@,
        None => auth.id_tag@,
    })
    &&& v.typ == (match meta {
        Some(m) => m.typ,
        None => ProfileType::Person,
    })
    &&& v.profile_pic.deep_view() == (match meta {
        Some(m) => m.profile_pic.deep_view(),
        None => None,
    })
    &&& v.created_at == (if meta is Some && meta->0.created_at.0 > 0 {
        meta->0.created_at.0
    } else {
        auth.created_at.0
    })
}

fn copy_roles(v: &Option<Vec<String>>) -> (r: Option<Vec<String>>)
    ensures
        r.deep_view() == v.deep_view(),
{
    match v {
        Some(a) => {
            let mut out: Vec<String> = Vec::new();
            let mut i: usize = 0;
            while i < a.len()
                invariant
                    i <= a@.len(),
                    out@.len() == i,
                    forall|k: int| 0 <= k < i ==> (#[trigger] out@[k])@ == a@[k]@,
                decreases a@.len() - i,
            {
                out.push(a[i].clone());
                i = i + 1;
            }
            assert(out.deep_view() =~= a.deep_view());
            Some(out)
        },
        None => None,
    }
}

/// Combines what the two databases know of the tenants, in the order of the accounts.
pub fn list_tenants(auths: &Vec<AuthTenant>, metas: &Vec<MetaTenant>) -> (r: Vec<TenantView>)
    ensures
        r@.len() == auths@.len(),
        forall|i: int|
            0 <= i < auths@.len() ==> combines(
                #[trigger] r@[i],
                auths@[i],
                profile_of(metas@, auths@[i].tn_id),
            ),
{
    let mut out: Vec<TenantView> = Vec::new();
    let mut i: usize = 0;
    while i < auths.len()
        invariant
            i <= auths@.len(),
            out@.len() == i,
            forall|k: int|
                0 <= k < i ==> combines(
                    #[trigger] out@[k],
                    auths@[k],
                    profile_of(metas@, auths@[k].tn_id),
                ),
        decreases auths@.len() - i,
    {
        let a = &auths[i];
        let (name, typ, profile_pic, created_at) = match find_profile(metas, a.tn_id) {
            Some(m) => (
                m.name.clone(),
                m.typ,
                text::owned_opt(text::as_opt(&m.profile_pic)),
                if m.created_at.0 > 0 {
                    m.created_at.0
                } else {
                    a.created_at.0
                },
            ),
            None => (a.id_tag.clone(), ProfileType::Person, None, a.created_at.0),
        };
        let v = TenantView {
            tn_id: a.tn_id.0,
            id_tag: a.id_tag.clone(),
            name,
            typ,
            email: text::owned_opt(text::as_opt(&a.email)),
            status: text::owned_opt(text::as_opt(&a.status)),
            roles: copy_roles(&a.roles),
            profile_pic,
            created_at,
        };
        out.push(v);
        i = i + 1;
    }
    out
}

/// The part of the list that a page shows: where it begins, and how long it is.
pub fn page_of(q: &ListTenantsQuery, total: usize) -> (r: (usize, usize))
    ensures
        r.0 == (match q.offset {
            Some(o) => o as int,
            None => 0,
        }),
        r.1 == (match q.limit {
            Some(l) => l as int,
            None => total as int,
        }),
{
    let offset: usize = match q.offset {
        Some(o) => o as usize,
        None => 0,
    };
    let limit: usize = match q.limit {
        Some(l) => l as usize,
        None => total,
    };
    (offset, limit)
}

/// Whether a tenant is the first one with an identity.
pub open spec fn first_with(auths: Seq<AuthTenant>, id_tag: Seq<char>, i: int) -> bool {
    0 <= i < auths.len() && auths[i].id_tag@ == id_tag && forall|k: int|
        0 <= k < i ==> (#[trigger] auths[k]).id_tag@ != id_tag
}

/// How a reset of a tenant's password is carried out.
#[derive(Debug)]
pub struct AdminReset {
    pub to: String,
    /// The reference that the link in the mail holds.
    pub reference: NewRef,
    /// The key of the task that sends the mail.
    pub mail_key: String,
    pub sender_name: String,
    pub response: PasswordResetResponse,
}

/// Decides on a reset of a tenant's password by an administrator.
pub fn send_password_reset(
    tn_id: TnId,
    id_tag: &str,
    auths: &Vec<AuthTenant>,
    node: Option<&str>,
    now: i64,
) -> (r: Result<AdminReset, Error>)
    requires
        now <= i64::MAX - 86400,
    ensures
        (forall|k: int| 0 <= k < auths@.len() ==> (#[trigger] auths@[k]).id_tag@ != id_tag@) ==> (
        r matches Err(e) && e is NotFound),
        forall|i: int|
            #[trigger] first_with(auths@, id_tag@, i) ==> (match auths@[i].email {
                None => r matches Err(e) && e.deep_view() == ErrorView::ValidationError(
                    "Tenant does not have an email address"@,
                ),
                Some(email) => r matches Ok(x) && x.to@ == email@ && x.response.message@
                    == "Password reset email sent to "@ + email@,
            }),
        r matches Ok(x) ==> {
            let name = match node {
                Some(n) => n@,
                None => "cloudillo"@,
            };
            &&& x.reference.deep_view() == mail::reset_ref(
                id_tag@,
                "Admin-initiated password reset"@,
                now,
            )
            &&& x.mail_key@ == mail::reset_key(tn_id, now)
            &&& x.sender_name@ == mail::sender_of(name)
        },
{
    let mut i: usize = 0;
    while i < auths.len()
        invariant
            i <= auths@.len(),
            now <= i64::MAX - 86400,
            forall|k: int| 0 <= k < i ==> (#[trigger] auths@[k]).id_tag@ != id_tag@,
        decreases auths@.len() - i,
    {
        if text::same(auths[i].id_tag.as_str(), id_tag) {
            proof {
                assert forall|j: int| #[trigger] first_with(auths@, id_tag@, j) implies j == i by {
                    if j < i {
                        assert(auths@[j].id_tag@ != id_tag@);
                    }
                    if i < j {
                        assert(auths@[i as int].id_tag@ != id_tag@);
                    }
                }
            }
            return match &auths[i].email {
                None => Err(
                    Error::ValidationError(text::owned("Tenant does not have an email address")),
                ),
                Some(email) => {
                    let name: &str = match node {
                        Some(n) => n,
                        None => "cloudillo",
                    };
                    let mut message = text::owned("Password reset email sent to ");
                    message.append(email.as_str());
                    Ok(
                        AdminReset {
                            to: email.clone(),
                            reference: mail::new_reset_ref(
                                id_tag,
                                "Admin-initiated password reset",
                                now,
                            ),
                            mail_key: mail::write_reset_key(tn_id, now),
                            sender_name: mail::write_sender(name),
                            response: PasswordResetResponse { message },
                        },
                    )
                },
            };
        }
        i = i + 1;
    }
    Err(Error::NotFound)
}

/// The mail of a reset that an administrator ordered, with the link to the reference that was
/// made; `user_name` is how it addresses the user.
pub fn reset_mail(reset: &AdminReset, user_name: &str, node: Option<&str>, link: &str) -> (r: Mail)
    ensures
        r.deep_view() == (MailView {
            to: reset.to@,
            template: "password_reset"@,
            vars: mail::reset_vars(
                user_name@,
                "base_id_tag"@,
                match node {
                    Some(n) => n@,
                    None => "cloudillo"@,
                },
                link@,
            ),
            key: reset.mail_key@,
            sender_name: reset.sender_name@,
        }),
{
    let name: &str = match node {
        Some(n) => n,
        None => "cloudillo",
    };
    Mail {
        to: reset.to.clone(),
        template: text::owned("password_reset"),
        vars: mail::new_reset_vars(user_name, "base_id_tag", name, link),
        key: reset.mail_key.clone(),
        sender_name: reset.sender_name.clone(),
    }
}

// ---------------------------------------------------------------------------------------------
// Removing a tenant for good
// ---------------------------------------------------------------------------------------------

/// What a removal reports.
#[derive(Debug)]
pub struct PurgeReport {
    pub tn_id: TnId,
    pub id_tag: String,
}

#[derive(Debug)]
pub struct PurgeTenantBody {
    pub confirm_id_tag: String,
}

#[derive(Debug)]
pub struct PurgeTenantResponse {
    pub tn_id: u32,
    pub id_tag: String,
}

/// Admits the removal of a tenant: it has to be confirmed, and is neither for the administrator's
/// own tenant nor for the base tenant. `tn_id` is the tenant, where it could be looked up, which
/// counts only after the first two checks.
pub fn purge_tenant_handler(
    auth: &AuthCtx,
    id_tag: &str,
    body: &PurgeTenantBody,
    tn_id: Result<TnId, Error>,
) -> (r: Result<TnId, Error>)
    ensures
        body.confirm_id_tag@ != id_tag@ ==> (r matches Err(e) && e.deep_view()
            == ErrorView::ValidationError("confirm_id_tag mismatch"@)),
        body.confirm_id_tag@ == id_tag@ && auth.id_tag@ == id_tag@ ==> (r matches Err(e)
            && e.deep_view() == ErrorView::ValidationError("cannot purge the admin's own tenant"@)),
        body.confirm_id_tag@ == id_tag@ && auth.id_tag@ != id_tag@ ==> (match tn_id {
            Ok(t) => if t.0 == 1 {
                r matches Err(e) && e.deep_view() == ErrorView::ValidationError(
                    "cannot purge the base tenant"@,
                )
            } else {
                r == tn_id
            },
            Err(_) => r == tn_id,
        }),
{
    if !text::same(body.confirm_id_tag.as_str(), id_tag) {
        return Err(Error::ValidationError(text::owned("confirm_id_tag mismatch")));
    }
    if text::same(auth.id_tag.as_str(), id_tag) {
        return Err(Error::ValidationError(text::owned("cannot purge the admin's own tenant")));
    }
    match tn_id {
        Ok(t) => {
            if t.0 == 1 {
                Err(Error::ValidationError(text::owned("cannot purge the base tenant")))
            } else {
                Ok(t)
            }
        },
        Err(e) => Err(e),
    }
}

/// The steps of a removal, in order. The first one marks the tenant as deleted, so that nobody
/// signs in any more; the last one removes the account, and with it the mark.
#[derive(Debug, Clone, Copy, PartialEq, Eq, Structural)]
pub enum PurgeStep {
    MarkDeleted,
    Blobs,
    Documents,
    Databases,
    Profile,
    Account,
}

impl PurgeStep {
    pub open spec fn position(self) -> int {
        match self {
            PurgeStep::MarkDeleted => 0,
            PurgeStep::Blobs => 1,
            PurgeStep::Documents => 2,
            PurgeStep::Databases => 3,
            PurgeStep::Profile => 4,
            PurgeStep::Account => 5,
        }
    }
}

/// The step at a position.
pub open spec fn step_at(i: int) -> PurgeStep {
    if i <= 0 {
        PurgeStep::MarkDeleted
    } else if i == 1 {
        PurgeStep::Blobs
    } else if i == 2 {
        PurgeStep::Documents
    } else if i == 3 {
        PurgeStep::Databases
    } else if i == 4 {
        PurgeStep::Profile
    } else {
        PurgeStep::Account
    }
}

/// Where a removal stands.
#[derive(Debug)]
pub enum PurgeRun {
    /// This step is to be taken.
    Next(PurgeStep),
    /// Everything is gone.
    Done,
    /// A step failed; the removal can be started again.
    Failed(Error),
}

/// How a removal begins. It begins anew after a failure too: what is gone already is not missed.
pub fn purge_tenant() -> (r: PurgeRun)
    ensures
        r == PurgeRun::Next(step_at(0)),
{
    PurgeRun::Next(PurgeStep::MarkDeleted)
}

/// Where a removal stands after a step: behind the last one it is done, and a failure ends it.
pub open spec fn purge_after(step: PurgeStep, outcome: Result<(), Error>) -> PurgeRun {
    match outcome {
        Err(e) => PurgeRun::Failed(e),
        Ok(_) => if step.position() == 5 {
            PurgeRun::Done
        } else {
            PurgeRun::Next(step_at(step.position() + 1))
        },
    }
}

pub fn purge_advance(step: PurgeStep, outcome: Result<(), Error>) -> (r: PurgeRun)
    ensures
        r == purge_after(step, outcome),
{
    match outcome {
        Err(e) => PurgeRun::Failed(e),
        Ok(()) => match step {
            PurgeStep::MarkDeleted => PurgeRun::Next(PurgeStep::Blobs),
            PurgeStep::Blobs => PurgeRun::Next(PurgeStep::Documents),
            PurgeStep::Documents => PurgeRun::Next(PurgeStep::Databases),
            PurgeStep::Databases => PurgeRun::Next(PurgeStep::Profile),
            PurgeStep::Profile => PurgeRun::Next(PurgeStep::Account),
            PurgeStep::Account => PurgeRun::Done,
        },
    }
}

/// Where a removal stands after a number of steps that all succeeded.
pub open spec fn purge_run(n: nat) -> PurgeRun
    decreases n,
{
    if n == 0 {
        PurgeRun::Next(step_at(0))
    } else {
        match purge_run((n - 1) as nat) {
            PurgeRun::Next(s) => purge_after(s, Ok(())),
            other => other,
        }
    }
}

/// A removal takes all six steps in order and is then done: the mark comes before everything
/// that is destroyed, and the account goes last, so that a removal that failed can be repeated.
pub proof fn law_purge_takes_every_step(n: nat)
    ensures
        n < 6 ==> purge_run(n) == PurgeRun::Next(step_at(n as int)),
        n == 6 ==> purge_run(n) is Done,
        purge_run(n) matches PurgeRun::Next(s) ==> s.position() == n,
    decreases n,
{
    if n > 0 {
        law_purge_takes_every_step((n - 1) as nat);
        if n > 6 {
            lemma_purge_stays_done(n);
        }
    }
}

proof fn lemma_purge_stays_done(n: nat)
    requires
        n >= 6,
    ensures
        purge_run(n) is Done,
    decreases n,
{
    if n > 6 {
        lemma_purge_stays_done((n - 1) as nat);
    } else {
        reveal_with_fuel(purge_run, 7);
    }
}

} // verus!
