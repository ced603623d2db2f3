//! Signing in and out, and passwords.
use crate::auth::qr_login::InitResponse;
use crate::mail::{self, Mail, MailView, NewRef, NewRefView};
use crate::text;
use crate::types::{AuthCtx, Error, ErrorView, TnId};
use vstd::prelude::*;

verus! {

/// What somebody who signed in gets.
#[derive(Debug, Clone)]
pub struct Login {
    pub tn_id: TnId,
    pub id_tag: String,
    pub roles: Option<Vec<String>>,
    pub token: String,
    pub name: String,
    pub profile_pic: String,
    pub settings: Vec<(String, String)>,
}

pub struct LoginView {
    pub tn_id: TnId,
    pub id_tag: Seq<char>,
    pub roles: Option<Seq<Seq<char>>>,
    pub token: Seq<char>,
    pub name: Seq<char>,
    pub profile_pic: Seq<char>,
    pub settings: Seq<(Seq<char>, Seq<char>)>,
}

impl View for Login {
    type V = LoginView;

    open spec fn view(&self) -> LoginView {
        LoginView {
            tn_id: self.tn_id,
            id_tag: self.id_tag@,
            roles: self.roles.deep_view(),
            token: self.token@,
            name: self.name@,
            profile_pic: self.profile_pic@,
            settings: self.settings.deep_view(),
        }
    }
}

impl Login {
    /// A sign-in that holds the same.
    pub fn duplicate(&self) -> (r: Login)
        ensures
            r@ == self@,
    {
        let mut settings: Vec<(String, String)> = Vec::new();
        let mut i: usize = 0;
        while i < self.settings.len()
            invariant
                i <= self.settings@.len(),
                settings@.len() == i,
                forall|k: int|
                    0 <= k < i ==> (#[trigger] settings@[k]).0@ == self.settings@[k].0@
                        && settings@[k].1@ == self.settings@[k].1@,
            decreases self.settings@.len() - i,
        {
            settings.push((self.settings[i].0.clone(), self.settings[i].1.clone()));
            i = i + 1;
        }
        assert(settings.deep_view() =~= self.settings.deep_view());
        Login {
            tn_id: self.tn_id,
            id_tag: self.id_tag.clone(),
            roles: text::owned_list_opt(self.roles.as_ref()),
            token: self.token.clone(),
            name: self.name.clone(),
            profile_pic: self.profile_pic.clone(),
            settings,
        }
    }
}

/// A session that was opened.
#[derive(Debug)]
pub struct AuthLogin {
    pub tn_id: TnId,
    pub id_tag: String,
    pub roles: Option<Vec<String>>,
    pub token: String,
}

/// The name and the picture of a tenant.
#[derive(Debug)]
pub struct TenantProfile {
    pub name: String,
    pub profile_pic: Option<String>,
}

#[derive(Debug)]
pub struct IdTagRes {
    pub id_tag: String,
}

/// What somebody who signed in gets: a tenant whose profile cannot be read goes by its identity.
pub open spec fn login_of(auth: AuthLogin, tenant: Option<TenantProfile>) -> LoginView {
    LoginView {
        tn_id: auth.tn_id,
        id_tag: auth.id_tag@,
        roles: auth.roles.deep_view(),
        token: auth.token@,
        name: match tenant {
            Some(t) => t.name@,
            None => auth.id_tag@,
        },
        profile_pic: match tenant {
            Some(t) => match t.profile_pic {
                Some(p) => p@,
                None => ""@,
            },
            None => ""@,
        },
        settings: Seq::empty(),
    }
}

pub fn return_login(auth: AuthLogin, tenant: Option<TenantProfile>) -> (r: Login)
    ensures
        r@ == login_of(auth, tenant),
{
    let (name, profile_pic) = match tenant {
        Some(t) => (
            t.name,
            match t.profile_pic {
                Some(p) => p,
                None => text::owned(""),
            },
        ),
        None => (auth.id_tag.clone(), text::owned("")),
    };
    let settings: Vec<(String, String)> = Vec::new();
    assert(settings.deep_view() =~= Seq::<(Seq<char>, Seq<char>)>::empty());
    Login {
        tn_id: auth.tn_id,
        id_tag: auth.id_tag,
        roles: auth.roles,
        token: auth.token,
        name,
        profile_pic,
        settings,
    }
}

#[derive(Debug)]
pub struct LoginReq {
    pub id_tag: String,
    pub password: String,
}

/// Decides on a sign-in by password, given whether the password was right. A wrong one is
/// answered late, and counts against the client.
pub fn post_login(checked: Option<AuthLogin>) -> (r: Result<AuthLogin, Error>)
    ensures
        match checked {
            Some(a) => r == Ok::<AuthLogin, Error>(a),
            None => r matches Err(e) && e is PermissionDenied,
        },
{
    match checked {
        Some(a) => Ok(a),
        None => Err(Error::PermissionDenied),
    }
}

/// Decides on a fresh session for somebody who has one. A restricted credential is never the
/// account, and a session of another tenant is refused; who has none gets none.
pub fn get_login_token(auth: Option<&AuthCtx>, opened: Option<AuthLogin>) -> (r: Result<
    Option<AuthLogin>,
    Error,
>)
    ensures
        match auth {
            None => r == Ok::<Option<AuthLogin>, Error>(None),
            Some(a) => if a.scope is Some || opened is None {
                r matches Err(e) && e is PermissionDenied
            } else {
                r == Ok::<Option<AuthLogin>, Error>(opened)
            },
        },
{
    match auth {
        None => Ok(None),
        Some(a) => {
            if a.scope.is_some() {
                return Err(Error::PermissionDenied);
            }
            match opened {
                Some(x) => Ok(Some(x)),
                None => Err(Error::PermissionDenied),
            }
        },
    }
}

#[derive(Debug)]
pub struct LogoutReq {
    pub api_key: Option<String>,
}

impl Default for LogoutReq {
    fn default() -> (r: Self)
        ensures
            r.api_key is None,
    {
        LogoutReq { api_key: None }
    }
}

/// The API key that signing out deletes: the one presented, where it is valid and belongs to the
/// caller's tenant. `key` is the tenant and the number of the key that was presented.
pub fn post_logout(tn_id: TnId, key: Option<(TnId, i64)>) -> (r: Option<i64>)
    ensures
        r == (match key {
            Some(k) => if k.0 == tn_id {
                Some(k.1)
            } else {
                None
            },
            None => None,
        }),
{
    match key {
        Some((owner, id)) => {
            if owner == tn_id {
                Some(id)
            } else {
                None
            }
        },
        None => None,
    }
}

// ---------------------------------------------------------------------------------------------
// Passwords
// ---------------------------------------------------------------------------------------------

/// The least number of bytes in a password.
pub const MIN_PASSWORD_LEN: usize = 8;

/// Whether a password is strong enough: more than white space, and long enough.
pub open spec fn strong(password: Seq<char>) -> bool {
    text::trimmed(password).len() > 0 && text::byte_length(password) >= MIN_PASSWORD_LEN
}

/// What is wrong with a password that is not strong enough.
pub open spec fn weakness(password: Seq<char>) -> ErrorView {
    ErrorView::ValidationError(
        if text::trimmed(password).len() == 0 {
            "Password cannot be empty or only whitespace"@
        } else {
            "Password must be at least 8 characters"@
        },
    )
}

/// Admits a new password.
pub fn check_password_strength(password: &str) -> (r: Result<(), Error>)
    ensures
        r is Ok <==> strong(password@),
        r matches Err(e) ==> e.deep_view() == weakness(password@),
{
    if text::trim(password).as_str().is_empty() {
        return Err(
            Error::ValidationError(text::owned("Password cannot be empty or only whitespace")),
        );
    }
    if text::byte_len(password) < MIN_PASSWORD_LEN {
        return Err(Error::ValidationError(text::owned("Password must be at least 8 characters")));
    }
    Ok(())
}

#[derive(Debug)]
pub struct PasswordReq {
    pub current_password: String,
    pub new_password: String,
}

/// Decides on a change of password; `verified` tells whether the current one was right, and is
/// asked for only where the new one is admissible.
pub fn post_password(req: &PasswordReq, verified: bool) -> (r: Result<(), Error>)
    ensures
        r is Ok <==> strong(req.new_password@) && req.new_password@ != req.current_password@
            && verified,
        r matches Err(e) ==> e.deep_view() == (if !strong(req.new_password@) {
            weakness(req.new_password@)
        } else if req.new_password@ == req.current_password@ {
            ErrorView::ValidationError("New password must be different from current password"@)
        } else {
            ErrorView::PermissionDenied
        }),
{
    match check_password_strength(req.new_password.as_str()) {
        Ok(()) => {},
        Err(e) => {
            return Err(e);
        },
    }
    if text::same(req.new_password.as_str(), req.current_password.as_str()) {
        return Err(
            Error::ValidationError(
                text::owned("New password must be different from current password"),
            ),
        );
    }
    if !verified {
        return Err(Error::PermissionDenied);
    }
    Ok(())
}

/// What a reference to a tenant is for.
#[derive(Debug, Clone, Copy, PartialEq, Eq, Structural)]
pub enum RefKind {
    /// Setting up a new account.
    Welcome,
    /// Setting a new password.
    Password,
}

/// A reference that is valid.
#[derive(Debug)]
pub struct PasswordRef {
    pub id_tag: String,
    pub kind: RefKind,
}

/// Where a new account stands.
#[derive(Debug, Clone, Copy, PartialEq, Eq, Structural)]
pub enum Onboarding {
    /// The identity has yet to be activated.
    VerifyIdp,
    /// Nothing stands in the way.
    Open,
    /// It could not be found out.
    Unknown,
}

/// Where a new account stands, by its onboarding setting. Where the setting cannot be read, this
/// cannot be found out.
pub fn onboarding_gate(setting: Result<Option<String>, Error>) -> (r: Onboarding)
    ensures
        r == (match setting {
            Ok(s) => if s.deep_view() == Some("verify-idp"@) {
                Onboarding::VerifyIdp
            } else {
                Onboarding::Open
            },
            Err(_) => Onboarding::Unknown,
        }),
{
    match setting {
        Ok(s) => {
            if text::is_text(text::as_opt(&s), "verify-idp") {
                Onboarding::VerifyIdp
            } else {
                Onboarding::Open
            }
        },
        Err(_) => Onboarding::Unknown,
    }
}

#[derive(Debug)]
pub struct SetPasswordReq {
    pub ref_id: String,
    pub new_password: String,
}

/// What a reference that cannot be used is answered with.
pub open spec fn reference_trouble(error: Error) -> ErrorView {
    match error {
        Error::NotFound => ErrorView::ValidationError("Invalid or expired reference"@),
        Error::ValidationError(m) => ErrorView::ValidationError(m@),
        _ => ErrorView::ValidationError("Invalid reference"@),
    }
}

/// The error for a reference that cannot be used.
pub fn reference_error(error: Error) -> (r: Error)
    ensures
        r.deep_view() == reference_trouble(error),
{
    match error {
        Error::NotFound => Error::ValidationError(text::owned("Invalid or expired reference")),
        Error::ValidationError(m) => Error::ValidationError(m),
        _ => Error::ValidationError(text::owned("Invalid reference")),
    }
}

/// Whether setting a password by a reference goes ahead.
pub open spec fn may_set_password(
    password: Seq<char>,
    reference: Result<PasswordRef, Error>,
    host: Seq<char>,
    onboarding: Onboarding,
) -> bool {
    &&& strong(password)
    &&& reference is Ok && reference->Ok_0.id_tag@ == host
    &&& onboarding == Onboarding::Open
}

/// Decides on setting a password by a reference: the reference has to belong to the tenant that
/// is asked, and the identity must not be waiting for its activation. Tells whether the
/// reference is used up, which a welcome is not.
pub fn post_set_password(
    req: &SetPasswordReq,
    reference: Result<PasswordRef, Error>,
    host: &str,
    onboarding: Onboarding,
) -> (r: Result<bool, Error>)
    ensures
        r is Ok <==> may_set_password(req.new_password@, reference, host@, onboarding),
        r matches Ok(used_up) ==> used_up == (reference->Ok_0.kind == RefKind::Password),
        r matches Err(e) ==> e.deep_view() == (if !strong(req.new_password@) {
            weakness(req.new_password@)
        } else if reference is Err {
            reference_trouble(reference->Err_0)
        } else if reference->Ok_0.id_tag@ != host@ {
            ErrorView::PermissionDenied
        } else if onboarding == Onboarding::VerifyIdp {
            ErrorView::ValidationError(
                "Identity is not yet activated. Please click the activation link in your identity-provider email first."@,
            )
        } else {
            ErrorView::ValidationError(
                "Unable to verify identity activation status, please try again"@,
            )
        }),
{
    match check_password_strength(req.new_password.as_str()) {
        Ok(()) => {},
        Err(e) => {
            return Err(e);
        },
    }
    let found = match reference {
        Ok(x) => x,
        Err(e) => {
            return Err(reference_error(e));
        },
    };
    if !text::same(found.id_tag.as_str(), host) {
        return Err(Error::PermissionDenied);
    }
    match onboarding {
        Onboarding::VerifyIdp => Err(
            Error::ValidationError(
                text::owned(
                    "Identity is not yet activated. Please click the activation link in your identity-provider email first.",
                ),
            ),
        ),
        Onboarding::Unknown => Err(
            Error::ValidationError(
                text::owned("Unable to verify identity activation status, please try again"),
            ),
        ),
        Onboarding::Open => match found.kind {
            RefKind::Password => Ok(true),
            RefKind::Welcome => Ok(false),
        },
    }
}

#[derive(Debug)]
pub struct CompleteOnboardingReq {
    pub ref_id: String,
}

/// Decides on the end of onboarding: whether the welcome is used up. One that is gone already
/// counts as success, and one of another tenant is refused. `reference` is the tenant that the
/// welcome belongs to.
pub fn post_complete_onboarding(tn_id: TnId, reference: Result<TnId, Error>) -> (r: Result<
    bool,
    Error,
>)
    ensures
        match reference {
            Ok(owner) => if owner == tn_id {
                r == Ok::<bool, Error>(true)
            } else {
                r matches Err(e) && e is PermissionDenied
            },
            Err(x) => if x is NotFound || x is ValidationError {
                r == Ok::<bool, Error>(false)
            } else {
                r == Err::<bool, Error>(x)
            },
        },
{
    match reference {
        Ok(owner) => {
            if owner == tn_id {
                Ok(true)
            } else {
                Err(Error::PermissionDenied)
            }
        },
        Err(Error::NotFound) => Ok(false),
        Err(Error::ValidationError(_)) => Ok(false),
        Err(e) => Err(e),
    }
}

// ---------------------------------------------------------------------------------------------
// Forgotten passwords
// ---------------------------------------------------------------------------------------------

#[derive(Debug)]
pub struct ForgotPasswordReq {
    pub email: String,
}

#[derive(Debug)]
pub struct ForgotPasswordRes {
    pub message: String,
}

/// The answer to every request for a reset, which tells nothing of what is on record.
pub fn forgot_password_answer() -> (r: ForgotPasswordRes)
    ensures
        r.message@
            == "If an account with this email exists, a password reset link has been sent."@,
{
    ForgotPasswordRes {
        message: text::owned(
            "If an account with this email exists, a password reset link has been sent.",
        ),
    }
}

/// A mail address as it is compared.
pub fn normalized_email(raw: &str) -> (r: String)
    ensures
        r@ == text::lowercase_of(text::trimmed(raw@)),
{
    let t = text::trim(raw);
    text::to_lowercase(t.as_str())
}

/// Whether a text can be a mail address at all.
pub open spec fn plausible_email(email: Seq<char>) -> bool {
    email.contains('@') && text::byte_length(email) >= 5
}

/// A tenant on record.
#[derive(Debug)]
pub struct TenantEntry {
    pub tn_id: TnId,
    pub id_tag: String,
    pub email: Option<String>,
}

pub open spec fn is_account(t: TenantEntry, host: Seq<char>, email: Seq<char>) -> bool {
    t.id_tag@ == host && t.email.deep_view() == Some(email)
}

/// How many of the times lie after a given one.
pub open spec fn count_after(times: Seq<i64>, t: int) -> nat
    decreases times.len(),
{
    if times.len() == 0 {
        0
    } else {
        count_after(times.drop_last(), t) + (if times.last() > t {
            1nat
        } else {
            0nat
        })
    }
}

fn count_later(times: &Vec<i64>, t: i64) -> (r: usize)
    ensures
        r == count_after(times@, t as int),
{
    let mut n: usize = 0;
    let mut i: usize = 0;
    while i < times.len()
        invariant
            i <= times@.len(),
            n <= i,
            n == count_after(times@.take(i as int), t as int),
        decreases times@.len() - i,
    {
        proof {
            assert(times@.take(i + 1).drop_last() =~= times@.take(i as int));
            assert(times@.take(i + 1).last() == times@[i as int]);
        }
        if times[i] > t {
            n = n + 1;
        }
        i = i + 1;
    }
    assert(times@.take(i as int) =~= times@);
    n
}

/// Whether another reset is admitted: fewer than three in the last hour, and fewer than five in
/// the last day.
pub open spec fn reset_admitted(earlier: Seq<i64>, now: i64) -> bool {
    count_after(earlier, now - 3600) < 3 && count_after(earlier, now - 86400) < 5
}

/// How a reset is carried out.
#[derive(Debug)]
pub struct ResetPlan {
    /// The reference that the link in the mail holds.
    pub reference: NewRef,
    /// The key of the task that sends the mail.
    pub mail_key: String,
    pub sender_name: String,
    /// How the mail addresses the user.
    pub user_name: String,
}

/// How a reset is carried out, by what it holds.
#[verifier::ext_equal]
pub ghost struct ResetPlanView {
    pub reference: NewRefView,
    pub mail_key: Seq<char>,
    pub sender_name: Seq<char>,
    pub user_name: Seq<char>,
}

impl DeepView for ResetPlan {
    type V = ResetPlanView;

    open spec fn deep_view(&self) -> ResetPlanView {
        ResetPlanView {
            reference: self.reference.deep_view(),
            mail_key: self.mail_key@,
            sender_name: self.sender_name@,
            user_name: self.user_name@,
        }
    }
}

/// How a reset for an account is carried out; nothing where it is not admitted.
pub open spec fn reset_plan(
    tn_id: TnId,
    id_tag: Seq<char>,
    name: Option<Seq<char>>,
    earlier: Seq<i64>,
    now: i64,
) -> Option<ResetPlanView> {
    if reset_admitted(earlier, now) {
        Some(
            ResetPlanView {
                reference: mail::reset_ref(id_tag, "User-initiated password reset"@, now),
                mail_key: mail::reset_key(tn_id, now),
                sender_name: mail::sender_of(id_tag),
                user_name: match name {
                    Some(n) => n,
                    None => id_tag,
                },
            },
        )
    } else {
        None
    }
}

/// Whether a time can be reckoned with to the day.
pub open spec fn reckonable(now: i64) -> bool {
    i64::MIN + 86400 <= now <= i64::MAX - 86400
}

/// Decides on a reset for an account, given its name, where it could be read, and the times of
/// the earlier resets.
pub fn plan_reset(
    tn_id: TnId,
    id_tag: &str,
    name: Option<&str>,
    earlier: &Vec<i64>,
    now: i64,
) -> (r: Option<ResetPlan>)
    requires
        reckonable(now),
    ensures
        r.deep_view() == reset_plan(tn_id, id_tag@, name.deep_view(), earlier@, now),
{
    if count_later(earlier, now - 3600) >= 3 || count_later(earlier, now - 86400) >= 5 {
        return None;
    }
    let reference = mail::new_reset_ref(id_tag, "User-initiated password reset", now);
    let user_name: String = match name {
        Some(n) => text::owned(n),
        None => text::owned(id_tag),
    };
    Some(
        ResetPlan {
            reference,
            mail_key: mail::write_reset_key(tn_id, now),
            sender_name: mail::write_sender(id_tag),
            user_name,
        },
    )
}

/// An account that a reset is for.
#[derive(Debug)]
pub struct ResetAccount {
    pub email: String,
    pub tn_id: TnId,
    pub id_tag: String,
}

#[verifier::ext_equal]
pub ghost struct ResetAccountView {
    pub email: Seq<char>,
    pub tn_id: TnId,
    pub id_tag: Seq<char>,
}

impl DeepView for ResetAccount {
    type V = ResetAccountView;

    open spec fn deep_view(&self) -> ResetAccountView {
        ResetAccountView { email: self.email@, tn_id: self.tn_id, id_tag: self.id_tag@ }
    }
}

/// What a request for a reset waits for, or how it is answered.
#[derive(Debug)]
pub enum ResetStep {
    /// The tenants with the identity of the host are looked up.
    Tenants { email: String, host: String },
    /// The earlier resets and the name of an account are looked up.
    Account(ResetAccount),
    /// A reference is made that the link in the mail holds.
    Reference { account: ResetAccount, plan: ResetPlan },
    /// The mail with the link is sent.
    Mail { tn_id: TnId, mail: Mail },
    /// The request is answered.
    Answer { status: u16, body: ForgotPasswordRes },
}

pub ghost enum ResetStepView {
    Tenants { email: Seq<char>, host: Seq<char> },
    Account(ResetAccountView),
    Reference { account: ResetAccountView, plan: ResetPlanView },
    Mail { tn_id: TnId, mail: MailView },
    Answer { status: u16, message: Seq<char> },
}

impl DeepView for ResetStep {
    type V = ResetStepView;

    open spec fn deep_view(&self) -> ResetStepView {
        match self {
            ResetStep::Tenants { email, host } => ResetStepView::Tenants {
                email: email@,
                host: host@,
            },
            ResetStep::Account(a) => ResetStepView::Account(a.deep_view()),
            ResetStep::Reference { account, plan } => ResetStepView::Reference {
                account: account.deep_view(),
                plan: plan.deep_view(),
            },
            ResetStep::Mail { tn_id, mail } => ResetStepView::Mail {
                tn_id: *tn_id,
                mail: mail.deep_view(),
            },
            ResetStep::Answer { status, body } => ResetStepView::Answer {
                status: *status,
                message: body.message@,
            },
        }
    }
}

/// What came of a step of a reset.
#[derive(Debug)]
pub enum ResetEvent {
    /// The tenants, as far as they could be looked up.
    Tenants(Result<Vec<TenantEntry>, Error>),
    /// The times of the earlier resets, and the name of the account where it could be read.
    Account { name: Option<String>, earlier: Vec<i64>, now: i64 },
    /// The link, where a reference could be made for it.
    Reference(Result<String, Error>),
    Mailed(Result<(), Error>),
}

/// The answer to every request for a reset.
pub open spec fn reset_answered() -> ResetStepView {
    ResetStepView::Answer {
        status: 200,
        message: "If an account with this email exists, a password reset link has been sent."@,
    }
}

/// The first step of a reset: a request with what cannot be a mail address, or to no known host,
/// is answered at once.
pub open spec fn first_reset_step(email: Seq<char>, host: Option<Seq<char>>) -> ResetStepView {
    let email = text::lowercase_of(text::trimmed(email));
    match host {
        Some(host) if plausible_email(email) => ResetStepView::Tenants { email, host },
        _ => reset_answered(),
    }
}

/// The first account with the identity of a host and a mail address.
pub open spec fn account_in(
    tenants: Seq<TenantEntry>,
    host: Seq<char>,
    email: Seq<char>,
) -> Option<ResetAccountView>
    decreases tenants.len(),
{
    if tenants.len() == 0 {
        None
    } else if is_account(tenants[0], host, email) {
        Some(ResetAccountView { email, tn_id: tenants[0].tn_id, id_tag: tenants[0].id_tag@ })
    } else {
        account_in(tenants.drop_first(), host, email)
    }
}

/// The mail of a reset, with the link to the reference that was made.
pub open spec fn reset_mail(a: ResetAccountView, p: ResetPlanView, link: Seq<char>) -> MailView {
    MailView {
        to: a.email,
        template: "password_reset"@,
        vars: mail::reset_vars(p.user_name, "idTag"@, a.id_tag, link),
        key: p.mail_key,
        sender_name: p.sender_name,
    }
}

/// The step after one that came to an end. Whatever fails ends the reset, and so does an event
/// that the step does not wait for.
pub open spec fn next_reset_step(step: ResetStepView, event: ResetEvent) -> ResetStepView {
    match (step, event) {
        (
            ResetStepView::Tenants { email, host },
            ResetEvent::Tenants(Ok(tenants)),
        ) => match account_in(tenants@, host, email) {
            Some(a) => ResetStepView::Account(a),
            None => reset_answered(),
        },
        (
            ResetStepView::Account(a),
            ResetEvent::Account { name, earlier, now },
        ) => match reset_plan(a.tn_id, a.id_tag, name.deep_view(), earlier@, now) {
            Some(plan) => ResetStepView::Reference { account: a, plan },
            None => reset_answered(),
        },
        (
            ResetStepView::Reference { account, plan },
            ResetEvent::Reference(Ok(link)),
        ) => ResetStepView::Mail { tn_id: account.tn_id, mail: reset_mail(account, plan, link@) },
        _ => reset_answered(),
    }
}

fn answer_reset() -> (r: ResetStep)
    ensures
        r.deep_view() == reset_answered(),
{
    ResetStep::Answer { status: 200, body: forgot_password_answer() }
}

/// Takes up a request for a reset.
pub fn post_forgot_password(req: &ForgotPasswordReq, host: Option<&str>) -> (r: ResetStep)
    ensures
        r.deep_view() == first_reset_step(req.email@, host.deep_view()),
{
    let email = normalized_email(req.email.as_str());
    if !text::contains_char(email.as_str(), '@') || text::byte_len(email.as_str()) < 5 {
        return answer_reset();
    }
    match host {
        Some(h) => ResetStep::Tenants { email, host: text::owned(h) },
        None => answer_reset(),
    }
}

fn find_account(tenants: &Vec<TenantEntry>, host: &str, email: String) -> (r: Option<ResetAccount>)
    ensures
        r.deep_view() == account_in(tenants@, host@, email@),
{
    let mut i: usize = 0;
    assert(tenants@.skip(0) =~= tenants@);
    while i < tenants.len()
        invariant
            i <= tenants@.len(),
            account_in(tenants@, host@, email@) == account_in(
                tenants@.skip(i as int),
                host@,
                email@,
            ),
        decreases tenants@.len() - i,
    {
        let t = &tenants[i];
        assert(tenants@.skip(i as int)[0] == tenants@[i as int]);
        assert(tenants@.skip(i as int).drop_first() =~= tenants@.skip(i + 1));
        let named = text::same(t.id_tag.as_str(), host);
        if named && text::is_text(text::as_opt(&t.email), email.as_str()) {
            return Some(ResetAccount { email, tn_id: t.tn_id, id_tag: t.id_tag.clone() });
        }
        i = i + 1;
    }
    None
}

/// Goes on with a reset after a step came to an end.
pub fn advance_reset(step: ResetStep, event: ResetEvent) -> (r: ResetStep)
    requires
        event matches ResetEvent::Account { now, .. } ==> reckonable(now),
    ensures
        r.deep_view() == next_reset_step(step.deep_view(), event),
{
    match (step, event) {
        (ResetStep::Tenants { email, host }, ResetEvent::Tenants(Ok(tenants))) => {
            match find_account(&tenants, host.as_str(), email) {
                Some(a) => ResetStep::Account(a),
                None => answer_reset(),
            }
        },
        (ResetStep::Account(a), ResetEvent::Account { name, earlier, now }) => {
            match plan_reset(a.tn_id, a.id_tag.as_str(), text::as_opt(&name), &earlier, now) {
                Some(plan) => ResetStep::Reference { account: a, plan },
                None => answer_reset(),
            }
        },
        (ResetStep::Reference { account, plan }, ResetEvent::Reference(Ok(link))) => {
            let vars = mail::new_reset_vars(
                plan.user_name.as_str(),
                "idTag",
                account.id_tag.as_str(),
                link.as_str(),
            );
            ResetStep::Mail {
                tn_id: account.tn_id,
                mail: Mail {
                    to: account.email,
                    template: text::owned("password_reset"),
                    vars,
                    key: plan.mail_key,
                    sender_name: plan.sender_name,
                },
            }
        },
        _ => answer_reset(),
    }
}

/// The steps of a request for a reset, given what came of each.
pub open spec fn reset_run(
    email: Seq<char>,
    host: Option<Seq<char>>,
    events: Seq<ResetEvent>,
) -> ResetStepView
    decreases events.len(),
{
    if events.len() == 0 {
        first_reset_step(email, host)
    } else {
        next_reset_step(reset_run(email, host, events.drop_last()), events.last())
    }
}

/// How many steps of a reset may still come.
pub open spec fn reset_steps_left(s: ResetStepView) -> nat {
    match s {
        ResetStepView::Tenants { .. } => 4,
        ResetStepView::Account(_) => 3,
        ResetStepView::Reference { .. } => 2,
        ResetStepView::Mail { .. } => 1,
        ResetStepView::Answer { .. } => 0,
    }
}

/// Every request for a reset is answered after at most four steps, and all of them alike: the
/// answer tells neither whether there is such an account, nor whether the reset was admitted, nor
/// whether anything failed.
pub proof fn law_resets_are_answered_alike(
    email: Seq<char>,
    host: Option<Seq<char>>,
    events: Seq<ResetEvent>,
)
    ensures
        reset_run(email, host, events) is Answer ==> reset_run(email, host, events)
            == reset_answered(),
        events.len() >= 4 ==> reset_run(email, host, events) == reset_answered(),
        reset_steps_left(reset_run(email, host, events)) + events.len() <= 4
            || reset_run(email, host, events) == reset_answered(),
    decreases events.len(),
{
    if events.len() > 0 {
        law_resets_are_answered_alike(email, host, events.drop_last());
    }
}

// ---------------------------------------------------------------------------------------------
// The start of a sign-in
// ---------------------------------------------------------------------------------------------

/// What a client gets that starts to sign in.
#[derive(Debug)]
pub enum LoginInitResponse {
    /// A session, for somebody who has one.
    Authenticated { login: Login },
    /// The ways to sign in.
    Unauthenticated { qr_login: InitResponse, web_authn: bool, masked_email: Option<String> },
}

/// How the start of a sign-in is answered.
#[derive(Debug, Clone, Copy, PartialEq, Eq, Structural)]
pub enum LoginStart {
    /// By a fresh session, where one can be opened.
    Renew,
    /// By the ways to sign in.
    Offer,
}

/// Decides how the start of a sign-in is answered; a restricted credential is refused.
pub fn post_login_init(auth: Option<&AuthCtx>) -> (r: Result<LoginStart, Error>)
    ensures
        match auth {
            None => r == Ok::<LoginStart, Error>(LoginStart::Offer),
            Some(a) => if a.scope is Some {
                r matches Err(e) && e is PermissionDenied
            } else {
                r == Ok::<LoginStart, Error>(LoginStart::Renew)
            },
        },
{
    match auth {
        None => Ok(LoginStart::Offer),
        Some(a) => {
            if a.scope.is_some() {
                Err(Error::PermissionDenied)
            } else {
                Ok(LoginStart::Renew)
            }
        },
    }
}

/// A reference sets a password only at the host of its own tenant, so that no tenant changes the
/// password of another.
pub proof fn law_reference_is_bound_to_its_host(
    password: Seq<char>,
    reference: Result<PasswordRef, Error>,
    host: Seq<char>,
    onboarding: Onboarding,
)
    requires
        may_set_password(password, reference, host, onboarding),
    ensures
        reference->Ok_0.id_tag@ == host,
        strong(password),
{
}

/// Once three resets were made, none is admitted for an hour after the third last of them.
pub proof fn law_resets_are_limited(earlier: Seq<i64>, i: int, j: int, k: int, now: i64)
    requires
        0 <= i < j < k < earlier.len(),
        earlier[i] > now - 3600,
        earlier[j] > now - 3600,
        earlier[k] > now - 3600,
    ensures
        !reset_admitted(earlier, now),
{
    lemma_count_three(earlier, now - 3600, i, j, k);
}

proof fn lemma_count_three(times: Seq<i64>, t: int, i: int, j: int, k: int)
    requires
        0 <= i < j < k < times.len(),
        times[i] > t,
        times[j] > t,
        times[k] > t,
    ensures
        count_after(times, t) >= 3,
    decreases times.len(),
{
    let rest = times.drop_last();
    if k < rest.len() {
        lemma_count_three(rest, t, i, j, k);
    } else {
        lemma_count_two(rest, t, i, j);
    }
}

proof fn lemma_count_two(times: Seq<i64>, t: int, i: int, j: int)
    requires
        0 <= i < j < times.len(),
        times[i] > t,
        times[j] > t,
    ensures
        count_after(times, t) >= 2,
    decreases times.len(),
{
    let rest = times.drop_last();
    if j < rest.len() {
        lemma_count_two(rest, t, i, j);
    } else {
        lemma_count_one(rest, t, i);
    }
}

proof fn lemma_count_one(times: Seq<i64>, t: int, i: int)
    requires
        0 <= i < times.len(),
        times[i] > t,
    ensures
        count_after(times, t) >= 1,
    decreases times.len(),
{
    if i < times.len() - 1 {
        lemma_count_one(times.drop_last(), t, i);
    }
}

} // verus!
