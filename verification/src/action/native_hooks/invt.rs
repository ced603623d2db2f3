//! `INVT`: invitations, to an action or to a community. `DEL` takes one back.
use crate::action::helpers::{self, SubscriptionRole};
use crate::action::hooks::HookContext;
use crate::action::native_hooks::conn;
use crate::action::native_hooks::plan::{
    self, aborting, attempt, doing, nothing, resting, Effect, HookPlan, NewAction, Party, PlanView,
    ProfileUpdate, ConnectionStatus,
};
use crate::action::subject_ref::{self, SubjectRef, SubjectView};
use crate::json::{self, Json, JsonView};
use crate::text;
use crate::types::{ActionView, Error, Patch};
use vstd::prelude::*;

verus! {

/// The community that a subject names; nothing where it names no identity.
pub fn community_id_tag_from_subject<'a>(subject: &'a str) -> (r: Option<&'a str>)
    ensures
        r.deep_view() == subject_ref::identity_of(subject@),
{
    match subject_ref::parse_subject_ref(subject) {
        Some(SubjectRef::Identity(id_tag)) => Some(id_tag),
        _ => None,
    }
}

/// Whether an issuer may invite into a community: the community itself may, and so may a
/// moderator of it. `moderator` is the verdict of the role rules on the roles that the issuer
/// has there, and false for a non-member.
pub fn community_invite_allowed(issuer: &str, community_tag: &str, moderator: bool) -> (r: bool)
    ensures
        r == (issuer@ == community_tag@ || moderator),
{
    text::same(issuer, community_tag) || moderator
}

/// Whether an issuer may take back an invitation: a moderator may take back any, and everybody
/// their own. `original_invt_issuer` is the issuer of the invitation on record.
pub fn community_revoke_allowed(
    issuer: &str,
    original_invt_issuer: Option<&str>,
    is_moderator: bool,
) -> (r: bool)
    ensures
        r == (is_moderator || original_invt_issuer.deep_view() == Some(issuer@)),
{
    is_moderator || text::is_text(original_invt_issuer, issuer)
}

/// Whether a subtype is the invitation itself or its revocation.
pub open spec fn known_subtype(subtype: Option<Seq<char>>) -> bool {
    subtype is None || subtype == Some("DEL"@)
}

pub fn community_invt_subtype_known(subtype: Option<&str>) -> (r: bool)
    ensures
        r == known_subtype(subtype.deep_view()),
{
    match subtype {
        None => true,
        Some(st) => text::same(st, "DEL"),
    }
}

/// Whether an action is an invitation to the community that this tenant is.
pub open spec fn community_invitation(
    action_type: Seq<char>,
    subject: Option<Seq<char>>,
    tenant_tag: Seq<char>,
) -> bool {
    helpers::base_type(action_type) == "INVT"@ && subject is Some && subject_ref::identity_of(
        subject->0,
    ) == Some(tenant_tag)
}

pub fn is_community_invt(action_type: &str, subject: Option<&str>, tenant_tag: &str) -> (r: bool)
    ensures
        r == community_invitation(action_type@, subject.deep_view(), tenant_tag@),
{
    let parts = helpers::extract_type_and_subtype(action_type);
    if !text::same(parts.0.as_str(), "INVT") {
        return false;
    }
    match subject {
        Some(s) => text::is_text(community_id_tag_from_subject(s), tenant_tag),
        None => false,
    }
}

/// The subtype of an action whose type may carry it: a separate one counts first.
pub open spec fn effective_subtype(typ: Seq<char>, sub_typ: Option<Seq<char>>) -> Option<
    Seq<char>,
> {
    if sub_typ is Some {
        sub_typ
    } else {
        helpers::sub_type(typ)
    }
}

/// Whether an actor has the authority for an invitation to, or a revocation in, the community
/// that this tenant is. Actions of any other kind need none.
pub open spec fn community_authority(
    tenant_tag: Seq<char>,
    typ: Seq<char>,
    sub_typ: Option<Seq<char>>,
    subject: Option<Seq<char>>,
    actor: Seq<char>,
    moderator: bool,
    original_issuer: Option<Seq<char>>,
) -> bool {
    !community_invitation(typ, subject, tenant_tag) || {
        let may_invite = actor == tenant_tag || moderator;
        let st = effective_subtype(typ, sub_typ);
        ||| st is None && may_invite
        ||| st == Some("DEL"@) && (may_invite || original_issuer == Some(actor))
    }
}

/// Admits an invitation to this community, or its revocation, before it is stored. `moderator`
/// is the verdict on the roles that the actor has here, and `original_issuer` the issuer of the
/// active invitation of the same invitee.
pub fn check_community_authority(
    tenant_tag: &str,
    typ: (&str, Option<&str>),
    subject: Option<&str>,
    actor: &str,
    moderator: bool,
    original_issuer: Option<&str>,
) -> (r: Result<(), Error>)
    ensures
        r is Ok <==> community_authority(
            tenant_tag@,
            typ.0@,
            typ.1.deep_view(),
            subject.deep_view(),
            actor@,
            moderator,
            original_issuer.deep_view(),
        ),
        r matches Err(e) ==> e is PermissionDenied,
{
    if !is_community_invt(typ.0, subject, tenant_tag) {
        return Ok(());
    }
    let parts = helpers::extract_type_and_subtype(typ.0);
    let subtype: Option<&str> = match typ.1 {
        Some(st) => Some(st),
        None => text::as_opt(&parts.1),
    };
    if !community_invt_subtype_known(subtype) {
        return Err(Error::PermissionDenied);
    }
    let may_invite = community_invite_allowed(actor, tenant_tag, moderator);
    let allowed = if subtype.is_none() {
        may_invite
    } else {
        community_revoke_allowed(actor, original_issuer, may_invite)
    };
    if allowed {
        Ok(())
    } else {
        Err(Error::PermissionDenied)
    }
}

/// Nobody but the community itself, a moderator of it, or the inviter who takes back their own
/// invitation gets past the check; an unknown subtype never does.
pub proof fn law_community_authority(
    tenant_tag: Seq<char>,
    typ: Seq<char>,
    sub_typ: Option<Seq<char>>,
    subject: Option<Seq<char>>,
    actor: Seq<char>,
    moderator: bool,
    original_issuer: Option<Seq<char>>,
)
    requires
        community_invitation(typ, subject, tenant_tag),
        community_authority(tenant_tag, typ, sub_typ, subject, actor, moderator, original_issuer),
    ensures
        actor == tenant_tag || moderator || (effective_subtype(typ, sub_typ) == Some("DEL"@)
            && original_issuer == Some(actor)),
        known_subtype(effective_subtype(typ, sub_typ)),
{
}

/// What creating an `INVT` does. An invitation to a community is judged where the community is;
/// one to an action asks for its creator, or for the role of a moderator.
pub open spec fn create_plan(
    ctx: HookContext,
    target: Option<ActionView>,
    subscription: Option<Option<JsonView>>,
) -> PlanView {
    if ctx.subject is None || ctx.audience is None {
        aborting(None)
    } else if subject_ref::identity_of(ctx.subject->0@) is Some {
        nothing()
    } else if target is None {
        aborting(None)
    } else if ctx.issuer@ == target->0.issuer.id_tag@ {
        nothing()
    } else if subscription is Some && subscription_role(subscription->0).rank()
        >= SubscriptionRole::Moderator.rank() {
        nothing()
    } else {
        aborting(None)
    }
}

/// The role in a subscription's metadata.
pub open spec fn subscription_role(x: Option<JsonView>) -> SubscriptionRole {
    match x {
        Some(v) => match v.text_member("role"@) {
            Some(name) => helpers::role_named(name),
            None => SubscriptionRole::Member,
        },
        None => SubscriptionRole::Member,
    }
}

/// Decides on an `INVT` created here. `target` is the action that the subject names, and
/// `subscription` the metadata of the issuer's subscription to it, where there is one.
pub fn on_create(
    ctx: &HookContext,
    target: Option<&ActionView>,
    subscription: Option<Option<&Json>>,
) -> (r: HookPlan)
    ensures
        r@ == create_plan(
            *ctx,
            helpers::opt_action(target),
            match subscription {
                Some(x) => Some(json::opt_json(x)),
                None => None,
            },
        ),
{
    proof {
        reveal_strlit("INVT");
        reveal_strlit("SUBS");
        reveal_strlit("CONV");
        assert("INVT"@[0] == 'I' && "SUBS"@[0] == 'S' && "CONV"@[0] == 'C');
    }
    let subject: &str = match &ctx.subject {
        Some(s) => s.as_str(),
        None => {
            return plan::abort(None);
        },
    };
    if ctx.audience.is_none() {
        return plan::abort(None);
    }
    if community_id_tag_from_subject(subject).is_some() {
        return plan::idle();
    }
    let target_action: &ActionView = match target {
        Some(t) => t,
        None => {
            return plan::abort(None);
        },
    };
    if text::same(ctx.issuer.as_str(), target_action.issuer.id_tag.as_str()) {
        return plan::idle();
    }
    match subscription {
        Some(x) => {
            let role = helpers::get_subscription_role(x);
            let required = SubscriptionRole::required_for_action("INVT", None);
            if role.at_least(required) {
                plan::idle()
            } else {
                plan::abort(None)
            }
        },
        None => plan::abort(None),
    }
}

/// Whether this tenant is the home of what an invitation is for: the community itself, or the
/// issuer of the action.
pub open spec fn is_home(
    subject: Option<Seq<char>>,
    tenant: Option<Seq<char>>,
    subject_issuer: Option<Seq<char>>,
) -> bool {
    subject is Some && tenant is Some && match subject_ref::subject_of(subject->0) {
        Some(SubjectView::Identity(id)) => id == tenant->0,
        Some(SubjectView::Action(_)) => subject_issuer == tenant,
        _ => false,
    }
}

pub open spec fn is_community_home(subject: Option<Seq<char>>, tenant: Option<Seq<char>>) -> bool {
    subject is Some && tenant is Some && subject_ref::identity_of(subject->0) == tenant
}

/// What receiving an `INVT` does: it stays active at the home, and waits for confirmation at
/// the invitee; a revocation of an invitation to this community retires the invitation, and an
/// unknown subtype is rejected.
pub open spec fn receive_plan(
    ctx: HookContext,
    tenant: Option<Seq<char>>,
    subject_issuer: Option<Seq<char>>,
) -> PlanView {
    if ctx.subtype is None {
        if is_home(ctx.subject.deep_view(), tenant, subject_issuer) {
            nothing()
        } else {
            resting(Some('C'))
        }
    } else if ctx.subtype->0@ == "DEL"@ {
        if is_community_home(ctx.subject.deep_view(), tenant) {
            doing(seq![attempt(Effect::RetireCommunityInvitations(Party::Audience))])
        } else {
            nothing()
        }
    } else {
        resting(Some('D'))
    }
}

/// Decides on an `INVT` that arrived. `tenant` is this tenant's identity, and `subject_issuer`
/// the issuer of the action that the subject names.
pub fn on_receive(ctx: &HookContext, tenant: Option<&str>, subject_issuer: Option<&str>) -> (r:
    HookPlan)
    ensures
        r@ == receive_plan(*ctx, tenant.deep_view(), subject_issuer.deep_view()),
{
    let mut community_home = false;
    let mut home = false;
    match (&ctx.subject, tenant) {
        (Some(s), Some(t)) => match subject_ref::parse_subject_ref(s.as_str()) {
            Some(SubjectRef::Identity(id)) => {
                community_home = text::same(id, t);
                home = community_home;
            },
            Some(SubjectRef::Action(_)) => {
                home = text::is_text(subject_issuer, t);
            },
            _ => {},
        },
        _ => {},
    }
    let mut p = plan::idle();
    match &ctx.subtype {
        None => {
            if !home {
                p.status = Some('C');
            }
        },
        Some(st) => {
            if text::same(st.as_str(), "DEL") {
                if community_home {
                    p.attempt(Effect::RetireCommunityInvitations(Party::Audience));
                }
            } else {
                p.status = Some('D');
            }
        },
    }
    p
}

/// What accepting an `INVT` does: for a community, the invitee records the connection and asks
/// for it there; for an action, the invitee subscribes to it.
pub open spec fn accept_plan(ctx: HookContext, target_found: bool) -> PlanView {
    if ctx.audience is None || ctx.subject is None {
        nothing()
    } else if subject_ref::identity_of(ctx.subject->0@) is Some {
        doing(
            seq![
                attempt(
                    Effect::UpsertProfile(Party::SubjectIdentity, conn::connect_update(ctx)),
                ),
                attempt(Effect::Create(NewAction::ConnectionRequest, Party::SubjectIdentity)),
            ],
        )
    } else if target_found {
        doing(seq![attempt(Effect::Create(NewAction::Membership, Party::SubjectIssuer))])
    } else {
        nothing()
    }
}

/// Decides on the acceptance of an `INVT`; `target_found` tells whether the action that the
/// subject names is on record.
pub fn on_accept(ctx: &HookContext, target_found: bool) -> (r: HookPlan)
    ensures
        r@ == accept_plan(*ctx, target_found),
{
    let mut p = plan::idle();
    if ctx.audience.is_none() {
        return p;
    }
    match &ctx.subject {
        Some(s) => {
            if community_id_tag_from_subject(s.as_str()).is_some() {
                p.attempt(
                    Effect::UpsertProfile(
                        Party::SubjectIdentity,
                        ProfileUpdate {
                            following: conn::following(ctx),
                            connected: Patch::Value(ConnectionStatus::Connected),
                            roles: Patch::Undefined,
                        },
                    ),
                );
                p.attempt(Effect::Create(NewAction::ConnectionRequest, Party::SubjectIdentity));
            } else if target_found {
                p.attempt(Effect::Create(NewAction::Membership, Party::SubjectIssuer));
            }
        },
        None => {},
    }
    p
}

} // verus!
