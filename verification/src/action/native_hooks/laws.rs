//! What the hooks of the built-in types do: who becomes connected, followed, subscribed or
//! invited, which counters are kept where, and what is shared.
use crate::action::helpers;
use crate::action::hooks::{ActionTypeHooks, HookContext};
use crate::action::native_hooks::plan::{
    created_action, find_referred, BaselineRole, ConnectionStatus, CounterUpdate, Effect, HookPlan,
    NewAction, OnFailure, Party, ProfileUpdate, Referred,
};
use crate::action::native_hooks::{
    cmnt, conn, fllw, fshr, idp, invt, msg, ownership, prinvt, react, registration, repost, stat,
    stat_emit, stat_emit_task, subs,
};
use crate::action::subject_ref;
use crate::action::task::CreateAction;
use crate::decimal;
use crate::json::{self, Json, JsonView};
use crate::types::{ActionView, Error, Patch, Timestamp, TnId};
use vstd::prelude::*;

verus! {

/// Whether a plan holds an effect.
pub open spec fn does(p: HookPlan, e: Effect) -> bool {
    exists|i: int| 0 <= i < p.steps@.len() && (#[trigger] p.steps@[i]).effect == e
}

/// Whether a plan changes no profile, creates nothing, and lets the action pass as it is.
pub open spec fn does_nothing(p: HookPlan) -> bool {
    p.steps@.len() == 0 && p.continue_processing && p.status is None
}

/// Whether a plan ends processing without doing anything.
pub open spec fn refuses(p: HookPlan) -> bool {
    p.steps@.len() == 0 && !p.continue_processing
}

/// Whether a failure of any step is passed over.
pub open spec fn is_lenient(p: HookPlan) -> bool {
    forall|i: int|
        0 <= i < p.steps@.len() ==> (#[trigger] p.steps@[i]).on_failure == OnFailure::Ignore
}

/// Whether a subtype is a given text.
pub open spec fn is_sub(ctx: HookContext, st: Seq<char>) -> bool {
    ctx.subtype is Some && ctx.subtype->0@ == st
}

/// Whether the tenant is a community.
pub open spec fn at_community(ctx: HookContext) -> bool {
    ctx.tenant_type@ == "community"@
}

/// The change that connects a profile; a person follows it too, a community does not.
pub open spec fn connecting(ctx: HookContext, roles: Patch<BaselineRole>) -> ProfileUpdate {
    ProfileUpdate {
        following: if at_community(ctx) {
            Patch::Undefined
        } else {
            Patch::Value(true)
        },
        connected: Patch::Value(ConnectionStatus::Connected),
        roles,
    }
}

proof fn lemma_subtypes()
    ensures
        "ACC"@ != "DEL"@,
        "UPD"@ != "DEL"@,
        "I"@ != "A"@,
{
    reveal_strlit("ACC");
    reveal_strlit("DEL");
    reveal_strlit("UPD");
    reveal_strlit("I");
    reveal_strlit("A");
    assert("ACC"@[0] == 'A' && "DEL"@[0] == 'D' && "UPD"@[0] == 'U');
    assert("I"@[0] == 'I' && "A"@[0] == 'A');
}

// ---------------------------------------------------------------------------------------------
// Connections
// ---------------------------------------------------------------------------------------------

/// To ask for a connection marks the other profile as asked, unless it is connected already; to
/// accept one connects it; to end one disconnects it and takes its roles, and a community then
/// retires its invitations. Nobody else's profile is touched, and nothing keeps the action from
/// going on.
pub proof fn law_connections_that_are_created(ctx: &HookContext, connected: bool, p: HookPlan)
    requires
        call_ensures(conn::on_create, (ctx, connected), p),
    ensures
        p.continue_processing && p.status is None && is_lenient(p),
        ctx.audience is None ==> does_nothing(p),
        ctx.audience is Some && ctx.subtype is None ==> p.steps@.len() == 2 && does(
            p,
            Effect::EnsureProfile(Party::Audience),
        ) && does(
            p,
            Effect::UpsertProfile(
                Party::Audience,
                ProfileUpdate {
                    following: if at_community(*ctx) {
                        Patch::Undefined
                    } else {
                        Patch::Value(true)
                    },
                    connected: if connected {
                        Patch::Undefined
                    } else {
                        Patch::Value(ConnectionStatus::RequestPending)
                    },
                    roles: Patch::Undefined,
                },
            ),
        ),
        ctx.audience is Some && is_sub(*ctx, "ACC"@) ==> p.steps@.len() == 1 && does(
            p,
            Effect::UpsertProfile(Party::Audience, connecting(*ctx, Patch::Undefined)),
        ),
        ctx.audience is Some && is_sub(*ctx, "DEL"@) ==> does(
            p,
            Effect::UpsertProfile(
                Party::Audience,
                ProfileUpdate {
                    following: Patch::Undefined,
                    connected: Patch::Null,
                    roles: Patch::Null,
                },
            ),
        ) && (does(p, Effect::RetireCommunityInvitations(Party::Audience)) <==> at_community(*ctx))
            && p.steps@.len() <= 2,
        ctx.subtype is Some && !is_sub(*ctx, "ACC"@) && !is_sub(*ctx, "DEL"@) ==> does_nothing(p),
{
    lemma_subtypes();
    if ctx.audience is Some {
        if ctx.subtype is None {
            assert(p.steps@[0].effect == Effect::EnsureProfile(Party::Audience));
            assert(p.steps@[1].effect is UpsertProfile);
        } else if is_sub(*ctx, "ACC"@) {
            assert(p.steps@[0].effect is UpsertProfile);
        } else if is_sub(*ctx, "DEL"@) {
            assert(p.steps@[0].effect is UpsertProfile);
            if at_community(*ctx) {
                assert(p.steps@[1].effect == Effect::RetireCommunityInvitations(Party::Audience));
            }
        }
    }
}

/// A request for a connection that arrives connects the two at once where both asked, where the
/// issuer was invited, and then with the role of a contributor and an answer, and where the
/// tenant accepts everybody; it is refused where the tenant ignores requests, and else waits
/// for confirmation.
pub proof fn law_requests_that_arrive(ctx: &HookContext, facts: &conn::ConnFacts, p: HookPlan)
    requires
        call_ensures(conn::on_receive, (ctx, facts), p),
        ctx.subtype is None,
    ensures
        ({
            let met = facts.our_request is Some && facts.our_request->0 is None;
            let invited = !met && facts.has_pending_invitation;
            let mode = facts.connection_mode.deep_view();
            let open = !met && !invited && mode == Some("A"@);
            let closed = !met && !invited && mode == Some("I"@);
            let plain = Effect::UpsertProfile(Party::Issuer, connecting(*ctx, Patch::Undefined));
            let member = Effect::UpsertProfile(
                Party::Issuer,
                connecting(*ctx, Patch::Value(BaselineRole::Contributor)),
            );
            let answer = Effect::Create(NewAction::ConnectionAcceptance, Party::Issuer);
            let history = Effect::ScheduleHistorySync(Party::Issuer);
            let retire = Effect::RetireCommunityInvitations(Party::Issuer);
            &&& is_lenient(p)
            &&& does(p, Effect::EnsureProfile(Party::Issuer))
            &&& does(p, plain) <==> met || open
            &&& does(p, member) <==> invited
            &&& does(p, answer) <==> invited || open
            &&& does(p, history) <==> met || invited || open
            &&& does(p, retire) <==> invited
            &&& p.continue_processing <==> !closed
            &&& p.status == (if closed {
                Some('D')
            } else if met || invited || open {
                None
            } else {
                Some('C')
            })
            &&& p.steps@.len() == (if met {
                3
            } else if invited {
                5
            } else if open {
                4
            } else {
                1int
            })
        }),
{
    lemma_subtypes();
    let met = facts.our_request is Some && facts.our_request->0 is None;
    assert(p.steps@[0].effect == Effect::EnsureProfile(Party::Issuer));
    if met {
        assert(p.steps@[1].effect is UpsertProfile);
        assert(p.steps@[2].effect is ScheduleHistorySync);
    } else if facts.has_pending_invitation {
        assert(p.steps@[1].effect is Create);
        assert(p.steps@[2].effect is UpsertProfile);
        assert(p.steps@[3].effect is ScheduleHistorySync);
        assert(p.steps@[4].effect is RetireCommunityInvitations);
    } else if facts.connection_mode.deep_view() == Some("A"@) {
        assert(p.steps@[1].effect is Create);
        assert(p.steps@[2].effect is UpsertProfile);
        assert(p.steps@[3].effect is ScheduleHistorySync);
    }
}

/// An acceptance that arrives connects the two exactly where this tenant asked for it, and is
/// refused otherwise; the end of a connection disconnects the issuer, and at a community retires
/// their invitations.
pub proof fn law_answers_that_arrive(ctx: &HookContext, facts: &conn::ConnFacts, p: HookPlan)
    requires
        call_ensures(conn::on_receive, (ctx, facts), p),
        ctx.subtype is Some,
    ensures
        is_lenient(p),
        is_sub(*ctx, "ACC"@) ==> {
            let asked = facts.our_request is Some && (facts.our_request->0 is None
                || facts.our_request->0->0@.len() == 0);
            &&& !asked ==> refuses(p) && p.status == Some('D')
            &&& asked ==> p.continue_processing && p.status is None && p.steps@.len() == 2 && does(
                p,
                Effect::UpsertProfile(Party::Issuer, connecting(*ctx, Patch::Undefined)),
            ) && does(p, Effect::ScheduleHistorySync(Party::Issuer))
        },
        is_sub(*ctx, "DEL"@) ==> p.continue_processing && p.status == Some('N') && p.steps@.len()
            <= 2 && does(
            p,
            Effect::UpsertProfile(
                Party::Issuer,
                ProfileUpdate {
                    following: Patch::Undefined,
                    connected: Patch::Null,
                    roles: Patch::Undefined,
                },
            ),
        ) && (does(p, Effect::RetireCommunityInvitations(Party::Issuer)) <==> at_community(*ctx)),
        !is_sub(*ctx, "ACC"@) && !is_sub(*ctx, "DEL"@) ==> does_nothing(p),
{
    lemma_subtypes();
    if is_sub(*ctx, "ACC"@) {
        if p.steps@.len() > 0 {
            assert(p.steps@[0].effect is UpsertProfile);
            assert(p.steps@[1].effect is ScheduleHistorySync);
        }
    } else if is_sub(*ctx, "DEL"@) {
        assert(p.steps@[0].effect is UpsertProfile);
        if at_community(*ctx) {
            assert(p.steps@[1].effect is RetireCommunityInvitations);
        }
    }
}

/// To accept a request is to answer it and to fetch the history of the other side; to reject it is to
/// neither follow them nor be connected, which has to succeed.
pub proof fn law_accepting_and_rejecting(a: HookPlan, r: HookPlan)
    requires
        call_ensures(conn::on_accept, (), a),
        call_ensures(conn::on_reject, (), r),
    ensures
        a.continue_processing && a.status is None && is_lenient(a) && a.steps@.len() == 2,
        does(a, Effect::Create(NewAction::ConnectionAcceptance, Party::Issuer)),
        does(a, Effect::ScheduleHistorySync(Party::Issuer)),
        r.continue_processing && r.status is None && r.steps@.len() == 1,
        r.steps@[0].on_failure == OnFailure::Fail,
        r.steps@[0].effect == Effect::UpsertProfile(
            Party::Issuer,
            ProfileUpdate {
                following: Patch::Value(false),
                connected: Patch::Value(ConnectionStatus::Disconnected),
                roles: Patch::Undefined,
            },
        ),
{
    assert(a.steps@[0].effect is Create);
    assert(a.steps@[1].effect is ScheduleHistorySync);
}

/// What a hook creates is addressed to whom it is for. The answer to a request comes from this
/// tenant; what follows up on an invitation comes from whoever was invited, and a membership is
/// about what they were invited to.
pub proof fn law_what_hooks_create(
    new: NewAction,
    ctx: &HookContext,
    to: &str,
    r: (String, CreateAction),
)
    requires
        call_ensures(created_action, (new, ctx, to), r),
    ensures
        r.1.audience_tag is Some && r.1.audience_tag->0@ == to@,
        new == NewAction::ConnectionAcceptance ==> r.0@ == ctx.tenant_tag@ && r.1.typ@ == "CONN"@
            && r.1.sub_typ is Some && r.1.sub_typ->0@ == "ACC"@ && r.1.subject is None,
        new == NewAction::ConnectionRequest ==> r.1.typ@ == "CONN"@ && r.1.sub_typ is None
            && r.1.subject is None,
        new == NewAction::Membership ==> r.1.typ@ == "SUBS"@ && r.1.sub_typ is None
            && r.1.subject.deep_view() == ctx.subject.deep_view() && r.1.x is Some
            && r.1.x->0@.member("role"@) == Some(JsonView::Text("member"@)),
        new != NewAction::ConnectionAcceptance && ctx.audience is Some ==> r.0@ == ctx.audience->0@,
        new != NewAction::ConnectionAcceptance && ctx.audience is None ==> r.0@ == ctx.tenant_tag@,
        new != NewAction::Membership ==> r.1.x is None,
        r.1.parent_id is None && r.1.content is None && r.1.visibility is None,
{
    assert(r.1.audience_tag.deep_view() == Some(to@));
    assert(r.1.sub_typ.deep_view() is None <==> r.1.sub_typ is None);
    assert(r.1.subject.deep_view() is None <==> r.1.subject is None);
    if r.1.sub_typ is Some {
        assert(r.1.sub_typ.deep_view() == Some(r.1.sub_typ->0@));
    }
    reveal_with_fuel(json::last_named, 2);
}

/// The keys of connections, invitations and subscriptions tell who and what they are about.
pub proof fn law_relation_keys(
    a: &str,
    b: &str,
    connection: String,
    invitation: String,
    subscription: String,
    community: String,
)
    requires
        call_ensures(conn::connection_key, (a, b), connection),
        call_ensures(subs::invitation_key, (a, b), invitation),
        call_ensures(subs::subscription_key, (a, b), subscription),
        call_ensures(conn::community_subject, (a,), community),
    ensures
        connection@ == "CONN:"@ + a@ + ":"@ + b@,
        invitation@ == "INVT:"@ + a@ + ":"@ + b@,
        subscription@ == "SUBS:"@ + a@ + ":"@ + b@,
        community@ == seq!['@'] + a@,
{
}

/// Following marks the other profile as followed and fetches their history; to stop takes the mark
/// away; neither touches the connection. A tenant that takes no followers marks what arrives as
/// deleted and lets it pass, and otherwise gets to know a new follower.
pub proof fn law_following(
    ctx: &HookContext,
    allowed: bool,
    c: HookPlan,
    r: HookPlan,
)
    requires
        call_ensures(fllw::on_create, (ctx,), c),
        call_ensures(fllw::on_receive, (ctx, allowed), r),
    ensures
        c.continue_processing && c.status is None && is_lenient(c),
        r.continue_processing && r.status is None && is_lenient(r),
        ctx.audience is None ==> does_nothing(c),
        ctx.audience is Some && ctx.subtype is None ==> c.steps@.len() == 3 && does(
            c,
            Effect::EnsureProfile(Party::Audience),
        ) && does(
            c,
            Effect::UpsertProfile(
                Party::Audience,
                ProfileUpdate {
                    following: Patch::Value(true),
                    connected: Patch::Undefined,
                    roles: Patch::Undefined,
                },
            ),
        ) && does(c, Effect::ScheduleHistorySync(Party::Audience)),
        ctx.audience is Some && is_sub(*ctx, "DEL"@) ==> c.steps@.len() == 1 && does(
            c,
            Effect::UpsertProfile(
                Party::Audience,
                ProfileUpdate {
                    following: Patch::Null,
                    connected: Patch::Undefined,
                    roles: Patch::Undefined,
                },
            ),
        ),
        ctx.subtype is Some && !is_sub(*ctx, "DEL"@) ==> does_nothing(c),
        !allowed ==> r.steps@.len() == 1 && does(r, Effect::SetStatus('D')),
        allowed && ctx.subtype is None ==> r.steps@.len() == 1 && does(
            r,
            Effect::EnsureProfile(Party::Issuer),
        ),
        allowed && ctx.subtype is Some ==> does_nothing(r),
{
    if c.steps@.len() > 0 {
        assert(c.steps@[0].effect is EnsureProfile || c.steps@[0].effect is UpsertProfile);
    }
    if c.steps@.len() == 3 {
        assert(c.steps@[1].effect is UpsertProfile);
        assert(c.steps@[2].effect is ScheduleHistorySync);
    }
    if r.steps@.len() > 0 {
        assert(r.steps@[0].effect is SetStatus || r.steps@[0].effect is EnsureProfile);
    }
}

// ---------------------------------------------------------------------------------------------
// Subscriptions and invitations
// ---------------------------------------------------------------------------------------------

/// A subscription that arrives is admitted exactly where its target is open or the issuer was
/// invited, which uses the invitation up, or the issuer made the target, or its owner vouches for it;
/// else it rests as deleted. An update needs an active subscription. Leaving is always possible.
/// Without a subject on record nothing goes on.
pub proof fn law_subscriptions_that_arrive(ctx: &HookContext, facts: &subs::SubsFacts, p: HookPlan)
    requires
        call_ensures(subs::on_receive, (ctx, facts), p),
    ensures
        is_lenient(p),
        ctx.subject is None || facts.target is None ==> refuses(p) && p.status is None,
        ctx.subject is Some && facts.target is Some ==> {
            let t = *facts.target->0;
            let open = t.flags is Some && t.flags->0@.contains('O');
            let retire = Effect::RetireSubjectInvitations(Party::Issuer);
            &&& ctx.subtype is None ==> {
                &&& p.continue_processing
                &&& p.status == (if open || facts.invited || ctx.issuer@ == t.issuer.id_tag@
                    || ctx.pre_approved {
                    None
                } else {
                    Some('D')
                })
                &&& does(p, retire) <==> open || facts.invited
                &&& p.steps@.len() <= 1
                &&& p.steps@.len() == 0 <==> !does(p, retire)
            }
            &&& is_sub(*ctx, "UPD"@) ==> {
                let active = facts.subscribed && facts.subscription is Some
                    && facts.subscription->0.status is Some
                    && facts.subscription->0.status->0@.len() > 0
                    && facts.subscription->0.status->0@[0] == 'A';
                &&& active ==> does_nothing(p)
                &&& !active ==> refuses(p) && p.status == Some('D')
            }
            &&& is_sub(*ctx, "DEL"@) ==> p.continue_processing && p.status is None && p.steps@.len()
                == 1 && does(p, retire)
            &&& ctx.subtype is Some && !is_sub(*ctx, "UPD"@) && !is_sub(*ctx, "DEL"@)
                ==> does_nothing(p)
        },
{
    lemma_subtypes();
    if facts.target is Some && facts.target->0.flags is Some {
        assert(facts.target->0.flags.deep_view() == Some(facts.target->0.flags->0@));
    }
    if p.steps@.len() > 0 {
        assert(p.steps@[0].effect == Effect::RetireSubjectInvitations(Party::Issuer));
    }
}

/// A subscription is created only to something on record, and one's end uses up the invitations to
/// it.
pub proof fn law_subscriptions_that_are_created(ctx: &HookContext, found: bool, p: HookPlan)
    requires
        call_ensures(subs::on_create, (ctx, found), p),
    ensures
        ctx.subject is None || !found ==> refuses(p),
        ctx.subject is Some && found ==> p.continue_processing && p.status is None && (if is_sub(
            *ctx,
            "DEL"@,
        ) {
            p.steps@.len() == 1 && does(p, Effect::RetireSubjectInvitations(Party::Issuer))
        } else {
            does_nothing(p)
        }),
{
    if ctx.subtype is Some {
        assert(ctx.subtype.deep_view() == Some(ctx.subtype->0@));
    }
    if p.steps@.len() > 0 {
        assert(p.steps@[0].effect == Effect::RetireSubjectInvitations(Party::Issuer));
    }
}

/// An invitation is created with a subject and somebody invited. To a community it is judged there;
/// to an action it takes the action's creator, or a subscriber whose role is that of a moderator
/// at least: without a role on record one is a member, and cannot invite.
pub proof fn law_invitations_that_are_created(
    ctx: &HookContext,
    target: Option<&ActionView>,
    subscription: Option<Option<&Json>>,
    p: HookPlan,
)
    requires
        call_ensures(invt::on_create, (ctx, target, subscription), p),
    ensures
        does_nothing(p) || (refuses(p) && p.status is None),
        ctx.subject is None || ctx.audience is None ==> refuses(p),
        ctx.subject is Some && ctx.audience is Some ==> {
            let community = subject_ref::identity_of(ctx.subject->0@) is Some;
            &&& community ==> does_nothing(p)
            &&& !community && target is None ==> refuses(p)
            &&& !community && target is Some && ctx.issuer@ == target->0.issuer.id_tag@
                ==> does_nothing(p)
            &&& !community && target is Some && ctx.issuer@ != target->0.issuer.id_tag@
                && subscription is None ==> refuses(p)
            &&& !community && target is Some && ctx.issuer@ != target->0.issuer.id_tag@
                && subscription == Some(None::<&Json>) ==> refuses(p)
            &&& (!community && target is Some && ctx.issuer@ != target->0.issuer.id_tag@ && (
            subscription matches Some(Some(x)) && x@.member("role"@) is None)) ==> refuses(p)
        },
{
}

/// An invitation that arrives rests at the home of what it is for and waits for confirmation
/// anywhere else. One that is taken back is retired at the community that it is for. A subtype of
/// another sort is deleted.
pub proof fn law_invitations_that_arrive(
    ctx: &HookContext,
    tenant: &str,
    owner: Option<&str>,
    p: HookPlan,
)
    requires
        call_ensures(invt::on_receive, (ctx, Some(tenant), owner), p),
        ctx.subject is Some,
    ensures
        ({
            let s = subject_ref::subject_of(ctx.subject->0@);
            let community = s == Some(subject_ref::SubjectView::Identity(tenant@));
            let home = community || ((s matches Some(subject_ref::SubjectView::Action(_))) && owner is Some
                && owner->0@ == tenant@);
            &&& p.continue_processing && is_lenient(p)
            &&& ctx.subtype is None ==> p.steps@.len() == 0 && p.status == (if home {
                None
            } else {
                Some('C')
            })
            &&& is_sub(*ctx, "DEL"@) ==> p.status is None && (does(
                p,
                Effect::RetireCommunityInvitations(Party::Audience),
            ) <==> community) && p.steps@.len() <= 1
            &&& ctx.subtype is Some && !is_sub(*ctx, "DEL"@) ==> p.steps@.len() == 0 && p.status
                == Some('D')
        }),
{
    assert(Some(tenant).deep_view() == Some(tenant@));
    if owner is Some {
        assert(owner.deep_view() == Some(owner->0@));
    }
    if p.steps@.len() > 0 {
        assert(p.steps@[0].effect == Effect::RetireCommunityInvitations(Party::Audience));
    }
}

/// To accept an invitation to a community is to record the connection and to ask for it there; to
/// accept one to an action on record is to become a member of it.
pub proof fn law_invitations_that_are_accepted(ctx: &HookContext, found: bool, p: HookPlan)
    requires
        call_ensures(invt::on_accept, (ctx, found), p),
    ensures
        p.continue_processing && p.status is None && is_lenient(p),
        ctx.audience is None || ctx.subject is None ==> does_nothing(p),
        ctx.audience is Some && ctx.subject is Some && subject_ref::identity_of(
            ctx.subject->0@,
        ) is Some ==> p.steps@.len() == 2 && does(
            p,
            Effect::UpsertProfile(Party::SubjectIdentity, connecting(*ctx, Patch::Undefined)),
        ) && does(p, Effect::Create(NewAction::ConnectionRequest, Party::SubjectIdentity)),
        ctx.audience is Some && ctx.subject is Some && subject_ref::identity_of(
            ctx.subject->0@,
        ) is None && found ==> p.steps@.len() == 1 && does(
            p,
            Effect::Create(NewAction::Membership, Party::SubjectIssuer),
        ),
        ctx.subject is Some && subject_ref::identity_of(ctx.subject->0@) is None && !found
            ==> does_nothing(p),
{
    if p.steps@.len() > 0 {
        assert(p.steps@[0].effect is UpsertProfile || p.steps@[0].effect is Create);
    }
    if p.steps@.len() == 2 {
        assert(p.steps@[1].effect is Create);
    }
}

/// Into a community only the community itself and its moderators invite; an invitation is taken
/// back by them or by whoever sent it; nothing else is let through. Actions of other sorts need no
/// such authority.
pub proof fn law_authority_in_a_community(
    tenant: &str,
    typ: &str,
    sub_typ: Option<&str>,
    subject: &str,
    actor: &str,
    moderator: bool,
    sender: Option<&str>,
    r: Result<(), Error>,
    invites: bool,
)
    requires
        call_ensures(
            invt::check_community_authority,
            (tenant, (typ, sub_typ), Some(subject), actor, moderator, sender),
            r,
        ),
        call_ensures(invt::is_community_invt, (typ, Some(subject), tenant), invites),
    ensures
        invites <==> helpers::base_type(typ@) == "INVT"@ && subject_ref::identity_of(subject@) == Some(
            tenant@,
        ),
        !invites ==> r is Ok,
        invites && typ@ == "INVT"@ && sub_typ is None ==> (r is Ok <==> actor@ == tenant@ || moderator),
        invites && sub_typ is Some && sub_typ->0@ == "DEL"@ ==> (r is Ok <==> actor@ == tenant@
            || moderator || (sender is Some && sender->0@ == actor@)),
        invites && sub_typ is Some && sub_typ->0@ != "DEL"@ ==> r is Err,
        r is Err ==> r->Err_0 is PermissionDenied,
{
    assert(Some(subject).deep_view() == Some(subject@));
    if sub_typ is Some {
        assert(sub_typ.deep_view() == Some(sub_typ->0@));
    }
    if sender is Some {
        assert(sender.deep_view() == Some(sender->0@));
    }
    if typ@ == "INVT"@ {
        reveal_strlit("INVT");
        assert forall|k: int| 0 <= k < 4 implies "INVT"@[k] != ':' by {}
        assert("INVT"@.len() == 4);
        assert(!"INVT"@.contains(':'));
        helpers::law_type_round_trip("INVT"@, Seq::empty());
    }
}

/// An invitation to create a profile waits for confirmation.
pub proof fn law_profile_invitations(p: HookPlan)
    requires
        call_ensures(prinvt::on_receive, (), p),
    ensures
        p.steps@.len() == 0 && p.continue_processing && p.status == Some('C'),
{
}

// ---------------------------------------------------------------------------------------------
// Counters
// ---------------------------------------------------------------------------------------------

/// The counters of an action are kept at its audience, and without one at its issuer.
pub proof fn law_who_owns_an_action(a: &ActionView, tenant: &str, owner: &str, owns: bool)
    requires
        call_ensures(ownership::authoritative_owner, (a,), owner),
        call_ensures(ownership::owns_subject, (a, tenant), owns),
    ensures
        a.audience is Some ==> owner@ == a.audience->0.id_tag@,
        a.audience is None ==> owner@ == a.issuer.id_tag@,
        owns <==> owner@ == tenant@,
{
}

/// An action can be answered at the tenant that it belongs to, or by the tenant itself, and there by
/// a moderator or by whom it is addressed to.
pub proof fn law_who_answers_an_action(
    a: &ActionView,
    tenant: &str,
    caller: &str,
    moderator: bool,
    applicable: bool,
    authority: bool,
)
    requires
        call_ensures(ownership::accept_applicable, (a, tenant, caller), applicable),
        call_ensures(ownership::accept_authority, (a, caller, moderator), authority),
    ensures
        caller@ == tenant@ ==> applicable,
        a.audience is Some && a.audience->0.id_tag@ == tenant@ ==> applicable,
        a.audience is None && a.issuer.id_tag@ == tenant@ ==> applicable,
        a.audience is Some && a.audience->0.id_tag@ != tenant@ && caller@ != tenant@ ==> !applicable,
        moderator ==> authority,
        a.audience is Some && a.audience->0.id_tag@ == caller@ ==> authority,
        !moderator && (a.audience is None || a.audience->0.id_tag@ != caller@) ==> !authority,
{
}

/// The counters that a number of comments and the time of the newest of them come to.
pub open spec fn comments_of(stats: (u32, i64)) -> CounterUpdate {
    CounterUpdate {
        comments: Patch::Value(stats.0),
        comments_ts: if stats.1 > 0 {
            Patch::Value(Timestamp(stats.1))
        } else {
            Patch::Null
        },
        reposts: Patch::Undefined,
    }
}

/// A comment writes the counters of its parent and tells its followers exactly at the tenant that
/// keeps them. A comment that is created follows the thread, unless it takes one back; one that
/// arrives, where the counters are kept.
pub proof fn law_comments_keep_counters(
    ctx: &HookContext,
    parent: Option<&ActionView>,
    stats: (u32, i64),
    counts: bool,
    c: HookPlan,
    r: HookPlan,
)
    requires
        call_ensures(cmnt::recounts, (ctx, parent), counts),
        call_ensures(cmnt::on_create, (ctx, parent, stats), c),
        call_ensures(cmnt::on_receive, (ctx, parent, stats), r),
    ensures
        ({
            let known = ctx.parent is Some && parent is Some;
            let owner = if parent->0.audience is Some {
                parent->0.audience->0.id_tag@
            } else {
                parent->0.issuer.id_tag@
            };
            let write = Effect::UpdateCounters(Referred::Parent, comments_of(stats));
            let tell = Effect::EmitStat(Referred::Parent);
            let track = Effect::AutoTrackRoot(Referred::Parent);
            &&& counts <==> known && owner == ctx.tenant_tag@
            &&& c.continue_processing && c.status is None && r.continue_processing && r.status is None
            &&& does(c, write) <==> counts
            &&& does(c, tell) <==> counts
            &&& does(c, track) <==> known && !is_sub(*ctx, "DEL"@)
            &&& does(r, write) <==> counts
            &&& does(r, tell) <==> counts
            &&& does(r, track) <==> counts
            &&& r.steps@.len() == (if counts {
                3int
            } else {
                0
            })
            &&& c.steps@.len() == (if counts {
                2int
            } else {
                0
            }) + (if known && !is_sub(*ctx, "DEL"@) {
                1int
            } else {
                0
            })
        }),
{
    if ctx.subtype is Some {
        assert(ctx.subtype.deep_view() == Some(ctx.subtype->0@));
    }
    let n = c.steps@.len();
    if n == 1 {
        assert(c.steps@[0].effect is AutoTrackRoot);
    }
    if n >= 2 {
        assert(c.steps@[n - 2].effect is UpdateCounters);
        assert(c.steps@[n - 1].effect is EmitStat);
    }
    if n == 3 {
        assert(c.steps@[0].effect is AutoTrackRoot);
    }
    if r.steps@.len() > 0 {
        assert(r.steps@[0].effect is UpdateCounters);
        assert(r.steps@[1].effect is EmitStat);
        assert(r.steps@[2].effect is AutoTrackRoot);
    }
}

/// A reaction writes the reactions of its subject and tells its followers exactly at the tenant that
/// keeps them, and follows the thread unless it takes one back.
pub proof fn law_reactions_keep_counters(
    ctx: &HookContext,
    subject: Option<&ActionView>,
    reactions: String,
    counts: bool,
    c: HookPlan,
    r: HookPlan,
)
    requires
        call_ensures(react::recounts, (ctx, subject), counts),
        call_ensures(react::on_create, (ctx, subject, reactions), c),
        call_ensures(react::on_receive, (ctx, subject, reactions), r),
    ensures
        ({
            let known = ctx.subject is Some && subject is Some;
            let owner = if subject->0.audience is Some {
                subject->0.audience->0.id_tag@
            } else {
                subject->0.issuer.id_tag@
            };
            let write = Effect::UpdateReactions(Referred::Subject, reactions);
            let tell = Effect::EmitStat(Referred::Subject);
            let track = Effect::AutoTrackRoot(Referred::Subject);
            &&& counts <==> known && owner == ctx.tenant_tag@
            &&& c.continue_processing && c.status is None && r.continue_processing && r.status is None
            &&& does(c, write) <==> counts
            &&& does(c, tell) <==> counts
            &&& does(c, track) <==> known && !is_sub(*ctx, "DEL"@)
            &&& does(r, write) <==> counts
            &&& does(r, tell) <==> counts
            &&& does(r, track) <==> counts && !is_sub(*ctx, "DEL"@)
        }),
{
    if ctx.subtype is Some {
        assert(ctx.subtype.deep_view() == Some(ctx.subtype->0@));
    }
    let n = c.steps@.len();
    if n == 1 {
        assert(c.steps@[0].effect is AutoTrackRoot);
    }
    if n >= 2 {
        assert(c.steps@[n - 2].effect is UpdateReactions);
        assert(c.steps@[n - 1].effect is EmitStat);
    }
    if n == 3 {
        assert(c.steps@[0].effect is AutoTrackRoot);
    }
    if r.steps@.len() > 0 {
        assert(r.steps@[0].effect is UpdateReactions);
        assert(r.steps@[1].effect is EmitStat);
    }
    if r.steps@.len() == 3 {
        assert(r.steps@[2].effect is AutoTrackRoot);
    }
}

/// A message counts for the conversation that it is in, at the tenant that keeps its counters; a
/// message under another message does not. Created or arrived, it does the same.
pub proof fn law_messages_keep_counters(
    ctx: &HookContext,
    parent: Option<&ActionView>,
    stats: (u32, i64),
    c: HookPlan,
    r: HookPlan,
)
    requires
        call_ensures(msg::on_create, (ctx, parent, stats), c),
        call_ensures(msg::on_receive, (ctx, parent, stats), r),
    ensures
        ({
            let owner = if parent->0.audience is Some {
                parent->0.audience->0.id_tag@
            } else {
                parent->0.issuer.id_tag@
            };
            let counts = ctx.parent is Some && parent is Some && parent->0.typ@ == "CONV"@ && owner
                == ctx.tenant_tag@;
            &&& does(c, Effect::UpdateCounters(Referred::Parent, comments_of(stats))) <==> counts
            &&& does(c, Effect::EmitStat(Referred::Parent)) <==> counts
            &&& !counts ==> does_nothing(c)
            &&& c.continue_processing && c.status is None
            &&& r@ == c@
        }),
{
    if c.steps@.len() > 0 {
        assert(c.steps@[0].effect is UpdateCounters);
        assert(c.steps@[1].effect is EmitStat);
    }
}

/// A repost writes the number of reposts of its subject and tells its followers exactly at the tenant
/// that keeps it. Created or arrived, it does the same.
pub proof fn law_reposts_keep_counters(
    ctx: &HookContext,
    subject: Option<&ActionView>,
    count: i64,
    c: HookPlan,
    r: HookPlan,
)
    requires
        call_ensures(repost::on_create, (ctx, subject, count), c),
        call_ensures(repost::on_receive, (ctx, subject, count), r),
    ensures
        ({
            let owner = if subject->0.audience is Some {
                subject->0.audience->0.id_tag@
            } else {
                subject->0.issuer.id_tag@
            };
            let counts = ctx.subject is Some && subject is Some && owner == ctx.tenant_tag@;
            &&& counts && 0 <= count <= u32::MAX ==> does(
                c,
                Effect::UpdateCounters(
                    Referred::Subject,
                    CounterUpdate {
                        comments: Patch::Undefined,
                        comments_ts: Patch::Undefined,
                        reposts: Patch::Value(count as u32),
                    },
                ),
            )
            &&& does(c, Effect::EmitStat(Referred::Subject)) <==> counts
            &&& !counts ==> does_nothing(c)
            &&& c.continue_processing && c.status is None
            &&& r@ == c@
        }),
{
    if c.steps@.len() > 0 {
        assert(c.steps@[0].effect is UpdateCounters);
        assert(c.steps@[1].effect is EmitStat);
    }
}

/// What refers to a subject or a parent finds its id.
pub proof fn law_references_are_found(ctx: &HookContext, s: Option<&str>, p: Option<&str>)
    requires
        call_ensures(find_referred, (ctx, Referred::Subject), s),
        call_ensures(find_referred, (ctx, Referred::Parent), p),
    ensures
        s.deep_view() == ctx.subject.deep_view(),
        p.deep_view() == ctx.parent.deep_view(),
{
}

/// A count of comments does not depend on deletion markers, adds up over groups, and is told as
/// it is where it fits.
pub proof fn law_live_counts(a: Seq<(Option<String>, i64)>, b: Seq<(Option<String>, i64)>)
    ensures
        cmnt::live_total(a + b) == cmnt::live_total(a) + cmnt::live_total(b),
        a.len() == 1 && a[0].0.deep_view() == Some("DEL"@) ==> cmnt::live_total(a) == 0,
        a.len() == 1 && a[0].0.deep_view() != Some("DEL"@) ==> cmnt::live_total(a) == a[0].1,
        a.len() == 0 ==> cmnt::live_total(a) == 0,
    decreases b.len(),
{
    reveal_with_fuel(cmnt::live_total, 2);
    if b.len() == 0 {
        assert(a + b =~= a);
    } else {
        assert((a + b).drop_last() =~= a + b.drop_last());
        assert((a + b).last() == b.last());
        law_live_counts(a, b.drop_last());
    }
}

/// The comments that are counted are those on record, at the time of the newest.
pub proof fn law_recounted_comments(
    groups: &Vec<(Option<String>, i64)>,
    newest: Option<Timestamp>,
    r: (u32, i64),
)
    requires
        call_ensures(cmnt::recompute_comment_stats, (groups, newest), r),
    ensures
        0 <= cmnt::live_total(groups@) <= u32::MAX ==> r.0 == cmnt::live_total(groups@),
        newest is Some ==> r.1 == (newest->0).0,
        newest is None ==> r.1 == 0,
{
}

/// Reactions are counted per kind: groups of a known kind that are no deletion markers, each with its
/// letter and its number, in their order; their total is the sum of the numbers.
pub proof fn law_counted_reactions(
    groups: &Vec<react::ReactionGroup>,
    r: (Vec<(char, u32)>, u32),
    i: int,
)
    requires
        call_ensures(react::count_reactions, (groups,), r),
    ensures
        r.0@.len() <= groups@.len(),
        (0 <= i < groups@.len() && groups@[i].sub_type is Some && groups@[i].sub_type->0@ != "DEL"@
            && groups@[i].key is Some && 0 <= groups@[i].count <= u32::MAX) ==> r.0@.contains(
            (groups@[i].key->0, groups@[i].count as u32),
        ),
        0 <= i < r.0@.len() ==> exists|k: int|
            0 <= k < groups@.len() && (#[trigger] groups@[k]).sub_type is Some
                && groups@[k].sub_type->0@ != "DEL"@ && groups@[k].key == Some(r.0@[i].0) && (0
                <= groups@[k].count <= u32::MAX ==> r.0@[i].1 == groups@[k].count),
        0 <= i < r.0@.len() ==> r.1 >= r.0@[i].1,
        r.0@.len() == 0 ==> r.1 == 0,
        r.0@.len() == 1 ==> r.1 == r.0@[0].1,
        (r.0@.len() == 2 && r.0@[0].1 + r.0@[1].1 <= u32::MAX) ==> r.1 == r.0@[0].1 + r.0@[1].1,
{
    lemma_kind_counts(groups@, i);
    lemma_capped_total(r.0@);
    reveal_with_fuel(react::capped_total, 3);
    if r.0@.len() == 2 {
        assert(r.0@.drop_last()[0] == r.0@[0]);
        assert(r.0@.drop_last().last() == r.0@[0]);
    }
}

proof fn lemma_capped_total(counts: Seq<(char, u32)>)
    ensures
        0 <= react::capped_total(counts) <= u32::MAX,
        forall|i: int|
            0 <= i < counts.len() ==> react::capped_total(counts) >= (#[trigger] counts[i]).1,
    decreases counts.len(),
{
    if counts.len() > 0 {
        let rest = counts.drop_last();
        lemma_capped_total(rest);
        assert forall|i: int| 0 <= i < counts.len() implies react::capped_total(counts) >= (
        #[trigger] counts[i]).1 by {
            if i < rest.len() {
                assert(rest[i] == counts[i]);
            }
        }
    }
}

proof fn lemma_kind_counts(groups: Seq<react::ReactionGroup>, i: int)
    ensures
        react::kind_counts(groups).len() <= groups.len(),
        (0 <= i < groups.len() && groups[i].sub_type is Some && groups[i].sub_type->0@ != "DEL"@
            && groups[i].key is Some && 0 <= groups[i].count <= u32::MAX) ==> react::kind_counts(
            groups,
        ).contains((groups[i].key->0, groups[i].count as u32)),
        0 <= i < react::kind_counts(groups).len() ==> exists|k: int|
            0 <= k < groups.len() && (#[trigger] groups[k]).sub_type is Some
                && groups[k].sub_type->0@ != "DEL"@ && groups[k].key == Some(
                react::kind_counts(groups)[i].0,
            ) && (0 <= groups[k].count <= u32::MAX ==> react::kind_counts(groups)[i].1
                == groups[k].count),
    decreases groups.len(),
{
    if groups.len() > 0 {
        let rest = groups.drop_last();
        let before = react::kind_counts(rest);
        let now = react::kind_counts(groups);
        lemma_kind_counts(rest, i);
        if 0 <= i < groups.len() && groups[i].sub_type is Some && groups[i].sub_type->0@ != "DEL"@
            && groups[i].key is Some && 0 <= groups[i].count <= u32::MAX {
            let x = (groups[i].key->0, groups[i].count as u32);
            if i < rest.len() {
                assert(before.contains(x));
                let j = choose|j: int| 0 <= j < before.len() && before[j] == x;
                assert(now[j] == x);
            } else {
                assert(now[now.len() - 1] == x);
            }
        }
        if 0 <= i < now.len() {
            if i < before.len() {
                let k = choose|k: int|
                    0 <= k < rest.len() && (#[trigger] rest[k]).sub_type is Some
                        && rest[k].sub_type->0@ != "DEL"@ && rest[k].key == Some(before[i].0) && (0
                        <= rest[k].count <= u32::MAX ==> before[i].1 == rest[k].count);
                assert(groups[k] == rest[k]);
            } else {
                assert(groups[groups.len() - 1].sub_type is Some);
            }
        }
    }
}

// ---------------------------------------------------------------------------------------------
// Statistics
// ---------------------------------------------------------------------------------------------

/// Statistics are applied exactly where they come from the tenant that keeps the counters, which is
/// another one, are newer than the last ones and state something; and then every counter that they
/// state is taken as it is.
pub proof fn law_statistics_that_arrive(
    ctx: &HookContext,
    subject: Option<&ActionView>,
    last: Option<i64>,
    normalized: &str,
    r: stat::StatPlan,
)
    requires
        call_ensures(stat::on_receive, (ctx, subject, last, normalized), r),
    ensures
        r.mirror is Some ==> {
            let a = *subject->0;
            let owner = if a.audience is Some {
                a.audience->0.id_tag@
            } else {
                a.issuer.id_tag@
            };
            &&& ctx.content is Some && ctx.parent is Some && subject is Some
            &&& ctx.issuer@ == owner && owner != ctx.tenant_tag@
            &&& last is Some ==> r.mirror->0.stat_at > last->0
            &&& decimal::signed_of(ctx.created_at@) == Some(r.mirror->0.stat_at as int)
            &&& ctx.content->0@.member("r"@) matches Some(JsonView::Text(s))
                ==> r.mirror->0.reactions.deep_view() == Some(s)
            &&& ctx.content->0@.member("r"@) is None ==> r.mirror->0.reactions is None
            &&& (ctx.content->0@.member("c"@) matches Some(JsonView::Unsigned(n)) && n <= u32::MAX)
                ==> r.mirror->0.comments == Some(
                ctx.content->0@.member("c"@)->0->Unsigned_0 as u32,
            )
            &&& ctx.content->0@.member("c"@) is None ==> r.mirror->0.comments is None
            &&& (ctx.content->0@.member("rp"@) matches Some(JsonView::Unsigned(n)) && n <= u32::MAX)
                ==> r.mirror->0.reposts == Some(
                ctx.content->0@.member("rp"@)->0->Unsigned_0 as u32,
            )
            &&& ctx.content->0@.member("rp"@) is None ==> r.mirror->0.reposts is None
            &&& ctx.content->0@.member("ct"@) is None ==> r.mirror->0.comments_ts
                == Patch::<Timestamp>::Undefined
        },
        (ctx.content is Some && ctx.parent is Some && subject is Some && subject->0.audience is None
            && ctx.issuer@ == subject->0.issuer.id_tag@ && ctx.issuer@ != ctx.tenant_tag@
            && last is None && decimal::signed_of(ctx.created_at@) is Some && decimal::signed_of(
            ctx.created_at@,
        )->0 > i64::MIN && (ctx.content->0@.member("c"@) matches Some(JsonView::Unsigned(_))))
            ==> r.mirror is Some,
        r.content is Some ==> ctx.content is Some && (ctx.content->0@.member("r"@) matches Some(
            JsonView::Text(s),
        ) && s != normalized@),
        (ctx.content is Some && ctx.parent is Some && (ctx.content->0@.member("r"@) matches Some(
            JsonView::Text(s),
        ) && s != normalized@)) ==> r.content is Some,
{
    if r.mirror is Some {
        assert(r.mirror->0.reactions.deep_view() is None <==> r.mirror->0.reactions is None);
    }
}

/// Statistics that are told are about their subject and state every counter, so that whoever mirrors
/// them has them all.
pub proof fn law_statistics_that_are_told(
    t: &stat_emit_task::StatEmitTask,
    reactions: &str,
    comments: u32,
    comments_ts: i64,
    reposts: i64,
    a: CreateAction,
)
    requires
        call_ensures(
            stat_emit_task::StatEmitTask::statistics,
            (t, reactions, comments, comments_ts, reposts),
            a,
        ),
    ensures
        a.typ@ == "STAT"@,
        a.parent_id is Some && a.parent_id->0@ == t.subject_id@,
        a.content is Some,
        a.content->0@.member("r"@) == Some(JsonView::Text(reactions@)),
        a.content->0@.member("c"@) == Some(JsonView::Unsigned(comments as u64)),
        a.content->0@.member("ct"@) is Some && a.content->0@.member("ct"@)->0.signed() == Some(
            comments_ts,
        ),
        a.content->0@.member("rp"@) is Some && a.content->0@.member("rp"@)->0.signed() == Some(
            reposts,
        ),
        a.audience_tag is None && a.subject is None && a.sub_typ is None,
{
    assert(a.parent_id.deep_view() == Some(a.parent_id->0@));
    reveal_strlit("r");
    reveal_strlit("c");
    reveal_strlit("ct");
    reveal_strlit("rp");
    assert("r"@.len() == 1 && "c"@.len() == 1 && "ct"@.len() == 2 && "rp"@.len() == 2);
    assert("r"@[0] != "c"@[0] && "ct"@[0] != "rp"@[0]);
    let o = stat_emit_task::stat_json(reactions@, comments, comments_ts, reposts)->Object_0;
    reveal_with_fuel(json::last_named, 5);
    assert(o.drop_last().last() == o[2]);
    assert(o.drop_last().drop_last().last() == o[1]);
    assert(o.drop_last().drop_last().drop_last().last() == o[0]);
}

/// A request to tell statistics is stored and read back as it was.
pub proof fn law_requests_to_tell_are_read_back(
    t: &stat_emit_task::StatEmitTask,
    s: String,
    ctx: &str,
    r: Result<stat_emit_task::StatEmitTask, Error>,
)
    requires
        call_ensures(stat_emit_task::StatEmitTask::serialize, (t,), s),
        ctx@ == s@,
        call_ensures(stat_emit_task::StatEmitTask::build, (ctx,), r),
    ensures
        r is Ok,
        r->Ok_0.tn_id == t.tn_id && r->Ok_0.subject_id@ == t.subject_id@,
        r->Ok_0.tenant_tag@ == t.tenant_tag@,
        r->Ok_0.first_scheduled_at == t.first_scheduled_at,
{
    assert(ctx@ == json::compact_notation(stat_emit_task::task_json(t@)));
    assert(r->Ok_0@ == t@);
}

/// Statistics are told a short wait after the last change, but no later than the longest wait after
/// the first one; a request that is pending keeps its first time.
pub proof fn law_when_statistics_are_told(
    pending: Option<i64>,
    now: i64,
    window: i64,
    longest: i64,
    r: (i64, i64),
)
    requires
        call_ensures(stat_emit::emit_schedule, (pending, now, window, longest), r),
        0 < now < 0x1000_0000_0000_0000,
        0 <= window < 0x1000_0000_0000_0000,
        0 <= longest < 0x1000_0000_0000_0000,
        pending is Some ==> pending->0 < 0x1000_0000_0000_0000,
    ensures
        pending is None ==> r.0 == now,
        pending is Some && pending->0 > 0 ==> r.0 == pending->0,
        pending is Some && pending->0 <= 0 ==> r.0 == now,
        r.1 <= r.0 + longest,
        r.1 <= now + window,
        r.1 == r.0 + longest || r.1 == now + window,
{
}

/// The waits where the settings say nothing: ten seconds, and a minute at most.
pub proof fn law_default_waits(w: Option<i64>, m: Option<i64>, r: (i64, i64))
    requires
        call_ensures(stat_emit::read_coalesce_window, (w, m), r),
    ensures
        w is Some ==> r.0 == w->0,
        w is None ==> r.0 == 10,
        m is Some ==> r.1 == m->0,
        m is None ==> r.1 == 60,
{
}

// ---------------------------------------------------------------------------------------------
// Sharing files
// ---------------------------------------------------------------------------------------------

/// The permission that a share grants is the one that it names; only its three names grant more than
/// reading.
pub proof fn law_permissions_of_shares(st: &str, r: char, none: char)
    requires
        call_ensures(fshr::perm_char_for_sub_typ, (Some(st),), r),
        call_ensures(fshr::perm_char_for_sub_typ, (None,), none),
    ensures
        none == 'R',
        r == 'A' <==> st@ == "ADMIN"@,
        r == 'W' <==> st@ == "WRITE"@,
        r == 'C' <==> st@ == "COMMENT"@,
        r == 'A' || r == 'W' || r == 'C' || r == 'R',
{
    reveal_strlit("ADMIN");
    reveal_strlit("WRITE");
    reveal_strlit("COMMENT");
    assert("ADMIN"@[0] == 'A' && "WRITE"@[0] == 'W' && "COMMENT"@[0] == 'C');
    assert(Some(st).deep_view() == Some(st@));
}

/// Who grants a share manages the shares of the file and grants no more than they may; who ends
/// somebody else's manages them too; everybody ends their own. A grant gives the permission that it
/// names, and an end deletes every share of that user and no other.
pub proof fn law_shares_that_are_created(
    ctx: &HookContext,
    authority: Result<fshr::ShareAuthority, Error>,
    entries: &Vec<fshr::ShareEntry>,
    r: Result<fshr::ShareWork, Error>,
    letter: char,
    i: int,
)
    requires
        call_ensures(fshr::on_create, (ctx, authority, entries), r),
        ctx.subject is Some && ctx.audience is Some,
        ctx.subtype is None ==> letter == 'R',
        ctx.subtype is Some ==> exists|st: &str|
            st@ == ctx.subtype->0@ && #[trigger] call_ensures(
                fshr::perm_char_for_sub_typ,
                (Some(st),),
                letter,
            ),
    ensures
        ({
            let user = ctx.audience->0@;
            let ends = is_sub(*ctx, "DEL"@);
            let own = ctx.issuer@ == user;
            let manages = authority is Ok && authority->Ok_0.manages;
            let mine = |e: fshr::ShareEntry| e.subject_type == 'U' && e.subject_id@ == user;
            &&& !ends ==> (r is Ok <==> manages && authority->Ok_0.within_ceiling)
            &&& ends && own ==> r is Ok
            &&& ends && !own ==> (r is Ok <==> manages)
            &&& ends && r is Ok ==> r->Ok_0 is Delete
            &&& (ends && r is Ok && 0 <= i < entries@.len() && mine(entries@[i]))
                ==> r->Ok_0->Delete_0@.contains(entries@[i].id)
            &&& (ends && r is Ok && 0 <= i < r->Ok_0->Delete_0@.len()) ==> exists|k: int|
                0 <= k < entries@.len() && mine(#[trigger] entries@[k]) && entries@[k].id
                    == r->Ok_0->Delete_0@[i]
            &&& (!ends && r is Ok && (forall|k: int|
                0 <= k < entries@.len() ==> !mine(#[trigger] entries@[k]))) ==> (
            r->Ok_0 matches fshr::ShareWork::Write { permission, expires_at } && permission
                == letter && expires_at is None)
            &&& (!ends && r is Ok && entries@.len() == 1 && mine(entries@[0])
                && entries@[0].permission == letter) ==> r->Ok_0 is Nothing
            &&& (!ends && r is Ok && entries@.len() == 1 && mine(entries@[0])
                && entries@[0].permission != letter) ==> (r->Ok_0 matches fshr::ShareWork::Write {
                permission,
                expires_at,
            } && permission == letter && expires_at == entries@[0].expires_at)
        }),
{
    let user = ctx.audience->0@;
    if ctx.subtype is Some {
        assert(ctx.subtype.deep_view() == Some(ctx.subtype->0@));
        let st = choose|st: &str|
            st@ == ctx.subtype->0@ && #[trigger] call_ensures(
                fshr::perm_char_for_sub_typ,
                (Some(st),),
                letter,
            );
        assert(Some(st).deep_view() == Some(st@));
    }
    lemma_share_ids(entries@, user, i);
    if entries@.len() == 1 && fshr::is_share_of(entries@[0], user) {
        assert(fshr::first_share(entries@, user, 0));
        assert forall|k: int| fshr::first_share(entries@, user, k) implies k == 0 by {}
    }
    if forall|k: int|
        0 <= k < entries@.len() ==> !((#[trigger] entries@[k]).subject_type == 'U'
            && entries@[k].subject_id@ == user) {
        assert forall|k: int| !fshr::first_share(entries@, user, k) by {}
    }
}

proof fn lemma_share_ids(entries: Seq<fshr::ShareEntry>, user: Seq<char>, i: int)
    ensures
        0 <= i < entries.len() && fshr::is_share_of(entries[i], user) ==> fshr::share_ids(
            entries,
            user,
        ).contains(entries[i].id),
        0 <= i < fshr::share_ids(entries, user).len() ==> exists|k: int|
            0 <= k < entries.len() && fshr::is_share_of(#[trigger] entries[k], user)
                && entries[k].id == fshr::share_ids(entries, user)[i],
    decreases entries.len(),
{
    if entries.len() > 0 {
        let rest = entries.drop_last();
        let before = fshr::share_ids(rest, user);
        let now = fshr::share_ids(entries, user);
        lemma_share_ids(rest, user, i);
        if 0 <= i < entries.len() && fshr::is_share_of(entries[i], user) {
            if i < rest.len() {
                assert(rest[i] == entries[i]);
                let j = choose|j: int| 0 <= j < before.len() && before[j] == entries[i].id;
                assert(now[j] == entries[i].id);
            } else {
                assert(now[now.len() - 1] == entries[i].id);
            }
        }
        if 0 <= i < now.len() {
            if i < before.len() {
                let k = choose|k: int|
                    0 <= k < rest.len() && fshr::is_share_of(#[trigger] rest[k], user) && rest[k].id
                        == before[i];
                assert(entries[k] == rest[k]);
            } else {
                assert(fshr::is_share_of(entries[entries.len() - 1], user));
            }
        }
    }
}

/// A share that arrives is refused where the file on record belongs to somebody else than its issuer.
/// Where it is with this tenant and no end of one, it waits for confirmation.
pub proof fn law_shares_that_arrive(
    ctx: &HookContext,
    file: Option<Option<&str>>,
    r: Result<HookPlan, Error>,
)
    requires
        call_ensures(fshr::on_receive, (ctx, file), r),
    ensures
        file is None ==> r is Ok,
        ctx.subject is Some && (file matches Some(Some(o)) && o@.len() > 0) ==> (r is Ok <==> ctx.issuer@
            == file->0->0@),
        ctx.subject is Some && file == Some(None::<&str>) ==> (r is Ok <==> ctx.issuer@
            == ctx.tenant_tag@),
        r matches Ok(p) ==> p.steps@.len() == 0 && p.continue_processing && (p.status == Some('C')
            <==> (ctx.audience is Some && ctx.audience->0@ == ctx.tenant_tag@ && !is_sub(
            *ctx,
            "DEL"@,
        ))) && (p.status != Some('C') ==> p.status is None),
        r is Err ==> r->Err_0 is PermissionDenied,
{
    if ctx.subtype is Some {
        assert(ctx.subtype.deep_view() == Some(ctx.subtype->0@));
    }
    if ctx.audience is Some {
        assert(ctx.audience.deep_view() == Some(ctx.audience->0@));
    }
    if file matches Some(Some(o)) {
        assert(file->0.deep_view() == Some(file->0->0@));
    }
    if file == Some(None::<&str>) {
        assert(file->0.deep_view() is None);
    }
}

/// To accept a share is to get the file that it is about, owned by its issuer and described as it
/// says, with the permission that it names.
pub proof fn law_shares_that_are_accepted(ctx: &HookContext, r: Option<fshr::SharedFile>)
    requires
        call_ensures(fshr::on_accept, (ctx,), r),
    ensures
        r matches Some(f) ==> {
            let c = ctx.content->0@;
            &&& ctx.content is Some && ctx.subject is Some
            &&& f.file_id@ == ctx.subject->0@ && f.owner_tag@ == ctx.issuer@
            &&& c.member("contentType"@) == Some(JsonView::Text(f.content_type@))
            &&& c.member("fileName"@) == Some(JsonView::Text(f.file_name@))
            &&& c.member("fileTp"@) == Some(JsonView::Text(f.file_tp@))
            &&& f.permission == 'A' <==> is_sub(*ctx, "ADMIN"@)
            &&& f.permission == 'W' <==> is_sub(*ctx, "WRITE"@)
            &&& f.permission == 'C' <==> is_sub(*ctx, "COMMENT"@)
        },
        (ctx.content is Some && ctx.subject is Some && (ctx.content->0@.member(
            "contentType"@,
        ) matches Some(JsonView::Text(_))) && (ctx.content->0@.member("fileName"@) matches Some(
            JsonView::Text(_),
        )) && (ctx.content->0@.member("fileTp"@) matches Some(JsonView::Text(_)))) ==> r is Some,
{
    reveal_strlit("ADMIN");
    reveal_strlit("WRITE");
    reveal_strlit("COMMENT");
    assert("ADMIN"@[0] == 'A' && "WRITE"@[0] == 'W' && "COMMENT"@[0] == 'C');
    if ctx.subtype is Some {
        assert(ctx.subtype.deep_view() == Some(ctx.subtype->0@));
    }
}

// ---------------------------------------------------------------------------------------------
// Registration
// ---------------------------------------------------------------------------------------------

/// A registration is admitted where it is one, carries content without a fault and names the
/// provider.
pub proof fn law_registrations(ctx: &HookContext, fault: Option<&str>, r: Result<(), Error>)
    requires
        call_ensures(idp::idp_reg_on_receive, (ctx, fault), r),
    ensures
        r is Ok ==> ctx.typ@ == "IDP"@ && is_sub(*ctx, "REG"@) && ctx.content is Some && fault is None
            && ctx.audience is Some,
        (ctx.typ@ == "IDP"@ && is_sub(*ctx, "REG"@) && ctx.content is Some && fault is None
            && ctx.audience is Some) ==> r is Ok,
{
    assert(ctx.subtype.deep_view() is Some <==> ctx.subtype is Some);
    if ctx.subtype is Some {
        assert(ctx.subtype.deep_view() == Some(ctx.subtype->0@));
    }
}

/// Whether a type has these hooks and no other.
pub open spec fn has_hooks(
    m: Map<Seq<char>, ActionTypeHooks>,
    typ: Seq<char>,
    on_create: Option<u32>,
    on_receive: Option<u32>,
    on_accept: Option<u32>,
    on_reject: Option<u32>,
) -> bool {
    &&& m.dom().contains(typ)
    &&& on_create is Some <==> m[typ].on_create is Some
    &&& on_receive is Some <==> m[typ].on_receive is Some
    &&& on_accept is Some <==> m[typ].on_accept is Some
    &&& on_reject is Some <==> m[typ].on_reject is Some
    &&& on_create is Some ==> (m[typ].on_create->0).0 == on_create->0
    &&& on_receive is Some ==> (m[typ].on_receive->0).0 == on_receive->0
    &&& on_accept is Some ==> (m[typ].on_accept->0).0 == on_accept->0
    &&& on_reject is Some ==> (m[typ].on_reject->0).0 == on_reject->0
}

/// Every built-in type gets its own hooks, and no type but those gets any: the hooks that are there
/// for other types stay.
pub proof fn law_types_have_their_hooks(m: Map<Seq<char>, ActionTypeHooks>, other: Seq<char>)
    ensures
        ({
            let n = registration::with_native_hooks(m);
            let b = registration::with_bookkeeping_hooks(n);
            &&& has_hooks(
                b,
                "CONN"@,
                Some(registration::CONN_ON_CREATE),
                Some(registration::CONN_ON_RECEIVE),
                Some(registration::CONN_ON_ACCEPT),
                Some(registration::CONN_ON_REJECT),
            )
            &&& has_hooks(
                b,
                "FLLW"@,
                Some(registration::FLLW_ON_CREATE),
                Some(registration::FLLW_ON_RECEIVE),
                None,
                None,
            )
            &&& has_hooks(b, "IDP:REG"@, None, Some(registration::IDP_REG_ON_RECEIVE), None, None)
            &&& has_hooks(
                b,
                "REACT"@,
                Some(registration::REACT_ON_CREATE),
                Some(registration::REACT_ON_RECEIVE),
                None,
                None,
            )
            &&& has_hooks(
                b,
                "CMNT"@,
                Some(registration::CMNT_ON_CREATE),
                Some(registration::CMNT_ON_RECEIVE),
                None,
                None,
            )
            &&& has_hooks(b, "APRV"@, None, Some(registration::APRV_ON_RECEIVE), None, None)
            &&& has_hooks(
                b,
                "SUBS"@,
                Some(registration::SUBS_ON_CREATE),
                Some(registration::SUBS_ON_RECEIVE),
                None,
                None,
            )
            &&& has_hooks(
                b,
                "CONV"@,
                Some(registration::CONV_ON_CREATE),
                Some(registration::CONV_ON_RECEIVE),
                None,
                None,
            )
            &&& has_hooks(
                b,
                "INVT"@,
                Some(registration::INVT_ON_CREATE),
                Some(registration::INVT_ON_RECEIVE),
                Some(registration::INVT_ON_ACCEPT),
                None,
            )
            &&& has_hooks(b, "PRINVT"@, None, Some(registration::PRINVT_ON_RECEIVE), None, None)
            &&& has_hooks(
                n,
                "FSHR"@,
                None,
                Some(registration::FSHR_ON_RECEIVE),
                Some(registration::FSHR_ON_ACCEPT),
                None,
            )
            &&& has_hooks(
                b,
                "FSHR"@,
                Some(registration::FSHR_ON_CREATE),
                Some(registration::FSHR_ON_RECEIVE),
                Some(registration::FSHR_ON_ACCEPT),
                None,
            )
            &&& has_hooks(
                b,
                "MSG"@,
                Some(registration::MSG_ON_CREATE),
                Some(registration::MSG_ON_RECEIVE),
                None,
                None,
            )
            &&& has_hooks(
                b,
                "REPOST"@,
                Some(registration::REPOST_ON_CREATE),
                Some(registration::REPOST_ON_RECEIVE),
                None,
                None,
            )
            &&& has_hooks(b, "STAT"@, None, Some(registration::STAT_ON_RECEIVE), None, None)
            &&& (other == "POST"@ || other == "FLAG"@) ==> (b.dom().contains(other)
                <==> m.dom().contains(other)) && b[other] == m[other]
        }),
{
    reveal_strlit("CONN");
    reveal_strlit("FLLW");
    reveal_strlit("IDP:REG");
    reveal_strlit("FSHR");
    reveal_strlit("REACT");
    reveal_strlit("CMNT");
    reveal_strlit("APRV");
    reveal_strlit("SUBS");
    reveal_strlit("CONV");
    reveal_strlit("INVT");
    reveal_strlit("PRINVT");
    reveal_strlit("MSG");
    reveal_strlit("REPOST");
    reveal_strlit("STAT");
    reveal_strlit("POST");
    reveal_strlit("FLAG");
    assert("CONN"@[0] == 'C' && "CONN"@[1] == 'O' && "CONN"@[3] == 'N');
    assert("CONV"@[0] == 'C' && "CONV"@[1] == 'O' && "CONV"@[3] == 'V');
    assert("CMNT"@[0] == 'C' && "CMNT"@[1] == 'M');
    assert("FLLW"@[0] == 'F' && "FLLW"@[1] == 'L' && "FLLW"@[2] == 'L');
    assert("FSHR"@[0] == 'F' && "FSHR"@[1] == 'S');
    assert("FLAG"@[0] == 'F' && "FLAG"@[1] == 'L' && "FLAG"@[2] == 'A');
    assert("SUBS"@[0] == 'S' && "SUBS"@[1] == 'U');
    assert("STAT"@[0] == 'S' && "STAT"@[1] == 'T');
    assert("APRV"@[0] == 'A' && "INVT"@[0] == 'I' && "POST"@[0] == 'P' && "MSG"@[0] == 'M');
    assert("IDP:REG"@.len() == 7 && "REACT"@.len() == 5 && "PRINVT"@.len() == 6);
    assert("REPOST"@.len() == 6 && "REPOST"@[0] == 'R' && "PRINVT"@[0] == 'P');
    assert("MSG"@.len() == 3);
    assert("CONN"@.len() == 4 && "CONV"@.len() == 4 && "CMNT"@.len() == 4 && "FLLW"@.len() == 4);
    assert("FSHR"@.len() == 4 && "FLAG"@.len() == 4 && "SUBS"@.len() == 4 && "STAT"@.len() == 4);
    assert("APRV"@.len() == 4 && "INVT"@.len() == 4 && "POST"@.len() == 4);
}

/// What a share asks for: nothing without a file and a grantee; the end of a grant, which is one's own where
/// issuer and grantee are the same; and else a grant of what it names. Only grants and the ends of others' grants
/// need authority.
pub proof fn law_what_a_share_asks_for(
    ctx: &HookContext,
    r: fshr::ShareChange,
    manages: bool,
    within: bool,
    ok: Result<(), Error>,
)
    requires
        call_ensures(fshr::share_change, (ctx,), r),
        call_ensures(fshr::authorize_share_change, (r, manages, within), ok),
    ensures
        ctx.subject is None || ctx.audience is None ==> r is Nothing && ok is Ok,
        (ctx.subject is Some && ctx.audience is Some && is_sub(*ctx, "DEL"@)) ==> (r is Renounce
            <==> ctx.issuer@ == ctx.audience->0@) && (r is Revoke <==> ctx.issuer@
            != ctx.audience->0@),
        (ctx.subject is Some && ctx.audience is Some && !is_sub(*ctx, "DEL"@)) ==> r is Grant,
        r is Grant ==> (ok is Ok <==> manages && within),
        r is Revoke ==> (ok is Ok <==> manages),
        r is Renounce ==> ok is Ok,
        ok is Err ==> ok->Err_0 is PermissionDenied,
{
    if ctx.subtype is Some {
        assert(ctx.subtype.deep_view() == Some(ctx.subtype->0@));
    }
}

proof fn lemma_without(o: Seq<(Seq<char>, JsonView)>, name: Seq<char>, other: Seq<char>)
    requires
        name != other,
    ensures
        json::last_named(stat::without(o, name), name) is None,
        json::last_named(stat::without(o, name), other) == json::last_named(o, other),
    decreases o.len(),
{
    if o.len() > 0 {
        let rest = o.drop_last();
        lemma_without(rest, name, other);
        let w = stat::without(rest, name);
        if o.last().0 != name {
            assert(w.push(o.last()).drop_last() =~= w);
        }
    }
}

/// Statistics whose reactions are not in their normal form are rewritten: with the normal form, without an empty
/// one, and with everything else as it was.
pub proof fn law_rewritten_statistics(
    content: &Json,
    normalized: &str,
    r: Option<Json>,
    other: Seq<char>,
)
    requires
        call_ensures(stat::normalized_content, (content, normalized), r),
        content@ is Object,
        other != "r"@,
    ensures
        content@.member("r"@) == Some(JsonView::Text(normalized@)) ==> r is None,
        content@.member("r"@) is None ==> r is None,
        (content@.member("r"@) matches Some(JsonView::Text(s)) && s != normalized@) ==> r is Some,
        r is Some && normalized@.len() > 0 ==> r->0@.member("r"@) == Some(JsonView::Text(normalized@)),
        r is Some && normalized@.len() == 0 ==> r->0@.member("r"@) is None,
        r is Some ==> r->0@.member(other) == content@.member(other),
{
    let o = content@->Object_0;
    lemma_without(o, "r"@, other);
    let w = stat::without(o, "r"@);
    assert(w.push(("r"@, JsonView::Text(normalized@))).drop_last() =~= w);
}

/// A total is the larger one of what is stated and what the entries add up to.
pub proof fn law_totals(entries: &Vec<(char, u32)>, total: u32, r: u32)
    requires
        call_ensures(stat::normalized_total, (entries, total), r),
    ensures
        r >= total,
        r >= stat::entry_sum(entries@),
        r == total || r == stat::entry_sum(entries@),
        entries@.len() == 0 ==> r == total,
        entries@.len() == 1 ==> stat::entry_sum(entries@) == entries@[0].1,
{
    reveal_with_fuel(stat::entry_sum, 2);
}

/// Statistics are told again where a counter changed meanwhile, and requests are kept apart by tenant and
/// subject.
pub proof fn law_changed_counters(
    r1: &str,
    c1: u32,
    r2: &str,
    c2: u32,
    changed: bool,
    tn_id: TnId,
    subject: &str,
    key: String,
)
    requires
        call_ensures(stat_emit_task::counters_changed, (r1, c1, r2, c2), changed),
        call_ensures(stat_emit::emit_key, (tn_id, subject), key),
    ensures
        r1@ == r2@ && c1 == c2 ==> !changed,
        r1@ != r2@ ==> changed,
        c1 != c2 ==> changed,
        key@ == "stat.emit:"@ + decimal::decimal_text(tn_id.0 as nat) + ":"@ + subject@,
{
}

/// What a registration reports: the response, and of an identity that was created its number, the reference that
/// activates it and the prefix of its key.
pub proof fn law_reported_registrations(
    id: &str,
    activation: Json,
    prefix: Json,
    response: Json,
    r: crate::action::hooks::HookResult,
)
    requires
        call_ensures(idp::registration_result, (id, activation, prefix, response), r),
    ensures
        r.continue_processing && r.status is None && r.return_value == Some(response),
        id@.len() == 0 ==> !r.vars@.dom().contains("identity_id"@),
        id@.len() > 0 ==> r.vars@.dom().contains("identity_id"@) && r.vars@["identity_id"@]@
            == JsonView::Text(id@) && r.vars@["activation_ref"@] == activation
            && r.vars@["api_key_prefix"@] == prefix,
{
}

/// An invitation to an action is created by a subscriber exactly where the role on record is that of a moderator
/// at least.
pub proof fn law_who_invites(
    ctx: &HookContext,
    target: &ActionView,
    x: Option<&Json>,
    p: HookPlan,
    role: helpers::SubscriptionRole,
    enough: bool,
)
    requires
        call_ensures(invt::on_create, (ctx, Some(target), Some(x)), p),
        call_ensures(helpers::get_subscription_role, (x,), role),
        call_ensures(
            helpers::SubscriptionRole::at_least,
            (role, helpers::SubscriptionRole::Moderator),
            enough,
        ),
        ctx.subject is Some && ctx.audience is Some,
        subject_ref::identity_of(ctx.subject->0@) is None,
        ctx.issuer@ != target.issuer.id_tag@,
        x is Some ==> (x->0@.member("role"@) is Some ==> x->0@.member("role"@)->0 is Text),
    ensures
        enough ==> does_nothing(p),
        !enough ==> refuses(p),
{
}

} // verus!
