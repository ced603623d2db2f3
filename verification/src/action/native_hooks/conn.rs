//! `CONN`: connections between profiles.
//!
//! Without a subtype the action asks for a connection, `ACC` accepts one and `DEL` ends one.
use crate::action::hooks::HookContext;
use crate::action::native_hooks::plan::{
    self, aborting, attempt, doing, nothing, BaselineRole, ConnectionStatus, Effect, HookPlan,
    NewAction, OnFailure, Party, PlanView, ProfileUpdate, Step,
};
use crate::text;
use crate::types::Patch;
use vstd::prelude::*;

verus! {

/// The subject under which the invitations to a community are stored.
pub open spec fn community_subject_text(community_tag: Seq<char>) -> Seq<char> {
    seq!['@'] + community_tag
}

/// The subject of the invitations to a community: its identity, with an `@` in front.
pub fn community_subject(community_tag: &str) -> (r: String)
    ensures
        r@ == community_subject_text(community_tag@),
{
    let mut s = String::new();
    s.push('@');
    s.append(community_tag);
    assert(s@ =~= community_subject_text(community_tag@));
    s
}

/// The key of the connection request that one identity sent to another.
pub fn connection_key(from: &str, to: &str) -> (r: String)
    ensures
        r@ == "CONN:"@ + from@ + ":"@ + to@,
{
    let mut k = text::owned("CONN:");
    k.append(from);
    k.append(":");
    k.append(to);
    k
}

pub open spec fn is_community(ctx: HookContext) -> bool {
    ctx.tenant_type@ == "community"@
}

/// A person follows whom they connect to; a community does not.
pub open spec fn follow_patch(ctx: HookContext) -> Patch<bool> {
    if is_community(ctx) {
        Patch::Undefined
    } else {
        Patch::Value(true)
    }
}

pub fn following(ctx: &HookContext) -> (r: Patch<bool>)
    ensures
        r == follow_patch(*ctx),
{
    if text::same(ctx.tenant_type.as_str(), "community") {
        Patch::Undefined
    } else {
        Patch::Value(true)
    }
}

/// The update that records a connection.
pub open spec fn connect_update(ctx: HookContext) -> ProfileUpdate {
    ProfileUpdate {
        following: follow_patch(ctx),
        connected: Patch::Value(ConnectionStatus::Connected),
        roles: Patch::Undefined,
    }
}

fn connecting(ctx: &HookContext) -> (r: ProfileUpdate)
    ensures
        r == connect_update(*ctx),
{
    ProfileUpdate {
        following: following(ctx),
        connected: Patch::Value(ConnectionStatus::Connected),
        roles: Patch::Undefined,
    }
}

/// What creating a `CONN` does. A profile that is already connected is not taken back to a
/// pending request.
pub open spec fn create_plan(ctx: HookContext, already_connected: bool) -> PlanView {
    if ctx.audience is None {
        nothing()
    } else if ctx.subtype is None {
        doing(
            seq![
                attempt(Effect::EnsureProfile(Party::Audience)),
                attempt(
                    Effect::UpsertProfile(
                        Party::Audience,
                        ProfileUpdate {
                            following: follow_patch(ctx),
                            connected: if already_connected {
                                Patch::Undefined
                            } else {
                                Patch::Value(ConnectionStatus::RequestPending)
                            },
                            roles: Patch::Undefined,
                        },
                    ),
                ),
            ],
        )
    } else if ctx.subtype->0@ == "ACC"@ {
        doing(seq![attempt(Effect::UpsertProfile(Party::Audience, connect_update(ctx)))])
    } else if ctx.subtype->0@ == "DEL"@ {
        let end = attempt(
            Effect::UpsertProfile(
                Party::Audience,
                ProfileUpdate {
                    following: Patch::Undefined,
                    connected: Patch::Null,
                    roles: Patch::Null,
                },
            ),
        );
        if is_community(ctx) {
            doing(seq![end, attempt(Effect::RetireCommunityInvitations(Party::Audience))])
        } else {
            doing(seq![end])
        }
    } else {
        nothing()
    }
}

/// Decides on a `CONN` created here; `already_connected` tells whether the audience's profile
/// is connected.
pub fn on_create(ctx: &HookContext, already_connected: bool) -> (r: HookPlan)
    ensures
        r@ == create_plan(*ctx, already_connected),
{
    let mut p = plan::idle();
    if ctx.audience.is_none() {
        return p;
    }
    match &ctx.subtype {
        None => {
            p.attempt(Effect::EnsureProfile(Party::Audience));
            let connected = if already_connected {
                Patch::Undefined
            } else {
                Patch::Value(ConnectionStatus::RequestPending)
            };
            p.attempt(
                Effect::UpsertProfile(
                    Party::Audience,
                    ProfileUpdate { following: following(ctx), connected, roles: Patch::Undefined },
                ),
            );
        },
        Some(st) => {
            if text::same(st.as_str(), "ACC") {
                p.attempt(Effect::UpsertProfile(Party::Audience, connecting(ctx)));
            } else if text::same(st.as_str(), "DEL") {
                p.attempt(
                    Effect::UpsertProfile(
                        Party::Audience,
                        ProfileUpdate {
                            following: Patch::Undefined,
                            connected: Patch::Null,
                            roles: Patch::Null,
                        },
                    ),
                );
                if text::same(ctx.tenant_type.as_str(), "community") {
                    p.attempt(Effect::RetireCommunityInvitations(Party::Audience));
                }
            }
        },
    }
    p
}

/// What the store says when a `CONN` arrives.
pub struct ConnFacts {
    /// The subtype of the connection request that this tenant sent to the issuer, where it sent
    /// one.
    pub our_request: Option<Option<String>>,
    /// The tenant's `profile.connection_mode`.
    pub connection_mode: Option<String>,
    /// Whether an active invitation of the issuer to this tenant is on record.
    pub has_pending_invitation: bool,
}

/// Whether this tenant has asked the issuer for a connection, so that the two requests meet.
pub open spec fn mutual(facts: ConnFacts) -> bool {
    facts.our_request is Some && facts.our_request->0 is None
}

/// Whether this tenant has asked for the connection that an acceptance answers. An empty subtype
/// counts as none.
pub open spec fn asked(facts: ConnFacts) -> bool {
    facts.our_request is Some && (facts.our_request->0 is None || facts.our_request->0->0@.len()
        == 0)
}

/// What receiving a `CONN` does.
pub open spec fn receive_plan(ctx: HookContext, facts: ConnFacts) -> PlanView {
    let connect = attempt(Effect::UpsertProfile(Party::Issuer, connect_update(ctx)));
    let sync = attempt(Effect::ScheduleHistorySync(Party::Issuer));
    let answer = attempt(Effect::Create(NewAction::ConnectionAcceptance, Party::Issuer));
    let known = attempt(Effect::EnsureProfile(Party::Issuer));
    let retire = attempt(Effect::RetireCommunityInvitations(Party::Issuer));
    if ctx.subtype is None {
        if mutual(facts) {
            doing(seq![known, connect, sync])
        } else if facts.has_pending_invitation {
            doing(
                seq![
                    known,
                    answer,
                    attempt(
                        Effect::UpsertProfile(
                            Party::Issuer,
                            ProfileUpdate {
                                roles: Patch::Value(BaselineRole::Contributor),
                                ..connect_update(ctx)
                            },
                        ),
                    ),
                    sync,
                    retire,
                ],
            )
        } else if facts.connection_mode.deep_view() == Some("I"@) {
            PlanView { steps: seq![known], continue_processing: false, status: Some('D') }
        } else if facts.connection_mode.deep_view() == Some("A"@) {
            doing(seq![known, answer, connect, sync])
        } else {
            PlanView { steps: seq![known], continue_processing: true, status: Some('C') }
        }
    } else if ctx.subtype->0@ == "ACC"@ {
        if asked(facts) {
            doing(seq![connect, sync])
        } else {
            aborting(Some('D'))
        }
    } else if ctx.subtype->0@ == "DEL"@ {
        let end = attempt(
            Effect::UpsertProfile(
                Party::Issuer,
                ProfileUpdate {
                    following: Patch::Undefined,
                    connected: Patch::Null,
                    roles: Patch::Undefined,
                },
            ),
        );
        PlanView {
            steps: if is_community(ctx) {
                seq![end, retire]
            } else {
                seq![end]
            },
            continue_processing: true,
            status: Some('N'),
        }
    } else {
        nothing()
    }
}

/// Decides on a `CONN` that arrived.
pub fn on_receive(ctx: &HookContext, facts: &ConnFacts) -> (r: HookPlan)
    ensures
        r@ == receive_plan(*ctx, *facts),
{
    let mut p = plan::idle();
    match &ctx.subtype {
        None => {
            p.attempt(Effect::EnsureProfile(Party::Issuer));
            let meets = match &facts.our_request {
                Some(sub_typ) => sub_typ.is_none(),
                None => false,
            };
            if meets {
                p.attempt(Effect::UpsertProfile(Party::Issuer, connecting(ctx)));
                p.attempt(Effect::ScheduleHistorySync(Party::Issuer));
                return p;
            }
            if facts.has_pending_invitation {
                p.attempt(Effect::Create(NewAction::ConnectionAcceptance, Party::Issuer));
                let mut update = connecting(ctx);
                update.roles = Patch::Value(BaselineRole::Contributor);
                p.attempt(Effect::UpsertProfile(Party::Issuer, update));
                p.attempt(Effect::ScheduleHistorySync(Party::Issuer));
                p.attempt(Effect::RetireCommunityInvitations(Party::Issuer));
                return p;
            }
            let mode = text::as_opt(&facts.connection_mode);
            if text::is_text(mode, "I") {
                p.continue_processing = false;
                p.status = Some('D');
            } else if text::is_text(mode, "A") {
                p.attempt(Effect::Create(NewAction::ConnectionAcceptance, Party::Issuer));
                p.attempt(Effect::UpsertProfile(Party::Issuer, connecting(ctx)));
                p.attempt(Effect::ScheduleHistorySync(Party::Issuer));
            } else {
                p.status = Some('C');
            }
        },
        Some(st) => {
            if text::same(st.as_str(), "ACC") {
                let answers = match &facts.our_request {
                    Some(Some(sub_typ)) => sub_typ.as_str().is_empty(),
                    Some(None) => true,
                    None => false,
                };
                if !answers {
                    return plan::abort(Some('D'));
                }
                p.attempt(Effect::UpsertProfile(Party::Issuer, connecting(ctx)));
                p.attempt(Effect::ScheduleHistorySync(Party::Issuer));
            } else if text::same(st.as_str(), "DEL") {
                p.attempt(
                    Effect::UpsertProfile(
                        Party::Issuer,
                        ProfileUpdate {
                            following: Patch::Undefined,
                            connected: Patch::Null,
                            roles: Patch::Undefined,
                        },
                    ),
                );
                if text::same(ctx.tenant_type.as_str(), "community") {
                    p.attempt(Effect::RetireCommunityInvitations(Party::Issuer));
                }
                p.status = Some('N');
            }
        },
    }
    p
}

/// What accepting a connection request does: it answers the issuer and fetches their history.
pub fn on_accept() -> (r: HookPlan)
    ensures
        r@ == doing(
            seq![
                attempt(Effect::Create(NewAction::ConnectionAcceptance, Party::Issuer)),
                attempt(Effect::ScheduleHistorySync(Party::Issuer)),
            ],
        ),
{
    let mut p = plan::idle();
    p.attempt(Effect::Create(NewAction::ConnectionAcceptance, Party::Issuer));
    p.attempt(Effect::ScheduleHistorySync(Party::Issuer));
    p
}

/// What rejecting a connection request does: the issuer's profile is neither followed nor
/// connected.
pub fn on_reject() -> (r: HookPlan)
    ensures
        r@ == doing(
            seq![
                Step {
                    effect: Effect::UpsertProfile(
                        Party::Issuer,
                        ProfileUpdate {
                            following: Patch::Value(false),
                            connected: Patch::Value(ConnectionStatus::Disconnected),
                            roles: Patch::Undefined,
                        },
                    ),
                    on_failure: OnFailure::Fail,
                },
            ],
        ),
{
    let mut p = plan::idle();
    p.add_step(
        Effect::UpsertProfile(
            Party::Issuer,
            ProfileUpdate {
                following: Patch::Value(false),
                connected: Patch::Value(ConnectionStatus::Disconnected),
                roles: Patch::Undefined,
            },
        ),
        OnFailure::Fail,
    );
    p
}

/// A request becomes a connection at once exactly where the two sides asked for each other, the
/// issuer was invited, or the tenant accepts every request.
pub proof fn law_when_a_request_connects(ctx: HookContext, facts: ConnFacts)
    requires
        ctx.subtype is None,
    ensures
        receive_plan(ctx, facts).connects(Party::Issuer) <==> (mutual(facts)
            || facts.has_pending_invitation || facts.connection_mode.deep_view() == Some("A"@)),
        receive_plan(ctx, facts).connects(Party::Issuer) ==> receive_plan(ctx, facts).status is None,
{
    reveal_strlit("A");
    reveal_strlit("I");
    let p = receive_plan(ctx, facts);
    if mutual(facts) {
        assert(p.steps[1].effect == Effect::UpsertProfile(Party::Issuer, connect_update(ctx)));
    } else if facts.has_pending_invitation {
        assert(p.steps[2].effect is UpsertProfile);
    } else if facts.connection_mode.deep_view() == Some("A"@) {
        assert("A"@[0] != "I"@[0]);
        assert(p.steps[2].effect == Effect::UpsertProfile(Party::Issuer, connect_update(ctx)));
    }
}

/// An acceptance that answers no request of this tenant connects nobody: it changes nothing, is
/// rejected and ends processing.
pub proof fn law_unasked_acceptance_is_refused(ctx: HookContext, facts: ConnFacts)
    requires
        ctx.subtype is Some && ctx.subtype->0@ == "ACC"@,
        !asked(facts),
    ensures
        receive_plan(ctx, facts) == aborting(Some('D')),
        !receive_plan(ctx, facts).connects(Party::Issuer),
{
}

/// An invitation is used up exactly when it is what lets a request through, or when the
/// connection to a community ends.
pub proof fn law_invitations_are_used_up(ctx: HookContext, facts: ConnFacts)
    ensures
        receive_plan(ctx, facts).has(Effect::RetireCommunityInvitations(Party::Issuer)) <==> ({
            ||| ctx.subtype is None && !mutual(facts) && facts.has_pending_invitation
            ||| ctx.subtype is Some && ctx.subtype->0@ == "DEL"@ && is_community(ctx)
        }),
{
    reveal_strlit("ACC");
    reveal_strlit("DEL");
    assert("ACC"@[0] != "DEL"@[0]);
    let p = receive_plan(ctx, facts);
    if ctx.subtype is None && !mutual(facts) && facts.has_pending_invitation {
        assert(p.steps[4].effect == Effect::RetireCommunityInvitations(Party::Issuer));
    }
    if ctx.subtype is Some && ctx.subtype->0@ == "DEL"@ && is_community(ctx) {
        assert(p.steps[1].effect == Effect::RetireCommunityInvitations(Party::Issuer));
    }
}

/// Creating a request never takes a connected profile back to a pending one.
pub proof fn law_create_keeps_connections(ctx: HookContext)
    ensures
        !create_plan(ctx, true).has(
            Effect::UpsertProfile(
                Party::Audience,
                ProfileUpdate {
                    following: follow_patch(ctx),
                    connected: Patch::Value(ConnectionStatus::RequestPending),
                    roles: Patch::Undefined,
                },
            ),
        ),
{
}

} // verus!
