//! What a native hook asks the program to do.
use crate::action::hooks::HookContext;
use crate::action::task::CreateAction;
use crate::json::{self, Json, JsonView};
use crate::text;
use crate::types::{Patch, Timestamp};
use vstd::prelude::*;

verus! {

/// A party to an action.
#[derive(Debug, Clone, Copy, PartialEq, Eq, Structural)]
pub enum Party {
    /// The issuer of the action.
    Issuer,
    /// The audience of the action.
    Audience,
    /// The identity that the subject of the action names.
    SubjectIdentity,
    /// The issuer of the action that the subject names.
    SubjectIssuer,
}

/// How a profile stands to the tenant.
#[derive(Debug, Clone, Copy, PartialEq, Eq, Structural)]
pub enum ConnectionStatus {
    Disconnected,
    RequestPending,
    Connected,
}

/// The role that membership brings.
#[derive(Debug, Clone, Copy, PartialEq, Eq, Structural)]
pub enum BaselineRole {
    Contributor,
}

/// A change to a profile.
#[derive(Debug, PartialEq, Eq)]
pub struct ProfileUpdate {
    pub following: Patch<bool>,
    pub connected: Patch<ConnectionStatus>,
    pub roles: Patch<BaselineRole>,
}

/// An action that a hook creates.
#[derive(Debug, Clone, Copy, PartialEq, Eq, Structural)]
pub enum NewAction {
    /// `CONN`: a request for a connection.
    ConnectionRequest,
    /// `CONN:ACC`: the answer to one.
    ConnectionAcceptance,
    /// `SUBS` to the action's subject, with the role of a member.
    Membership,
}

/// Counters of an action.
#[derive(Debug, PartialEq, Eq)]
pub struct CounterUpdate {
    pub comments: Patch<u32>,
    pub comments_ts: Patch<Timestamp>,
    pub reposts: Patch<u32>,
}

/// An action that an action refers to.
#[derive(Debug, Clone, Copy, PartialEq, Eq, Structural)]
pub enum Referred {
    /// The one that its subject names.
    Subject,
    /// Its parent.
    Parent,
}

/// The id of an action that an action refers to.
pub open spec fn referred_id(ctx: HookContext, to: Referred) -> Option<Seq<char>> {
    match to {
        Referred::Subject => ctx.subject.deep_view(),
        Referred::Parent => ctx.parent.deep_view(),
    }
}

/// Finds the id of an action that an action refers to.
pub fn find_referred(ctx: &HookContext, to: Referred) -> (r: Option<&str>)
    ensures
        r.deep_view() == referred_id(*ctx, to),
{
    match to {
        Referred::Subject => text::as_opt(&ctx.subject),
        Referred::Parent => text::as_opt(&ctx.parent),
    }
}

/// One thing to do.
#[derive(Debug, PartialEq, Eq)]
pub enum Effect {
    /// Make sure that a party's profile is known, from the remote side if need be.
    EnsureProfile(Party),
    UpsertProfile(Party, ProfileUpdate),
    /// Create an action addressed to a party.
    Create(NewAction, Party),
    /// Fetch the history of a party.
    ScheduleHistorySync(Party),
    /// Soft-delete the active invitations of a party to this community.
    RetireCommunityInvitations(Party),
    /// Soft-delete the active invitations of a party to the action's subject.
    RetireSubjectInvitations(Party),
    /// Set the status of the action itself.
    SetStatus(char),
    /// Delete the action itself.
    DeleteAction,
    /// Track the thread of the action referred to, by the root that
    /// [`crate::action::helpers::resolve_root_id`] gives.
    AutoTrackRoot(Referred),
    /// Write the counters of the action referred to.
    UpdateCounters(Referred, CounterUpdate),
    /// Write the reaction string of the action referred to.
    UpdateReactions(Referred, String),
    /// Tell the followers of the action referred to about its counters.
    EmitStat(Referred),
}

/// What a failure of an effect means for the hook.
#[derive(Debug, Clone, Copy, PartialEq, Eq, Structural)]
pub enum OnFailure {
    /// Go on with the next effect.
    Ignore,
    /// Leave out the remaining effects; the hook succeeds.
    Stop,
    /// The hook fails with the same error.
    Fail,
}

#[derive(Debug, PartialEq, Eq)]
pub struct Step {
    pub effect: Effect,
    pub on_failure: OnFailure,
}

/// The effects of a hook in order, and what it decides.
#[derive(Debug)]
pub struct HookPlan {
    pub steps: Vec<Step>,
    pub continue_processing: bool,
    /// The resting status of the action; the default one where it is absent.
    pub status: Option<char>,
}

#[verifier::ext_equal]
pub struct PlanView {
    pub steps: Seq<Step>,
    pub continue_processing: bool,
    pub status: Option<char>,
}

impl View for HookPlan {
    type V = PlanView;

    open spec fn view(&self) -> PlanView {
        PlanView {
            steps: self.steps@,
            continue_processing: self.continue_processing,
            status: self.status,
        }
    }
}

/// An effect whose failure is ignored.
pub open spec fn attempt(effect: Effect) -> Step {
    Step { effect, on_failure: OnFailure::Ignore }
}

/// The decision to do nothing and to go on.
pub open spec fn nothing() -> PlanView {
    PlanView { steps: Seq::empty(), continue_processing: true, status: None }
}

/// The decision to go on after some effects.
pub open spec fn doing(steps: Seq<Step>) -> PlanView {
    PlanView { steps, continue_processing: true, status: None }
}

/// The decision to abort processing, with a resting status where one is given.
pub open spec fn aborting(status: Option<char>) -> PlanView {
    PlanView { steps: Seq::empty(), continue_processing: false, status }
}

/// The decision to go on with a resting status.
pub open spec fn resting(status: Option<char>) -> PlanView {
    PlanView { steps: Seq::empty(), continue_processing: true, status }
}

impl PlanView {
    /// Whether the plan has an effect.
    pub open spec fn has(self, effect: Effect) -> bool {
        exists|i: int| 0 <= i < self.steps.len() && (#[trigger] self.steps[i]).effect == effect
    }

    /// Whether the plan records a connection to a party.
    pub open spec fn connects(self, party: Party) -> bool {
        exists|i: int|
            0 <= i < self.steps.len() && ((#[trigger] self.steps[i]).effect matches
                Effect::UpsertProfile(p, u) && p == party && u.connected == Patch::Value(
                ConnectionStatus::Connected,
            ))
    }
}

pub fn idle() -> (r: HookPlan)
    ensures
        r@ == nothing(),
{
    HookPlan { steps: Vec::new(), continue_processing: true, status: None }
}

pub fn abort(status: Option<char>) -> (r: HookPlan)
    ensures
        r@ == aborting(status),
{
    HookPlan { steps: Vec::new(), continue_processing: false, status }
}

pub fn rest(status: Option<char>) -> (r: HookPlan)
    ensures
        r@ == resting(status),
{
    HookPlan { steps: Vec::new(), continue_processing: true, status }
}

impl HookPlan {
    /// Adds an effect at the end.
    pub fn add_step(&mut self, effect: Effect, on_failure: OnFailure)
        ensures
            final(self)@ == (PlanView {
                steps: old(self)@.steps.push(Step { effect, on_failure }),
                ..old(self)@
            }),
    {
        self.steps.push(Step { effect, on_failure });
    }

    /// Adds an effect whose failure is ignored.
    pub fn attempt(&mut self, effect: Effect)
        ensures
            final(self)@ == (PlanView {
                steps: old(self)@.steps.push(self::attempt(effect)),
                ..old(self)@
            }),
    {
        self.steps.push(Step { effect, on_failure: OnFailure::Ignore });
    }
}

/// Who issues an action that a hook creates: this tenant answers a request for a connection, and
/// whoever was invited follows up on the invitation.
pub open spec fn creator_of(new: NewAction, ctx: HookContext) -> Seq<char> {
    match (new, ctx.audience) {
        (NewAction::ConnectionAcceptance, _) | (_, None) => ctx.tenant_tag@,
        (_, Some(invitee)) => invitee@,
    }
}

/// The metadata of a member's subscription.
pub open spec fn member_json() -> JsonView {
    JsonView::Object(seq![("role"@, JsonView::Text("member"@))])
}

/// Whether a request asks for the action that a hook creates for somebody.
pub open spec fn is_created(
    r: CreateAction,
    new: NewAction,
    to: Seq<char>,
    subject: Option<Seq<char>>,
) -> bool {
    &&& r.typ@ == (if new == NewAction::Membership {
        "SUBS"@
    } else {
        "CONN"@
    })
    &&& r.sub_typ.deep_view() == (if new == NewAction::ConnectionAcceptance {
        Some("ACC"@)
    } else {
        None
    })
    &&& r.audience_tag.deep_view() == Some(to)
    &&& r.subject.deep_view() == (if new == NewAction::Membership {
        subject
    } else {
        None
    })
    &&& json::held(r.x) == (if new == NewAction::Membership {
        Some(member_json())
    } else {
        None
    })
    &&& r.parent_id is None && r.content is None && r.attachments is None && r.expires_at is None
    &&& r.visibility is None && r.flags is None
}

/// The action that a hook creates for somebody, with its issuer.
pub fn created_action(new: NewAction, ctx: &HookContext, to: &str) -> (r: (String, CreateAction))
    ensures
        r.0@ == creator_of(new, *ctx),
        is_created(r.1, new, to@, ctx.subject.deep_view()),
{
    let mut action = CreateAction::default();
    action.typ = text::owned("CONN");
    action.audience_tag = Some(text::owned(to));
    match new {
        NewAction::ConnectionRequest => {},
        NewAction::ConnectionAcceptance => {
            action.sub_typ = Some(text::owned("ACC"));
            return (ctx.tenant_tag.clone(), action);
        },
        NewAction::Membership => {
            action.typ = text::owned("SUBS");
            action.subject = text::owned_opt(text::as_opt(&ctx.subject));
            let mut members: Vec<(String, Json)> = Vec::new();
            members.push((text::owned("role"), Json::Text(text::owned("member"))));
            let x = Json::Object(members);
            proof {
                reveal_with_fuel(json::says, 2);
                assert(x@->Object_0 =~= member_json()->Object_0);
            }
            action.x = Some(x);
        },
    }
    let issuer: String = match &ctx.audience {
        Some(invitee) => invitee.clone(),
        None => ctx.tenant_tag.clone(),
    };
    (issuer, action)
}

} // verus!
