//! `FLLW`: following in one direction. `DEL` ends it.
use crate::action::hooks::HookContext;
use crate::action::native_hooks::plan::{
    self, attempt, doing, nothing, Effect, HookPlan, Party, PlanView, ProfileUpdate,
};
use crate::text;
use crate::types::Patch;
use vstd::prelude::*;

verus! {

/// The update that sets whether a profile is followed.
pub open spec fn follow_update(following: Patch<bool>) -> ProfileUpdate {
    ProfileUpdate { following, connected: Patch::Undefined, roles: Patch::Undefined }
}

fn updating(following: Patch<bool>) -> (r: ProfileUpdate)
    ensures
        r == follow_update(following),
{
    ProfileUpdate { following, connected: Patch::Undefined, roles: Patch::Undefined }
}

/// What creating a `FLLW` does.
pub open spec fn create_plan(ctx: HookContext) -> PlanView {
    if ctx.audience is None {
        nothing()
    } else if ctx.subtype is None {
        doing(
            seq![
                attempt(Effect::EnsureProfile(Party::Audience)),
                attempt(
                    Effect::UpsertProfile(Party::Audience, follow_update(Patch::Value(true))),
                ),
                attempt(Effect::ScheduleHistorySync(Party::Audience)),
            ],
        )
    } else if ctx.subtype->0@ == "DEL"@ {
        doing(
            seq![attempt(Effect::UpsertProfile(Party::Audience, follow_update(Patch::Null)))],
        )
    } else {
        nothing()
    }
}

/// Decides on a `FLLW` created here.
pub fn on_create(ctx: &HookContext) -> (r: HookPlan)
    ensures
        r@ == create_plan(*ctx),
{
    let mut p = plan::idle();
    if ctx.audience.is_none() {
        return p;
    }
    match &ctx.subtype {
        None => {
            p.attempt(Effect::EnsureProfile(Party::Audience));
            p.attempt(Effect::UpsertProfile(Party::Audience, updating(Patch::Value(true))));
            p.attempt(Effect::ScheduleHistorySync(Party::Audience));
        },
        Some(st) => {
            if text::same(st.as_str(), "DEL") {
                p.attempt(Effect::UpsertProfile(Party::Audience, updating(Patch::Null)));
            }
        },
    }
    p
}

/// What receiving a `FLLW` does. A tenant that takes no followers marks it deleted and stays
/// silent, so that the sender learns nothing of the setting.
pub open spec fn receive_plan(ctx: HookContext, allow_followers: bool) -> PlanView {
    if !allow_followers {
        doing(seq![attempt(Effect::SetStatus('D'))])
    } else if ctx.subtype is None {
        doing(seq![attempt(Effect::EnsureProfile(Party::Issuer))])
    } else {
        nothing()
    }
}

/// Decides on a `FLLW` that arrived; `allow_followers` is the tenant's privacy setting.
pub fn on_receive(ctx: &HookContext, allow_followers: bool) -> (r: HookPlan)
    ensures
        r@ == receive_plan(*ctx, allow_followers),
{
    let mut p = plan::idle();
    if !allow_followers {
        p.attempt(Effect::SetStatus('D'));
    } else if ctx.subtype.is_none() {
        p.attempt(Effect::EnsureProfile(Party::Issuer));
    }
    p
}

} // verus!
