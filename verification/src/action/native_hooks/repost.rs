//! `REPOST`: reposts, and the count that they keep on their subject.
use crate::action::helpers;
use crate::action::hooks::HookContext;
use crate::action::native_hooks::cmnt;
use crate::action::native_hooks::plan::{
    self, attempt, doing, nothing, CounterUpdate, Effect, HookPlan, OnFailure, PlanView, Referred,
};
use crate::action::native_hooks::react;
use crate::types::{ActionView, Patch};
use vstd::prelude::*;

verus! {

/// The counter for a number of reposts; one that does not fit counts as none.
pub open spec fn repost_counter(count: i64) -> CounterUpdate {
    CounterUpdate {
        comments: Patch::Undefined,
        comments_ts: Patch::Undefined,
        reposts: Patch::Value(
            if 0 <= count <= u32::MAX {
                count as u32
            } else {
                0
            },
        ),
    }
}

/// What a repost does to its subject: where this tenant keeps the subject's counters, the count
/// is written and told to the followers.
pub open spec fn repost_plan(ctx: HookContext, subject: Option<ActionView>, count: i64) -> PlanView {
    if cmnt::keeps_counters(ctx.subject, subject, ctx.tenant_tag@) {
        doing(
            seq![
                cmnt::write_counters(Referred::Subject, repost_counter(count)),
                attempt(Effect::EmitStat(Referred::Subject)),
            ],
        )
    } else {
        nothing()
    }
}

/// Keeps the repost count of the subject. `subject` is the subject on record, and `count` its
/// reposts as recomputed, which count only where [`react::recounts`] asks for them.
pub fn emit_if_owned(ctx: &HookContext, subject: Option<&ActionView>, count: i64) -> (r: HookPlan)
    ensures
        r@ == repost_plan(*ctx, helpers::opt_action(subject), count),
{
    let mut p = plan::idle();
    if react::recounts(ctx, subject) {
        let reposts: u32 = if 0 <= count && count <= 4294967295 {
            count as u32
        } else {
            0
        };
        p.add_step(
            Effect::UpdateCounters(
                Referred::Subject,
                CounterUpdate {
                    comments: Patch::Undefined,
                    comments_ts: Patch::Undefined,
                    reposts: Patch::Value(reposts),
                },
            ),
            OnFailure::Stop,
        );
        p.attempt(Effect::EmitStat(Referred::Subject));
    }
    p
}

/// Decides on a `REPOST` created here.
pub fn on_create(ctx: &HookContext, subject: Option<&ActionView>, count: i64) -> (r: HookPlan)
    ensures
        r@ == repost_plan(*ctx, helpers::opt_action(subject), count),
{
    emit_if_owned(ctx, subject, count)
}

/// Decides on a `REPOST` that arrived.
pub fn on_receive(ctx: &HookContext, subject: Option<&ActionView>, count: i64) -> (r: HookPlan)
    ensures
        r@ == repost_plan(*ctx, helpers::opt_action(subject), count),
{
    emit_if_owned(ctx, subject, count)
}

} // verus!
