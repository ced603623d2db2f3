//! `MSG`: messages, and the counters that group messages keep on their conversation.
use crate::action::helpers;
use crate::action::hooks::HookContext;
use crate::action::native_hooks::cmnt;
use crate::action::native_hooks::ownership;
use crate::action::native_hooks::plan::{
    self, attempt, doing, nothing, Effect, HookPlan, PlanView, Referred,
};
use crate::text;
use crate::types::ActionView;
use vstd::prelude::*;

verus! {

/// Whether a message is a group message of a conversation whose counters this tenant keeps. A
/// message under another message is not.
pub open spec fn counts_here(ctx: HookContext, parent: Option<ActionView>) -> bool {
    cmnt::keeps_counters(ctx.parent, parent, ctx.tenant_tag@) && parent->0.typ@ == "CONV"@
}

/// Whether the conversation's counters are to be recomputed.
pub fn recounts(ctx: &HookContext, parent: Option<&ActionView>) -> (r: bool)
    ensures
        r == counts_here(*ctx, helpers::opt_action(parent)),
{
    match (&ctx.parent, parent) {
        (Some(_), Some(a)) => text::same(a.typ.as_str(), "CONV") && ownership::owns_subject(
            a,
            ctx.tenant_tag.as_str(),
        ),
        _ => false,
    }
}

/// What a message does to its conversation.
pub open spec fn counter_plan(
    ctx: HookContext,
    parent: Option<ActionView>,
    stats: (u32, i64),
) -> PlanView {
    if counts_here(ctx, parent) {
        doing(
            seq![
                cmnt::write_counters(Referred::Parent, cmnt::comment_counters(stats)),
                attempt(Effect::EmitStat(Referred::Parent)),
            ],
        )
    } else {
        nothing()
    }
}

/// Keeps the counters of the conversation that a message belongs to. `parent` is the parent on
/// record, and `stats` its messages as recomputed, which count only where [`recounts`] asks for
/// them.
pub fn update_conv_counters(ctx: &HookContext, parent: Option<&ActionView>, stats: (u32, i64)) -> (r:
    HookPlan)
    ensures
        r@ == counter_plan(*ctx, helpers::opt_action(parent), stats),
{
    let mut p = plan::idle();
    if recounts(ctx, parent) {
        cmnt::add_comment_counters(&mut p, stats);
    }
    p
}

/// Decides on a `MSG` created here.
pub fn on_create(ctx: &HookContext, parent: Option<&ActionView>, stats: (u32, i64)) -> (r: HookPlan)
    ensures
        r@ == counter_plan(*ctx, helpers::opt_action(parent), stats),
{
    update_conv_counters(ctx, parent, stats)
}

/// Decides on a `MSG` that arrived.
pub fn on_receive(ctx: &HookContext, parent: Option<&ActionView>, stats: (u32, i64)) -> (r: HookPlan)
    ensures
        r@ == counter_plan(*ctx, helpers::opt_action(parent), stats),
{
    update_conv_counters(ctx, parent, stats)
}

} // verus!
