//! `CMNT`: comments, and the counters that they keep on their parent.
//!
//! The counters are recomputed from the comments on record, never counted up or down, so that
//! they do not drift.
use crate::action::helpers;
use crate::action::hooks::HookContext;
use crate::action::native_hooks::ownership;
use crate::action::native_hooks::plan::{
    self, attempt, doing, nothing, CounterUpdate, Effect, HookPlan, OnFailure, PlanView, Referred,
    Step,
};
use crate::text;
use crate::types::{ActionView, Patch, Timestamp};
use vstd::prelude::*;

verus! {

/// The sum of the counts of all groups but that of the deletion markers.
pub open spec fn live_total(groups: Seq<(Option<String>, i64)>) -> int
    decreases groups.len(),
{
    if groups.len() == 0 {
        0
    } else {
        live_total(groups.drop_last()) + (if groups.last().0.deep_view() == Some("DEL"@) {
            0
        } else {
            groups.last().1 as int
        })
    }
}

/// Whether adding up the counts never leaves the range of 64-bit integers.
pub open spec fn sums_fit(groups: Seq<(Option<String>, i64)>) -> bool {
    forall|n: int|
        0 <= n <= groups.len() ==> i64::MIN <= #[trigger] live_total(groups.take(n)) <= i64::MAX
}

/// Adds up the counts per subtype, without the deletion markers.
pub fn count_live(groups: &Vec<(Option<String>, i64)>) -> (r: i64)
    requires
        sums_fit(groups@),
    ensures
        r == live_total(groups@),
{
    let mut total: i64 = 0;
    let mut i: usize = 0;
    while i < groups.len()
        invariant
            sums_fit(groups@),
            i <= groups@.len(),
            total == live_total(groups@.take(i as int)),
        decreases groups@.len() - i,
    {
        proof {
            assert(groups@.take(i + 1).drop_last() =~= groups@.take(i as int));
            assert(groups@.take(i + 1).last() == groups@[i as int]);
            assert(i64::MIN <= live_total(groups@.take(i + 1)) <= i64::MAX);
        }
        if !text::is_text(text::as_opt(&groups[i].0), "DEL") {
            total = total + groups[i].1;
        }
        i = i + 1;
    }
    assert(groups@.take(i as int) =~= groups@);
    total
}

/// The number of comments and the time of the newest: a count that is no 32-bit number is held at
/// the largest one, and the time is 0 where there is no comment.
pub fn recompute_comment_stats(groups: &Vec<(Option<String>, i64)>, newest: Option<Timestamp>) -> (r:
    (u32, i64))
    requires
        sums_fit(groups@),
    ensures
        r.0 == (if 0 <= live_total(groups@) <= u32::MAX {
            live_total(groups@)
        } else {
            u32::MAX as int
        }),
        r.1 == (match newest {
            Some(t) => t.0,
            None => 0,
        }),
{
    let total: i64 = count_live(groups);
    let count: u32 = if 0 <= total && total <= 4294967295 {
        total as u32
    } else {
        u32::MAX
    };
    let ts: i64 = match newest {
        Some(t) => t.0,
        None => 0,
    };
    (count, ts)
}

/// The counters for a number of comments and the time of the newest one.
pub open spec fn comment_counters(stats: (u32, i64)) -> CounterUpdate {
    CounterUpdate {
        comments: Patch::Value(stats.0),
        comments_ts: if stats.1 > 0 {
            Patch::Value(Timestamp(stats.1))
        } else {
            Patch::Null
        },
        reposts: Patch::Undefined,
    }
}

/// Writing counters ends the hook where it fails.
pub open spec fn write_counters(to: Referred, update: CounterUpdate) -> Step {
    Step { effect: Effect::UpdateCounters(to, update), on_failure: OnFailure::Stop }
}

/// Adds what keeps the counters of the parent.
pub fn add_comment_counters(p: &mut HookPlan, stats: (u32, i64))
    ensures
        final(p)@ == (PlanView {
            steps: old(p)@.steps.push(
                write_counters(Referred::Parent, comment_counters(stats)),
            ).push(attempt(Effect::EmitStat(Referred::Parent))),
            ..old(p)@
        }),
{
    let comments_ts = if stats.1 > 0 {
        Patch::Value(Timestamp(stats.1))
    } else {
        Patch::Null
    };
    p.add_step(
        Effect::UpdateCounters(
            Referred::Parent,
            CounterUpdate { comments: Patch::Value(stats.0), comments_ts, reposts: Patch::Undefined },
        ),
        OnFailure::Stop,
    );
    p.attempt(Effect::EmitStat(Referred::Parent));
}

pub open spec fn is_deletion(ctx: HookContext) -> bool {
    ctx.subtype.deep_view() == Some("DEL"@)
}

/// Whether this tenant keeps the counters of the action that an action refers to.
pub open spec fn keeps_counters(
    reference: Option<String>,
    found: Option<ActionView>,
    tenant_tag: Seq<char>,
) -> bool {
    reference is Some && found is Some && ownership::owner_of(found->0) == tenant_tag
}

/// Whether the parent's counters are to be recomputed.
pub fn recounts(ctx: &HookContext, parent: Option<&ActionView>) -> (r: bool)
    ensures
        r == keeps_counters(ctx.parent, helpers::opt_action(parent), ctx.tenant_tag@),
{
    match (&ctx.parent, parent) {
        (Some(_), Some(a)) => ownership::owns_subject(a, ctx.tenant_tag.as_str()),
        _ => false,
    }
}

/// What creating a `CMNT` does: the thread is tracked unless the comment is a deletion, and
/// the parent's counters are kept where this tenant keeps them.
pub open spec fn create_plan(
    ctx: HookContext,
    parent: Option<ActionView>,
    stats: (u32, i64),
) -> PlanView {
    if ctx.parent is None || parent is None {
        nothing()
    } else {
        let track = if is_deletion(ctx) {
            Seq::empty()
        } else {
            seq![attempt(Effect::AutoTrackRoot(Referred::Parent))]
        };
        if keeps_counters(ctx.parent, parent, ctx.tenant_tag@) {
            doing(
                track.push(write_counters(Referred::Parent, comment_counters(stats))).push(
                    attempt(Effect::EmitStat(Referred::Parent)),
                ),
            )
        } else {
            doing(track)
        }
    }
}

/// Decides on a `CMNT` created here. `parent` is the parent on record, and `stats` its comments
/// as recomputed, which count only where [`recounts`] asks for them.
pub fn on_create(ctx: &HookContext, parent: Option<&ActionView>, stats: (u32, i64)) -> (r: HookPlan)
    ensures
        r@ == create_plan(*ctx, helpers::opt_action(parent), stats),
{
    let mut p = plan::idle();
    if ctx.parent.is_none() || parent.is_none() {
        return p;
    }
    if !text::is_text(text::as_opt(&ctx.subtype), "DEL") {
        p.attempt(Effect::AutoTrackRoot(Referred::Parent));
    }
    if recounts(ctx, parent) {
        add_comment_counters(&mut p, stats);
    }
    p
}

/// What receiving a `CMNT` does: where this tenant keeps the parent's counters, they are kept
/// and the thread is tracked.
pub open spec fn receive_plan(
    ctx: HookContext,
    parent: Option<ActionView>,
    stats: (u32, i64),
) -> PlanView {
    if keeps_counters(ctx.parent, parent, ctx.tenant_tag@) {
        doing(
            seq![
                write_counters(Referred::Parent, comment_counters(stats)),
                attempt(Effect::EmitStat(Referred::Parent)),
                attempt(Effect::AutoTrackRoot(Referred::Parent)),
            ],
        )
    } else {
        nothing()
    }
}

/// Decides on a `CMNT` that arrived.
pub fn on_receive(ctx: &HookContext, parent: Option<&ActionView>, stats: (u32, i64)) -> (r: HookPlan)
    ensures
        r@ == receive_plan(*ctx, helpers::opt_action(parent), stats),
{
    let mut p = plan::idle();
    if recounts(ctx, parent) {
        add_comment_counters(&mut p, stats);
        p.attempt(Effect::AutoTrackRoot(Referred::Parent));
    }
    p
}

} // verus!
