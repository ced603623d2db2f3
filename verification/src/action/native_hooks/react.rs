//! `REACT`: reactions, and the counts that they keep on their subject.
use crate::action::helpers;
use crate::action::hooks::HookContext;
use crate::action::native_hooks::cmnt;
use crate::action::native_hooks::ownership;
use crate::action::native_hooks::plan::{
    self, attempt, doing, nothing, Effect, HookPlan, OnFailure, PlanView, Referred, Step,
};
use crate::text;
use crate::types::ActionView;
use vstd::prelude::*;

verus! {

/// One kind of reaction: its subtype, the letter that the vocabulary of reactions has for it,
/// and how many there are.
pub struct ReactionGroup {
    pub sub_type: Option<String>,
    pub key: Option<char>,
    pub count: i64,
}

/// Whether a group counts: deletion markers, groups without a subtype and kinds that the
/// vocabulary does not know do not.
pub open spec fn group_counts(g: ReactionGroup) -> bool {
    g.sub_type is Some && g.sub_type->0@ != "DEL"@ && g.key is Some
}

/// A count as a 32-bit number; one that does not fit counts as none.
pub open spec fn group_size(g: ReactionGroup) -> u32 {
    if 0 <= g.count <= u32::MAX {
        g.count as u32
    } else {
        0
    }
}

/// The counts per kind, in order.
pub open spec fn kind_counts(groups: Seq<ReactionGroup>) -> Seq<(char, u32)>
    decreases groups.len(),
{
    if groups.len() == 0 {
        Seq::empty()
    } else {
        let rest = kind_counts(groups.drop_last());
        let g = groups.last();
        if group_counts(g) {
            rest.push((g.key->0, group_size(g)))
        } else {
            rest
        }
    }
}

/// The sum of the counts, held at the largest 32-bit number.
pub open spec fn capped_total(counts: Seq<(char, u32)>) -> int
    decreases counts.len(),
{
    if counts.len() == 0 {
        0
    } else {
        let sum = capped_total(counts.drop_last()) + counts.last().1;
        if sum > u32::MAX {
            u32::MAX as int
        } else {
            sum
        }
    }
}

/// The live reactions of a subject per kind, and their total.
pub fn count_reactions(groups: &Vec<ReactionGroup>) -> (r: (Vec<(char, u32)>, u32))
    ensures
        r.0@ == kind_counts(groups@),
        r.1 == capped_total(kind_counts(groups@)),
{
    let mut counts: Vec<(char, u32)> = Vec::new();
    let mut total: u32 = 0;
    let mut i: usize = 0;
    while i < groups.len()
        invariant
            i <= groups@.len(),
            counts@ == kind_counts(groups@.take(i as int)),
            total == capped_total(counts@),
        decreases groups@.len() - i,
    {
        let g = &groups[i];
        proof {
            assert(groups@.take(i + 1).drop_last() =~= groups@.take(i as int));
            assert(groups@.take(i + 1).last() == groups@[i as int]);
        }
        let live = match &g.sub_type {
            Some(st) => !text::same(st.as_str(), "DEL"),
            None => false,
        };
        if live {
            if let Some(key) = g.key {
                let n: u32 = if 0 <= g.count && g.count <= 4294967295 {
                    g.count as u32
                } else {
                    0
                };
                let ghost before = counts@;
                counts.push((key, n));
                proof {
                    assert(counts@.drop_last() =~= before);
                }
                total = if total > u32::MAX - n {
                    u32::MAX
                } else {
                    total + n
                };
            }
        }
        i = i + 1;
    }
    assert(groups@.take(i as int) =~= groups@);
    (counts, total)
}

/// Whether the subject's counts are to be recomputed.
pub fn recounts(ctx: &HookContext, subject: Option<&ActionView>) -> (r: bool)
    ensures
        r == cmnt::keeps_counters(ctx.subject, helpers::opt_action(subject), ctx.tenant_tag@),
{
    match (&ctx.subject, subject) {
        (Some(_), Some(a)) => ownership::owns_subject(a, ctx.tenant_tag.as_str()),
        _ => false,
    }
}

/// Writing the reactions ends the hook where it fails.
pub open spec fn write_reactions(reactions: String) -> Step {
    Step {
        effect: Effect::UpdateReactions(Referred::Subject, reactions),
        on_failure: OnFailure::Stop,
    }
}

/// What creating a `REACT` does: the thread is tracked unless the reaction is a deletion, and
/// the subject's counts are kept where this tenant keeps them.
pub open spec fn create_plan(
    ctx: HookContext,
    subject: Option<ActionView>,
    reactions: String,
) -> PlanView {
    if ctx.subject is None || subject is None {
        nothing()
    } else {
        let track = if cmnt::is_deletion(ctx) {
            Seq::empty()
        } else {
            seq![attempt(Effect::AutoTrackRoot(Referred::Subject))]
        };
        if cmnt::keeps_counters(ctx.subject, subject, ctx.tenant_tag@) {
            doing(
                track.push(write_reactions(reactions)).push(
                    attempt(Effect::EmitStat(Referred::Subject)),
                ),
            )
        } else {
            doing(track)
        }
    }
}

/// Decides on a `REACT` created here. `subject` is the subject on record, and `reactions` its
/// reaction string as recomputed, which counts only where [`recounts`] asks for it.
pub fn on_create(ctx: &HookContext, subject: Option<&ActionView>, reactions: String) -> (r: HookPlan)
    ensures
        r@ == create_plan(*ctx, helpers::opt_action(subject), reactions),
{
    let mut p = plan::idle();
    if ctx.subject.is_none() || subject.is_none() {
        return p;
    }
    if !text::is_text(text::as_opt(&ctx.subtype), "DEL") {
        p.attempt(Effect::AutoTrackRoot(Referred::Subject));
    }
    if recounts(ctx, subject) {
        p.add_step(Effect::UpdateReactions(Referred::Subject, reactions), OnFailure::Stop);
        p.attempt(Effect::EmitStat(Referred::Subject));
    }
    p
}

/// What receiving a `REACT` does: where this tenant keeps the subject's counts, they are kept,
/// and the thread is tracked unless the reaction is a deletion.
pub open spec fn receive_plan(
    ctx: HookContext,
    subject: Option<ActionView>,
    reactions: String,
) -> PlanView {
    if cmnt::keeps_counters(ctx.subject, subject, ctx.tenant_tag@) {
        let keep = seq![
            write_reactions(reactions),
            attempt(Effect::EmitStat(Referred::Subject)),
        ];
        if cmnt::is_deletion(ctx) {
            doing(keep)
        } else {
            doing(keep.push(attempt(Effect::AutoTrackRoot(Referred::Subject))))
        }
    } else {
        nothing()
    }
}

/// Decides on a `REACT` that arrived.
pub fn on_receive(ctx: &HookContext, subject: Option<&ActionView>, reactions: String) -> (r:
    HookPlan)
    ensures
        r@ == receive_plan(*ctx, helpers::opt_action(subject), reactions),
{
    let mut p = plan::idle();
    if recounts(ctx, subject) {
        p.add_step(Effect::UpdateReactions(Referred::Subject, reactions), OnFailure::Stop);
        p.attempt(Effect::EmitStat(Referred::Subject));
        if !text::is_text(text::as_opt(&ctx.subtype), "DEL") {
            p.attempt(Effect::AutoTrackRoot(Referred::Subject));
        }
    }
    p
}

} // verus!
