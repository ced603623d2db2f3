//! `SUBS`: subscriptions to an action. `UPD` changes one and `DEL` ends one.
use crate::action::helpers;
use crate::action::hooks::HookContext;
use crate::action::native_hooks::plan::{
    self, aborting, attempt, doing, nothing, resting, Effect, HookPlan, Party, PlanView,
};
use crate::text;
use crate::types::ActionView;
use vstd::prelude::*;

verus! {

fn key_of(prefix: &str, subject: &str, who: &str) -> (r: String)
    ensures
        r@ == prefix@ + subject@ + ":"@ + who@,
{
    let mut k = text::owned(prefix);
    k.append(subject);
    k.append(":");
    k.append(who);
    k
}

/// The key of an invitation of somebody to an action.
pub fn invitation_key(subject: &str, invitee: &str) -> (r: String)
    ensures
        r@ == "INVT:"@ + subject@ + ":"@ + invitee@,
{
    key_of("INVT:", subject, invitee)
}

/// The key of somebody's subscription to an action.
pub fn subscription_key(subject: &str, subscriber: &str) -> (r: String)
    ensures
        r@ == "SUBS:"@ + subject@ + ":"@ + subscriber@,
{
    key_of("SUBS:", subject, subscriber)
}

/// What the store says when a `SUBS` arrives.
pub struct SubsFacts<'a> {
    /// The action subscribed to.
    pub target: Option<&'a ActionView>,
    /// Whether an invitation of the issuer to it is on record.
    pub invited: bool,
    /// Whether a subscription of the issuer to it is on record.
    pub subscribed: bool,
    /// That subscription, read in full.
    pub subscription: Option<&'a ActionView>,
}

/// The status of an action: the first letter of its status text, and deleted where it has none
/// or could not be read.
pub open spec fn status_of(a: Option<ActionView>) -> char {
    match a {
        Some(v) => match v.status {
            Some(s) => if s@.len() > 0 {
                s@[0]
            } else {
                'D'
            },
            None => 'D',
        },
        None => 'D',
    }
}

pub fn status_char(a: Option<&ActionView>) -> (r: char)
    ensures
        r == status_of(helpers::opt_action(a)),
{
    match a {
        Some(v) => match &v.status {
            Some(s) => {
                if s.as_str().is_empty() {
                    'D'
                } else {
                    s.as_str().get_char(0)
                }
            },
            None => 'D',
        },
        None => 'D',
    }
}

/// Whether a new subscription is admitted: the target is open, the issuer was invited or created
/// the target, or the owner of the target vouches for the subscription.
pub open spec fn admitted(ctx: HookContext, target: ActionView, invited: bool) -> bool {
    helpers::open_flag(target.flags.deep_view()) || invited || ctx.issuer@
        == target.issuer.id_tag@ || ctx.pre_approved
}

/// What receiving a `SUBS` does.
pub open spec fn receive_plan(ctx: HookContext, facts: SubsFacts) -> PlanView {
    let retire = seq![attempt(Effect::RetireSubjectInvitations(Party::Issuer))];
    if ctx.subject is None || facts.target is None {
        aborting(None)
    } else if ctx.subtype is None {
        if helpers::open_flag(facts.target->0.flags.deep_view()) || facts.invited {
            doing(retire)
        } else if admitted(ctx, *facts.target->0, facts.invited) {
            nothing()
        } else {
            resting(Some('D'))
        }
    } else if ctx.subtype->0@ == "UPD"@ {
        if facts.subscribed && status_of(helpers::opt_action(facts.subscription)) == 'A' {
            nothing()
        } else {
            aborting(Some('D'))
        }
    } else if ctx.subtype->0@ == "DEL"@ {
        doing(retire)
    } else {
        nothing()
    }
}

/// Decides on a `SUBS` that arrived.
pub fn on_receive(ctx: &HookContext, facts: &SubsFacts) -> (r: HookPlan)
    ensures
        r@ == receive_plan(*ctx, *facts),
{
    if ctx.subject.is_none() {
        return plan::abort(None);
    }
    let target: &ActionView = match facts.target {
        Some(t) => t,
        None => {
            return plan::abort(None);
        },
    };
    let mut p = plan::idle();
    match &ctx.subtype {
        None => {
            if helpers::is_open(text::as_opt(&target.flags)) || facts.invited {
                p.attempt(Effect::RetireSubjectInvitations(Party::Issuer));
                return p;
            }
            if text::same(ctx.issuer.as_str(), target.issuer.id_tag.as_str()) || ctx.pre_approved {
                return p;
            }
            p.status = Some('D');
        },
        Some(st) => {
            if text::same(st.as_str(), "UPD") {
                if !facts.subscribed || status_char(facts.subscription) != 'A' {
                    return plan::abort(Some('D'));
                }
            } else if text::same(st.as_str(), "DEL") {
                p.attempt(Effect::RetireSubjectInvitations(Party::Issuer));
            }
        },
    }
    p
}

/// What creating a `SUBS` does.
pub open spec fn create_plan(ctx: HookContext, target_found: bool) -> PlanView {
    if ctx.subject is None || !target_found {
        aborting(None)
    } else if ctx.subtype is Some && ctx.subtype->0@ == "DEL"@ {
        doing(seq![attempt(Effect::RetireSubjectInvitations(Party::Issuer))])
    } else {
        nothing()
    }
}

/// Decides on a `SUBS` created here; `target_found` tells whether the subject is on record.
pub fn on_create(ctx: &HookContext, target_found: bool) -> (r: HookPlan)
    ensures
        r@ == create_plan(*ctx, target_found),
{
    if ctx.subject.is_none() || !target_found {
        return plan::abort(None);
    }
    let mut p = plan::idle();
    if text::is_text(text::as_opt(&ctx.subtype), "DEL") {
        p.attempt(Effect::RetireSubjectInvitations(Party::Issuer));
    }
    p
}

/// A new subscription rests as active exactly where it is admitted, and as deleted otherwise.
pub proof fn law_subscription_admission(ctx: HookContext, facts: SubsFacts)
    requires
        ctx.subject is Some && ctx.subtype is None,
        facts.target is Some,
    ensures
        receive_plan(ctx, facts).status == (if admitted(ctx, *facts.target->0, facts.invited) {
            None
        } else {
            Some('D')
        }),
        receive_plan(ctx, facts).continue_processing,
{
}

/// A subscription that is not active cannot be brought back by an update.
pub proof fn law_update_never_reactivates(ctx: HookContext, facts: SubsFacts)
    requires
        ctx.subtype is Some && ctx.subtype->0@ == "UPD"@,
        status_of(helpers::opt_action(facts.subscription)) != 'A',
    ensures
        !receive_plan(ctx, facts).continue_processing,
{
}

/// A member can always leave.
pub proof fn law_leaving_is_always_accepted(ctx: HookContext, facts: SubsFacts)
    requires
        ctx.subject is Some && facts.target is Some,
        ctx.subtype is Some && ctx.subtype->0@ == "DEL"@,
    ensures
        receive_plan(ctx, facts).continue_processing,
        receive_plan(ctx, facts).status is None,
{
    reveal_strlit("DEL");
    reveal_strlit("UPD");
    assert("DEL"@[0] != "UPD"@[0]);
}

} // verus!
