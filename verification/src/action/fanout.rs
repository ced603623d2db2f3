//! Fan-out: delivering an action to the subscribers of the container that it belongs to.
use crate::action::delivery::{
    delivery_to, deliveries_to, pair_key, paired_key, schedule_deliveries, ActionDeliveryTask,
    ScheduledDelivery, ScheduledView,
};
use crate::action::dsl::engine::DslEngine;
use crate::action::dsl::types::ActionDefinition;
use crate::action::filter;
use crate::action::helpers;
use crate::action::native_hooks::ownership;
use crate::action::subject_ref::{self, SubjectView};
use crate::action::task::{is_bare_action, CreateAction};
use crate::text;
use crate::types::{ActionView, TnId};
use vstd::prelude::*;

verus! {

/// The action that travels with a delivery: the subject, where the type delivers its subject and
/// the subject names an action.
pub fn related_action_id(subject: Option<&str>, deliver_subject: bool) -> (r: Option<String>)
    ensures
        r.deep_view() == (if deliver_subject && names_action(subject.deep_view()) {
            subject.deep_view()
        } else {
            None
        }),
{
    match subject {
        Some(s) => {
            if deliver_subject && subject_ref::is_action_subject(s) {
                Some(text::owned(s))
            } else {
                None
            }
        },
        None => None,
    }
}

/// Whether a subject names an action.
pub open spec fn names_action(subject: Option<Seq<char>>) -> bool {
    subject is Some && (subject_ref::subject_of(subject->0) matches Some(SubjectView::Action(_)))
}

/// Where the walk up a parent chain goes from an action.
#[derive(Debug)]
pub enum WalkStep {
    /// The action is the container that was looked for.
    Found,
    /// The chain goes on with this action.
    Next(String),
    /// The chain ends without a container.
    End,
}

/// Takes one step of the walk from an action up its parents to the first one that can be
/// subscribed to. `action` is what is on record under the id that the walk has come to.
pub fn walk_step(engine: &DslEngine, action: Option<&ActionView>) -> (r: WalkStep)
    ensures
        match action {
            None => r is End,
            Some(a) => if filter::subscribable(engine@, a.typ@) {
                r is Found
            } else {
                match a.parent_id {
                    Some(p) => r matches WalkStep::Next(id) && id@ == p@,
                    None => r is End,
                }
            },
        },
{
    match action {
        None => WalkStep::End,
        Some(a) => {
            if filter::is_subscribable(engine, a.typ.as_str()) {
                WalkStep::Found
            } else {
                match &a.parent_id {
                    Some(p) => WalkStep::Next(p.clone()),
                    None => WalkStep::End,
                }
            }
        },
    }
}

/// The issuers of subscriptions who are neither this tenant nor the issuer of the action, in
/// order.
pub open spec fn subscriber_tags(
    subs: Seq<ActionView>,
    our_id_tag: Seq<char>,
    issuer: Seq<char>,
) -> Seq<Seq<char>>
    decreases subs.len(),
{
    if subs.len() == 0 {
        Seq::empty()
    } else {
        let rest = subscriber_tags(subs.drop_last(), our_id_tag, issuer);
        let tag = subs.last().issuer.id_tag@;
        if tag != our_id_tag && tag != issuer {
            rest.push(tag)
        } else {
            rest
        }
    }
}

/// Those to whom an action is delivered, given the container that it belongs to and the active
/// subscriptions to it. Only the tenant that owns the container delivers.
pub fn fanout_recipients(
    container: &ActionView,
    subs: &Vec<ActionView>,
    our_id_tag: &str,
    issuer: &str,
) -> (r: Vec<String>)
    ensures
        r.deep_view() == (if ownership::owner_of(*container) == our_id_tag@ {
            subscriber_tags(subs@, our_id_tag@, issuer@)
        } else {
            Seq::empty()
        }),
{
    let mut out: Vec<String> = Vec::new();
    assert(out.deep_view() =~= Seq::<Seq<char>>::empty());
    if !ownership::owns_subject(container, our_id_tag) {
        return out;
    }
    let mut i: usize = 0;
    while i < subs.len()
        invariant
            i <= subs@.len(),
            out.deep_view() == subscriber_tags(subs@.take(i as int), our_id_tag@, issuer@),
        decreases subs@.len() - i,
    {
        let ghost before = out.deep_view();
        let tag = subs[i].issuer.id_tag.as_str();
        proof {
            assert(subs@.take(i + 1).drop_last() =~= subs@.take(i as int));
            assert(subs@.take(i + 1).last() == subs@[i as int]);
        }
        if !text::same(tag, our_id_tag) && !text::same(tag, issuer) {
            out.push(text::owned(tag));
            assert(out.deep_view() =~= before.push(tag@));
        }
        i = i + 1;
    }
    assert(subs@.take(i as int) =~= subs@);
    out
}

/// Nobody gets back what they issued, the owner delivers nothing to itself, and every other
/// subscriber is a recipient.
pub proof fn law_fanout_recipients(
    subs: Seq<ActionView>,
    our_id_tag: Seq<char>,
    issuer: Seq<char>,
    tag: Seq<char>,
)
    ensures
        subscriber_tags(subs, our_id_tag, issuer).contains(tag) <==> tag != our_id_tag && tag
            != issuer && (exists|i: int|
            0 <= i < subs.len() && (#[trigger] subs[i]).issuer.id_tag@ == tag),
    decreases subs.len(),
{
    if subs.len() > 0 {
        let t = subs.drop_last();
        let last = subs.last().issuer.id_tag@;
        law_fanout_recipients(t, our_id_tag, issuer, tag);
        helpers::lemma_push_contains(subscriber_tags(t, our_id_tag, issuer), last, tag);
        if exists|i: int| 0 <= i < subs.len() && (#[trigger] subs[i]).issuer.id_tag@ == tag {
            let i = choose|i: int|
                0 <= i < subs.len() && (#[trigger] subs[i]).issuer.id_tag@ == tag;
            if i < t.len() {
                assert(t[i].issuer.id_tag@ == tag);
            }
        }
        if exists|i: int| 0 <= i < t.len() && (#[trigger] t[i]).issuer.id_tag@ == tag {
            let i = choose|i: int| 0 <= i < t.len() && (#[trigger] t[i]).issuer.id_tag@ == tag;
            assert(subs[i].issuer.id_tag@ == tag);
        }
        if last == tag {
            assert(subs[subs.len() - 1].issuer.id_tag@ == tag);
        }
    }
}

/// The action that a fan-out delivers.
pub struct FanOut<'a> {
    pub action_id: &'a str,
    /// Its type, where it is on record.
    pub typ: Option<&'a str>,
    pub subject: Option<&'a str>,
    pub issuer_tag: &'a str,
}

/// Whether a type delivers the subject of its actions along with them.
pub open spec fn delivers_subject(
    m: Map<Seq<char>, ActionDefinition>,
    typ: Option<Seq<char>>,
) -> bool {
    typ is Some && m.dom().contains(typ->0) && m[typ->0].behavior.deliver_subject == Some(true)
}

/// The deliveries by which an action reaches the subscribers of its container: only the owner of
/// the container delivers, and the subject travels along where the type asks for it.
pub open spec fn fanout_of(
    m: Map<Seq<char>, ActionDefinition>,
    tn_id: TnId,
    a: FanOut,
    container: Option<ActionView>,
    subs: Seq<ActionView>,
    our_id_tag: Seq<char>,
) -> Seq<ScheduledView> {
    match container {
        Some(c) => if ownership::owner_of(c) == our_id_tag {
            deliveries_to(
                "fanout:"@,
                tn_id,
                a.action_id@,
                subscriber_tags(subs, our_id_tag, a.issuer_tag@),
                if delivers_subject(m, a.typ.deep_view()) && names_action(a.subject.deep_view()) {
                    a.subject.deep_view()
                } else {
                    None
                },
            )
        } else {
            Seq::empty()
        },
        None => Seq::empty(),
    }
}

/// Schedules the deliveries by which an action reaches the subscribers of its container.
/// `container` is where the walk up its parents ends, and `subs` the active subscriptions to it.
pub fn schedule_subscriber_fanout(
    engine: &DslEngine,
    tn_id: TnId,
    a: &FanOut,
    container: Option<&ActionView>,
    subs: &Vec<ActionView>,
    our_id_tag: &str,
) -> (r: Vec<ScheduledDelivery>)
    ensures
        r.deep_view() == fanout_of(
            engine@,
            tn_id,
            *a,
            helpers::opt_action(container),
            subs@,
            our_id_tag@,
        ),
{
    let deliver_subject = match a.typ {
        Some(t) => match engine.get_behavior(t) {
            Some(b) => match b.deliver_subject {
                Some(x) => x,
                None => false,
            },
            None => false,
        },
        None => false,
    };
    match container {
        Some(c) => {
            let related = related_action_id(a.subject, deliver_subject);
            let recipients = fanout_recipients(c, subs, our_id_tag, a.issuer_tag);
            let out = schedule_deliveries(
                "fanout:",
                tn_id,
                a.action_id,
                &recipients,
                text::as_opt(&related),
            );
            assert(out.deep_view() =~= fanout_of(
                engine@,
                tn_id,
                *a,
                helpers::opt_action(container),
                subs@,
                our_id_tag@,
            ));
            out
        },
        None => {
            let none: Vec<ScheduledDelivery> = Vec::new();
            assert(none.deep_view() =~= Seq::<ScheduledView>::empty());
            none
        },
    }
}

/// An action that was accepted, as far as its relay is concerned.
pub struct RelayCandidate<'a> {
    pub typ: &'a str,
    pub sub_typ: Option<&'a str>,
    pub issuer_tag: &'a str,
    pub parent_id: Option<&'a str>,
    pub subject: Option<&'a str>,
}

/// Whether an action may belong to a container, and comes from another tenant. Our own actions
/// are never vouched for, so that a voucher does not vouch for itself.
pub open spec fn may_be_relayed(a: RelayCandidate, our_id_tag: Seq<char>) -> bool {
    (a.parent_id is Some || names_action(a.subject.deep_view())) && a.issuer_tag@ != our_id_tag
}

pub fn relay_applicable(a: &RelayCandidate, our_id_tag: &str) -> (r: bool)
    ensures
        r == may_be_relayed(*a, our_id_tag@),
{
    let referring = a.parent_id.is_some() || match a.subject {
        Some(s) => subject_ref::is_action_subject(s),
        None => false,
    };
    referring && !text::same(a.issuer_tag, our_id_tag)
}

/// What the owner of a container does with a child that it accepted.
#[derive(Debug, Clone, Copy, PartialEq, Eq, Structural)]
pub enum Relay {
    /// Nothing; the child goes out as it is.
    No,
    /// It vouches for the child before all subscribers.
    Vouch,
    /// It vouches for a join, and tells the joiner who is there.
    VouchAndBackfill,
}

/// Whether the type of a container relays its children.
pub open spec fn relays_children(
    m: Map<Seq<char>, ActionDefinition>,
    action_type: Seq<char>,
) -> bool {
    m.dom().contains(action_type) && m[action_type].behavior.relay_children == Some(true)
}

pub open spec fn relay_of(
    m: Map<Seq<char>, ActionDefinition>,
    a: RelayCandidate,
    container: Option<ActionView>,
    our_id_tag: Seq<char>,
) -> Relay {
    if !may_be_relayed(a, our_id_tag) || container is None || !relays_children(
        m,
        container->0.typ@,
    ) || ownership::owner_of(container->0) != our_id_tag {
        Relay::No
    } else if a.typ@ == "SUBS"@ && a.sub_typ is None {
        Relay::VouchAndBackfill
    } else {
        Relay::Vouch
    }
}

/// Decides on the relay of a child, given the container that its parent, or else its subject,
/// leads to.
pub fn maybe_relay_child_to_subscribers(
    engine: &DslEngine,
    a: &RelayCandidate,
    container: Option<&ActionView>,
    our_id_tag: &str,
) -> (r: Relay)
    ensures
        r == relay_of(engine@, *a, helpers::opt_action(container), our_id_tag@),
{
    if !relay_applicable(a, our_id_tag) {
        return Relay::No;
    }
    match container {
        None => Relay::No,
        Some(c) => {
            let relays = match engine.get_behavior(c.typ.as_str()) {
                Some(b) => match b.relay_children {
                    Some(x) => x,
                    None => false,
                },
                None => false,
            };
            if !relays || !ownership::owns_subject(c, our_id_tag) {
                Relay::No
            } else if text::same(a.typ, "SUBS") && a.sub_typ.is_none() {
                Relay::VouchAndBackfill
            } else {
                Relay::Vouch
            }
        },
    }
}

/// Only the owner of a container vouches, never for its own actions, so that vouching comes to
/// an end.
pub proof fn law_relay_by_the_owner_only(
    m: Map<Seq<char>, ActionDefinition>,
    a: RelayCandidate,
    container: Option<ActionView>,
    our_id_tag: Seq<char>,
)
    requires
        relay_of(m, a, container, our_id_tag) != Relay::No,
    ensures
        container is Some,
        ownership::owner_of(container->0) == our_id_tag,
        a.issuer_tag@ != our_id_tag,
{
}

/// The owner's voucher for a child: an approval of the child, under the container and for nobody
/// in particular.
pub fn relay_approval(child_id: &str, container_id: &str) -> (r: CreateAction)
    ensures
        is_bare_action(r, "APRV"@, Some(container_id@), None, Some(child_id@), Some('F')),
{
    CreateAction {
        typ: text::owned("APRV"),
        parent_id: Some(text::owned(container_id)),
        subject: Some(text::owned(child_id)),
        visibility: Some('F'),
        ..CreateAction::default()
    }
}

/// How a joiner learns of a member's subscription: the joiner's own they know; the owner's own
/// they get as it is; that of anybody else travels with the owner's voucher for it, where there
/// is one.
pub open spec fn backfill_of(
    tn_id: TnId,
    our_id_tag: Seq<char>,
    joiner: Seq<char>,
    member: ActionView,
    voucher: Option<Seq<char>>,
) -> Option<ScheduledView> {
    let key = paired_key("backfill:"@, joiner, member.action_id@);
    if member.issuer.id_tag@ == joiner {
        None
    } else if member.issuer.id_tag@ == our_id_tag {
        Some(ScheduledView { key, task: delivery_to(tn_id, member.action_id@, joiner, None) })
    } else {
        match voucher {
            Some(v) => Some(
                ScheduledView { key, task: delivery_to(tn_id, v, joiner, Some(member.action_id@)) },
            ),
            None => None,
        }
    }
}

/// The deliveries by which a joiner learns of the members, in order.
pub open spec fn roster_of(
    tn_id: TnId,
    our_id_tag: Seq<char>,
    joiner: Seq<char>,
    members: Seq<ActionView>,
    vouchers: Seq<Option<Seq<char>>>,
) -> Seq<ScheduledView>
    decreases members.len(),
{
    if members.len() == 0 {
        Seq::empty()
    } else {
        let rest = roster_of(tn_id, our_id_tag, joiner, members.drop_last(), vouchers);
        match backfill_of(
            tn_id,
            our_id_tag,
            joiner,
            members.last(),
            vouchers[members.len() - 1],
        ) {
            Some(d) => rest.push(d),
            None => rest,
        }
    }
}

fn backfill(
    tn_id: TnId,
    our_id_tag: &str,
    joiner: &str,
    member: &ActionView,
    voucher: Option<&str>,
) -> (r: Option<ScheduledDelivery>)
    ensures
        r.deep_view() == backfill_of(tn_id, our_id_tag@, joiner@, *member, voucher.deep_view()),
{
    let who = member.issuer.id_tag.as_str();
    let subscription = member.action_id.as_str();
    if text::same(who, joiner) {
        return None;
    }
    let key = pair_key("backfill:", joiner, subscription);
    let (action_id, related): (String, Option<String>) = if text::same(who, our_id_tag) {
        (text::owned(subscription), None)
    } else {
        match voucher {
            Some(v) => (text::owned(v), Some(text::owned(subscription))),
            None => {
                return None;
            },
        }
    };
    let task = ActionDeliveryTask::new_with_related(
        tn_id,
        action_id,
        text::owned(joiner),
        text::owned(joiner),
        related,
    );
    Some(ScheduledDelivery { key, task })
}

/// Schedules the deliveries by which a joiner learns who is there. `members` are the active
/// subscriptions to the container, and `vouchers` the owner's vouchers for them, in the same
/// order.
pub fn backfill_roster_to_joiner(
    tn_id: TnId,
    our_id_tag: &str,
    joiner: &str,
    members: &Vec<ActionView>,
    vouchers: &Vec<Option<String>>,
) -> (r: Vec<ScheduledDelivery>)
    requires
        members@.len() == vouchers@.len(),
    ensures
        r.deep_view() == roster_of(
            tn_id,
            our_id_tag@,
            joiner@,
            members@,
            vouchers.deep_view(),
        ),
{
    let mut out: Vec<ScheduledDelivery> = Vec::new();
    let mut i: usize = 0;
    assert(out.deep_view() =~= roster_of(
        tn_id,
        our_id_tag@,
        joiner@,
        members@.take(0),
        vouchers.deep_view(),
    ));
    while i < members.len()
        invariant
            members@.len() == vouchers@.len(),
            i <= members@.len(),
            out.deep_view() == roster_of(
                tn_id,
                our_id_tag@,
                joiner@,
                members@.take(i as int),
                vouchers.deep_view(),
            ),
        decreases members@.len() - i,
    {
        let ghost before = out.deep_view();
        proof {
            assert(members@.take(i + 1).drop_last() =~= members@.take(i as int));
            assert(members@.take(i + 1).last() == members@[i as int]);
        }
        let voucher = text::as_opt(&vouchers[i]);
        assert(voucher.deep_view() == vouchers.deep_view()[i as int]);
        match backfill(tn_id, our_id_tag, joiner, &members[i], voucher) {
            Some(d) => {
                out.push(d);
                assert(out.deep_view() =~= before.push(d.deep_view()));
            },
            None => {},
        }
        i = i + 1;
    }
    assert(members@.take(i as int) =~= members@);
    out
}

/// A joiner is told of nobody's subscription but those of other members.
pub proof fn law_joiner_learns_of_others(
    tn_id: TnId,
    our_id_tag: Seq<char>,
    joiner: Seq<char>,
    members: Seq<ActionView>,
    vouchers: Seq<Option<Seq<char>>>,
    i: int,
)
    requires
        0 <= i < roster_of(tn_id, our_id_tag, joiner, members, vouchers).len(),
    ensures
        roster_of(tn_id, our_id_tag, joiner, members, vouchers)[i].task.target_id_tag == joiner,
        exists|k: int|
            0 <= k < members.len() && (#[trigger] members[k]).issuer.id_tag@ != joiner
                && roster_of(tn_id, our_id_tag, joiner, members, vouchers)[i].key == paired_key(
                "backfill:"@,
                joiner,
                members[k].action_id@,
            ),
    decreases members.len(),
{
    let rest = members.drop_last();
    let earlier = roster_of(tn_id, our_id_tag, joiner, rest, vouchers);
    if i < earlier.len() {
        law_joiner_learns_of_others(tn_id, our_id_tag, joiner, rest, vouchers, i);
        let k = choose|k: int|
            0 <= k < rest.len() && (#[trigger] rest[k]).issuer.id_tag@ != joiner && earlier[i].key
                == paired_key("backfill:"@, joiner, rest[k].action_id@);
        assert(members[k].issuer.id_tag@ != joiner);
    } else {
        assert(members[members.len() - 1].issuer.id_tag@ != joiner);
    }
}

} // verus!
