//! Whom an action reaches: subscribers, readers, clients and other instances, and what is told to
//! each of them.
use crate::action::delivery::{
    self, delivery_retry, inbox_payload, schedule_deliveries, ActionDeliveryTask, RetryPolicy,
    ScheduledDelivery,
};
use crate::action::dsl::engine::DslEngine;
use crate::action::fanout::{
    self, backfill_roster_to_joiner, fanout_recipients, maybe_relay_child_to_subscribers,
    related_action_id, relay_approval, schedule_subscriber_fanout, walk_step, FanOut, Relay,
    RelayCandidate, WalkStep,
};
use crate::action::filter::{
    self, container_ids, filter_actions_by_visibility, subject_has_peer_relation_to_tenant,
    subscribed_container_id, view_audience, view_question, Reader, ViewCheckContext,
};
use crate::action::forward::{
    build_action_message, email_throttle_group, forward_action, forward_inbound_action,
    get_email_setting_key, get_push_setting_key, is_email_notifiable, notify_action_label,
    should_push_notify, DeliveryResult, ForwardActionParams, ForwardResult,
};
use crate::action::helpers;
use crate::action::history_sync::{self, ingest_steps, HistoryFetchTask, IngestStep, OutboxItem};
use crate::action::key_cache::{FailureEntry, FailureType};
use crate::action::settings::{self, SettingScope, SettingValue};
use crate::action::subject_ref::{parse_subject_ref, subject_of, SubjectRef, SubjectView};
use crate::action::task::CreateAction;
use crate::decimal;
use crate::json::{self, Json, JsonView};
use crate::str_map::StrMap;
use crate::types::{ActionView, Error, Timestamp, TnId};
use vstd::prelude::*;

verus! {

// ---------------------------------------------------------------------------------------------
// Subscribers
// ---------------------------------------------------------------------------------------------

/// The tenant that owns an action: its audience, and without one its issuer.
pub open spec fn owner(a: ActionView) -> Seq<char> {
    if a.audience is Some {
        a.audience->0.id_tag@
    } else {
        a.issuer.id_tag@
    }
}

/// Only the owner of a container hands on what is in it, and then to every subscriber but itself and
/// the issuer, and to nobody else.
pub proof fn law_who_gets_what_is_in_a_container(
    container: &ActionView,
    subs: &Vec<ActionView>,
    own: &str,
    issuer: &str,
    r: Vec<String>,
    tag: Seq<char>,
)
    requires
        call_ensures(fanout_recipients, (container, subs, own, issuer), r),
    ensures
        r.deep_view().contains(tag) <==> owner(*container) == own@ && tag != own@ && tag != issuer@
            && exists|i: int|
            0 <= i < subs@.len() && (#[trigger] subs@[i]).issuer.id_tag@ == tag,
{
    fanout::law_fanout_recipients(subs@, own@, issuer@, tag);
}

/// The walk from an action to its container ends at the first action that can be subscribed to, and
/// else goes on with the parent.
pub proof fn law_walk_to_the_container(engine: &DslEngine, a: &ActionView, r: WalkStep, none: WalkStep)
    requires
        call_ensures(walk_step, (engine, Some(a)), r),
        call_ensures(walk_step, (engine, None), none),
    ensures
        none is End,
        r is Found <==> engine@.dom().contains(a.typ@) && engine@[a.typ@].behavior.subscribable
            == Some(true),
        !(r is Found) && a.parent_id is Some ==> r is Next && r->Next_0@ == a.parent_id->0@,
        !(r is Found) && a.parent_id is None ==> r is End,
{
}

/// Each recipient gets one delivery of the action at their own instance, in their order, with the
/// related action, and under a key that tells the action and the recipient.
pub proof fn law_one_delivery_for_each_recipient(
    prefix: &str,
    tn_id: TnId,
    action_id: &str,
    recipients: &Vec<String>,
    related: Option<&str>,
    r: Vec<ScheduledDelivery>,
    i: int,
)
    requires
        call_ensures(schedule_deliveries, (prefix, tn_id, action_id, recipients, related), r),
    ensures
        r@.len() == recipients@.len(),
        0 <= i < r@.len() ==> {
            let d = r@[i];
            let to = recipients@[i]@;
            &&& d.key@ == prefix@ + action_id@ + ":"@ + to
            &&& d.task.tn_id == tn_id && d.task.action_id@ == action_id@
            &&& d.task.target_instance@ == to && d.task.target_id_tag@ == to
            &&& d.task.related_action_id.deep_view() == related.deep_view()
        },
{
    assert(r.deep_view().len() == r@.len());
    if 0 <= i < r@.len() {
        assert(r.deep_view()[i] == r@[i].deep_view());
        assert(recipients.deep_view()[i] == recipients@[i]@);
    }
}

/// What is handed on to subscribers is delivered to each of them, by the owner of the container only;
/// the subject travels along where its type says so and it names an action.
pub proof fn law_fan_out(
    engine: &DslEngine,
    tn_id: TnId,
    a: &FanOut,
    container: Option<&ActionView>,
    subs: &Vec<ActionView>,
    own: &str,
    r: Vec<ScheduledDelivery>,
    tags: Vec<String>,
    i: int,
)
    requires
        call_ensures(schedule_subscriber_fanout, (engine, tn_id, a, container, subs, own), r),
        container is Some ==> call_ensures(
            fanout_recipients,
            (container->0, subs, own, a.issuer_tag),
            tags,
        ),
    ensures
        container is None ==> r@.len() == 0,
        container is Some ==> r@.len() == tags@.len(),
        container is Some && 0 <= i < r@.len() ==> {
            let travels = a.typ is Some && engine@.dom().contains(a.typ->0@)
                && engine@[a.typ->0@].behavior.deliver_subject == Some(true) && a.subject is Some
                && (subject_of(a.subject->0@) matches Some(SubjectView::Action(_)));
            &&& r@[i].task.target_id_tag@ == tags@[i]@ && r@[i].task.target_instance@ == tags@[i]@
            &&& r@[i].task.action_id@ == a.action_id@ && r@[i].task.tn_id == tn_id
            &&& r@[i].key@ == "fanout:"@ + a.action_id@ + ":"@ + tags@[i]@
            &&& travels ==> r@[i].task.related_action_id.deep_view() == Some(a.subject->0@)
            &&& !travels ==> r@[i].task.related_action_id is None
        },
{
    assert(r.deep_view().len() == r@.len());
    if a.typ is Some {
        assert(a.typ.deep_view() == Some(a.typ->0@));
    }
    if a.subject is Some {
        assert(a.subject.deep_view() == Some(a.subject->0@));
    }
    if container is Some {
        assert(tags.deep_view().len() == tags@.len());
        assert(helpers::opt_action(container) == Some(*container->0));
        if 0 <= i < r@.len() {
            assert(r.deep_view()[i] == r@[i].deep_view());
            assert(tags.deep_view()[i] == tags@[i]@);
            assert(r@[i].task.related_action_id.deep_view() is None
                <==> r@[i].task.related_action_id is None);
        }
    }
}

/// The subject that travels along is one that names an action.
pub proof fn law_related_actions(subject: &str, deliver: bool, r: Option<String>)
    requires
        call_ensures(related_action_id, (Some(subject), deliver), r),
    ensures
        r is Some <==> deliver && (subject_of(subject@) matches Some(SubjectView::Action(_))),
        r is Some ==> r->0@ == subject@,
{
    assert(Some(subject).deep_view() == Some(subject@));
    assert(r.deep_view() is Some <==> r is Some);
}

/// The owner of a container vouches for what somebody else put in it where its type relays; for a
/// join it also tells the joiner who is there. Nobody else vouches, and nobody for themselves.
pub proof fn law_who_vouches(
    engine: &DslEngine,
    a: &RelayCandidate,
    container: Option<&ActionView>,
    own: &str,
    r: Relay,
)
    requires
        call_ensures(maybe_relay_child_to_subscribers, (engine, a, container, own), r),
    ensures
        r != Relay::No ==> container is Some && owner(*container->0) == own@ && a.issuer_tag@ != own@
            && engine@.dom().contains(container->0.typ@)
            && engine@[container->0.typ@].behavior.relay_children == Some(true),
        (container is Some && owner(*container->0) == own@ && a.issuer_tag@ != own@
            && engine@.dom().contains(container->0.typ@)
            && engine@[container->0.typ@].behavior.relay_children == Some(true) && a.parent_id is Some)
            ==> r != Relay::No,
        r != Relay::No ==> (r == Relay::VouchAndBackfill <==> a.typ@ == "SUBS"@ && a.sub_typ is None),
        a.parent_id is None && a.subject is None ==> r == Relay::No,
{
}

/// A voucher is an approval of the child under its container, for followers and for nobody in
/// particular.
pub proof fn law_vouchers(child: &str, container: &str, r: CreateAction)
    requires
        call_ensures(relay_approval, (child, container), r),
    ensures
        r.typ@ == "APRV"@ && r.sub_typ is None,
        r.parent_id is Some && r.parent_id->0@ == container@,
        r.subject is Some && r.subject->0@ == child@,
        r.audience_tag is None && r.visibility == Some('F') && r.content is None,
{
    assert(r.parent_id.deep_view() == Some(container@));
    assert(r.subject.deep_view() == Some(child@));
    assert(r.audience_tag.deep_view() is None);
}

/// A joiner learns of every other member: of the owner's own subscription directly, of anybody
/// else's with the owner's voucher for it.
pub proof fn law_joiners_learn_who_is_there(
    tn_id: TnId,
    own: Seq<char>,
    joiner: Seq<char>,
    members: Seq<ActionView>,
    vouchers: Seq<Option<Seq<char>>>,
    i: int,
)
    requires
        0 <= i < members.len(),
        vouchers.len() >= members.len(),
        members[i].issuer.id_tag@ != joiner,
        members[i].issuer.id_tag@ == own || vouchers[i] is Some,
    ensures
        exists|k: int|
            0 <= k < fanout::roster_of(tn_id, own, joiner, members, vouchers).len() && {
                let t = (#[trigger] fanout::roster_of(tn_id, own, joiner, members, vouchers)[k]).task;
                &&& t.tn_id == tn_id.0
                &&& t.target_id_tag == joiner && t.target_instance == joiner
                &&& members[i].issuer.id_tag@ == own ==> t.action_id == members[i].action_id@
                    && t.related_action_id is None
                &&& members[i].issuer.id_tag@ != own ==> Some(t.action_id) == vouchers[i]
                    && t.related_action_id == Some(members[i].action_id@)
            },
    decreases members.len(),
{
    let rest = members.drop_last();
    let before = fanout::roster_of(tn_id, own, joiner, rest, vouchers);
    let now = fanout::roster_of(tn_id, own, joiner, members, vouchers);
    if i < members.len() - 1 {
        assert(rest[i] == members[i]);
        law_joiners_learn_who_is_there(tn_id, own, joiner, rest, vouchers, i);
        let k = choose|k: int|
            0 <= k < before.len() && {
                let t = (#[trigger] before[k]).task;
                &&& t.tn_id == tn_id.0
                &&& t.target_id_tag == joiner && t.target_instance == joiner
                &&& members[i].issuer.id_tag@ == own ==> t.action_id == members[i].action_id@
                    && t.related_action_id is None
                &&& members[i].issuer.id_tag@ != own ==> Some(t.action_id) == vouchers[i]
                    && t.related_action_id == Some(members[i].action_id@)
            };
        assert(now[k] == before[k]);
    } else {
        assert(now[now.len() - 1].task.target_id_tag == joiner);
    }
}

/// The roster that is sent to a joiner is the one that the members and the vouchers come to.
pub proof fn law_rosters(
    tn_id: TnId,
    own: &str,
    joiner: &str,
    members: &Vec<ActionView>,
    vouchers: &Vec<Option<String>>,
    r: Vec<ScheduledDelivery>,
    i: int,
)
    requires
        call_ensures(backfill_roster_to_joiner, (tn_id, own, joiner, members, vouchers), r),
        members@.len() == vouchers@.len(),
        0 <= i < members@.len(),
        members@[i].issuer.id_tag@ != joiner@,
        members@[i].issuer.id_tag@ != own@,
        vouchers@[i] is Some,
    ensures
        exists|k: int|
            0 <= k < r@.len() && {
                let t = (#[trigger] r@[k]).task;
                t.target_id_tag@ == joiner@ && t.action_id@ == vouchers@[i]->0@
                    && t.related_action_id.deep_view() == Some(members@[i].action_id@)
            },
{
    law_joiners_learn_who_is_there(tn_id, own@, joiner@, members@, vouchers.deep_view(), i);
    assert(vouchers.deep_view()[i] == vouchers@[i].deep_view());
    let all = fanout::roster_of(tn_id, own@, joiner@, members@, vouchers.deep_view());
    let k = choose|k: int|
        0 <= k < all.len() && {
            let t = (#[trigger] all[k]).task;
            &&& t.tn_id == tn_id.0
            &&& t.target_id_tag == joiner@ && t.target_instance == joiner@
            &&& members@[i].issuer.id_tag@ == own@ ==> t.action_id == members@[i].action_id@
                && t.related_action_id is None
            &&& members@[i].issuer.id_tag@ != own@ ==> Some(t.action_id)
                == vouchers.deep_view()[i] && t.related_action_id == Some(members@[i].action_id@)
        };
    assert(r.deep_view()[k] == r@[k].deep_view());
}

// ---------------------------------------------------------------------------------------------
// Readers
// ---------------------------------------------------------------------------------------------

/// The container of an action: the root of its thread, else its subject, else the action itself.
pub proof fn law_containers(a: &ActionView, r: &str)
    requires
        call_ensures(subscribed_container_id, (a,), r),
    ensures
        a.root_id is Some ==> r@ == a.root_id->0@,
        a.root_id is None && a.subject is Some ==> r@ == a.subject->0@,
        a.root_id is None && a.subject is None ==> r@ == a.action_id@,
{
}

/// Whom an action is for: its audience, and a reader who subscribes to the container that gates it.
/// That is the container of an action for subscribers only, and the action itself where it has no
/// visibility; nothing else is opened by a subscription.
pub proof fn law_whom_an_action_is_for(
    a: &ActionView,
    subscribers: &StrMap<Vec<String>>,
    reader: &str,
    r: Vec<String>,
    container: &str,
    tag: Seq<char>,
)
    requires
        call_ensures(view_audience, (a, subscribers, reader), r),
        call_ensures(subscribed_container_id, (a,), container),
    ensures
        ({
            let gate = if a.visibility == Some('S') {
                container@
            } else {
                a.action_id@
            };
            let gated = a.visibility == Some('S') || a.visibility is None;
            r.deep_view().contains(tag) <==> (a.audience is Some && a.audience->0.id_tag@ == tag)
                || (gated && tag == reader@ && subscribers@.dom().contains(gate)
                && subscribers@[gate].deep_view().contains(tag))
        }),
{
    let named = match a.audience {
        Some(p) => seq![p.id_tag@],
        None => Seq::empty(),
    };
    if a.audience is Some {
        assert(named[0] == a.audience->0.id_tag@);
    }
    helpers::lemma_push_contains(named, reader@, tag);
}

/// What is asked about an action for a reader: its issuer owns it, its visibility is its own, and the
/// reader counts as a follower or as connected exactly where they follow or are connected.
pub proof fn law_what_is_asked_of_a_reader(
    a: &ActionView,
    reader: &Reader,
    tenant: &str,
    subscribers: &StrMap<Vec<String>>,
    r: ViewCheckContext,
    reader_tag: &str,
    audience: Vec<String>,
)
    requires
        call_ensures(view_question, (a, reader, tenant, subscribers), r),
        reader_tag@ == reader.id_tag@,
        call_ensures(view_audience, (a, subscribers, reader_tag), audience),
    ensures
        r.subject_id_tag@ == reader.id_tag@ && r.is_authenticated == reader.is_authenticated,
        r.item_owner_id_tag@ == a.issuer.id_tag@ && r.tenant_id_tag@ == tenant@,
        r.visibility == a.visibility,
        reader.relation is None ==> !r.subject_is_follower && !r.subject_connected_to_owner,
        reader.relation is Some ==> r.subject_is_follower == reader.relation->0.follower
            && r.subject_connected_to_owner == reader.relation->0.connected,
        r.audience_tags is Some && r.audience_tags->0.deep_view() == audience.deep_view(),
{
    let v = r.deep_view();
    assert(v == filter::question_of(*a, *reader, tenant@, subscribers@));
    assert(v.audience_tags is Some);
    assert(r.audience_tags.deep_view() is Some <==> r.audience_tags is Some);
    assert(r.audience_tags is Some ==> r.audience_tags.deep_view() == Some(
        r.audience_tags->0.deep_view(),
    ));
}

/// A reader sees exactly the actions with a favourable verdict, each as often as it was there: one
/// that is alone is kept where its verdict is favourable, and what is kept of two lists is what is
/// kept of each.
pub proof fn law_readers_see_what_is_admitted(
    a: Seq<ActionView>,
    v: Seq<bool>,
    b: Seq<ActionView>,
    w: Seq<bool>,
)
    requires
        a.len() == v.len(),
        b.len() == w.len(),
    ensures
        filter::admitted(a + b, v + w) == filter::admitted(a, v) + filter::admitted(b, w),
        a.len() == 1 && v[0] ==> filter::admitted(a, v) == a,
        a.len() == 1 && !v[0] ==> filter::admitted(a, v).len() == 0,
        (forall|i: int| 0 <= i < v.len() ==> v[i]) ==> filter::admitted(a, v) == a,
    decreases a.len() + b.len(),
{
    reveal_with_fuel(filter::admitted, 2);
    if b.len() == 0 {
        assert(a + b =~= a);
        assert(v + w =~= v);
        assert(filter::admitted(a, v) + filter::admitted(b, w) =~= filter::admitted(a, v));
    } else {
        assert((a + b).drop_last() =~= a + b.drop_last());
        assert((v + w).drop_last() =~= v + w.drop_last());
        law_readers_see_what_is_admitted(a, v, b.drop_last(), w.drop_last());
        let x = filter::admitted(a, v);
        let y = filter::admitted(b.drop_last(), w.drop_last());
        assert((x + y).push(b.last()) =~= x + y.push(b.last()));
    }
    if a.len() == 1 {
        assert(seq![a[0]] =~= a);
        assert(filter::admitted(a.drop_last(), v.drop_last()) =~= Seq::<ActionView>::empty());
        if v[0] {
            assert(Seq::<ActionView>::empty().push(a[0]) =~= a);
        }
    }
    if (forall|i: int| 0 <= i < v.len() ==> v[i]) && a.len() > 0 {
        law_readers_see_what_is_admitted(a.drop_last(), v.drop_last(), Seq::empty(), Seq::empty());
        assert(a.drop_last().push(a.last()) =~= a);
    } else if a.len() == 0 {
        assert(filter::admitted(a, v) =~= a);
    }
}

/// The containers that have to be known are those that gate one of the actions.
pub proof fn law_containers_to_look_up(
    engine: &DslEngine,
    actions: &Vec<ActionView>,
    r: Vec<String>,
    i: int,
)
    requires
        call_ensures(container_ids, (engine, actions), r),
        0 <= i < actions@.len(),
    ensures
        r.deep_view().no_duplicates(),
        (actions@[i].visibility == Some('S') && actions@[i].root_id is Some)
            ==> r.deep_view().contains(actions@[i].root_id->0@),
        (actions@[i].visibility == Some('S') && actions@[i].root_id is None
            && actions@[i].subject is Some) ==> r.deep_view().contains(actions@[i].subject->0@),
        (actions@[i].visibility is None && engine@.dom().contains(actions@[i].typ@)
            && engine@[actions@[i].typ@].behavior.subscribable == Some(true))
            ==> r.deep_view().contains(actions@[i].action_id@),
{
    let c = filter::gating_container(engine@, actions@[i]);
    if c is Some {
        assert(filter::gates_one_of(engine@, actions@, c->0));
        assert(r.deep_view().contains(c->0));
    }
}

/// A subject counts as a follower of a tenant where they are the tenant or follow it.
pub proof fn law_followers(subject: &str, tenant: &str, follower: bool, r: bool)
    requires
        call_ensures(subject_has_peer_relation_to_tenant, (subject, tenant, follower), r),
    ensures
        follower ==> r,
        subject@ == tenant@ ==> r,
        !follower && subject@ != tenant@ ==> !r,
{
}

/// What a subject refers to: after an `@` a number is a placeholder and anything else an identity, and
/// what has no `@` in front is an action.
pub proof fn law_forms_of_subjects(s: &str, r: Option<SubjectRef<'_>>, n: u64, id: Seq<char>)
    requires
        call_ensures(parse_subject_ref, (s,), r),
    ensures
        s@ == seq!['@'] + decimal::decimal_text(n as nat) ==> (r matches Some(
            SubjectRef::Placeholder(k),
        ) && k == n),
        s@ == seq!['@'] + id && id.contains('.') ==> (r matches Some(SubjectRef::Identity(t)) && t@
            == id),
        s@.len() > 0 && s@[0] != '@' ==> (r matches Some(SubjectRef::Action(t)) && t@ == s@),
        s@.len() == 0 || s@ == seq!['@'] ==> r is None,
{
    crate::action::task::law_placeholder_reads_back(n);
    if id.contains('.') {
        crate::action::subject_ref::law_domain_is_an_identity(id);
    }
    if s@ == seq!['@'] {
        assert(s@.skip(1).len() == 0);
    }
}

// ---------------------------------------------------------------------------------------------
// Clients
// ---------------------------------------------------------------------------------------------

/// What became of a message: it was delivered to as many connections as received it, or the audience
/// is away; without an audience nothing is sent and nobody is away.
pub proof fn law_forwarding(
    audience: Option<&str>,
    delivery: DeliveryResult,
    r: ForwardResult,
    n: usize,
    inbound: ForwardResult,
)
    requires
        call_ensures(forward_action, (audience, delivery), r),
        call_ensures(forward_inbound_action, (n,), inbound),
    ensures
        audience is None ==> !r.delivered && r.connection_count == 0 && !r.user_offline,
        audience is Some && (delivery matches DeliveryResult::Delivered(k)) ==> r.delivered
            && r.connection_count == delivery->Delivered_0 && !r.user_offline,
        audience is Some && delivery is UserOffline ==> !r.delivered && r.connection_count == 0
            && r.user_offline,
        inbound.connection_count == n,
        inbound.delivered <==> n > 0,
        inbound.user_offline <==> n == 0,
{
}

/// Whether a message says that a field has a value.
pub open spec fn tells(j: JsonView, name: Seq<char>, v: JsonView) -> bool {
    j is Object && exists|i: int| 0 <= i < j->Object_0.len() && #[trigger] j->Object_0[i] == (name, v)
}

/// The text of a field, or null.
pub open spec fn maybe_text(s: Option<&str>) -> JsonView {
    if s is Some {
        JsonView::Text(s->0@)
    } else {
        JsonView::Null
    }
}

/// The message about an action tells every field of it, as it is, and null where it has none.
pub proof fn law_messages_tell_the_action(p: &ForwardActionParams, r: Json)
    requires
        call_ensures(build_action_message, (p,), r),
    ensures
        tells(r@, "actionId"@, JsonView::Text(p.action_id@)),
        tells(r@, "tempId"@, maybe_text(p.temp_id)),
        tells(r@, "type"@, JsonView::Text(p.action_type@)),
        tells(r@, "subType"@, maybe_text(p.sub_type)),
        tells(r@, "parentId"@, maybe_text(p.parent_id)),
        tells(r@, "subject"@, maybe_text(p.subject)),
        tells(r@, "createdAt"@, JsonView::Text(p.created_at@)),
        tells(r@, "status"@, maybe_text(p.status)),
        tells(r@, "flags"@, maybe_text(p.flags)),
        p.content is Some ==> tells(r@, "content"@, p.content->0@),
        p.content is None ==> tells(r@, "content"@, JsonView::Null),
        p.attachments is Some ==> tells(r@, "attachments"@, p.attachments->0@),
        p.x is Some ==> tells(r@, "x"@, p.x->0@),
        p.visibility is Some ==> tells(r@, "visibility"@, JsonView::Text(seq![p.visibility->0])),
        p.visibility is None ==> tells(r@, "visibility"@, JsonView::Null),
        p.audience_tag is None ==> tells(r@, "audience"@, JsonView::Null),
        p.audience_tag is Some ==> tells(
            r@,
            "audience"@,
            JsonView::Object(seq![("idTag"@, JsonView::Text(p.audience_tag->0@))]),
        ),
        tells(
            r@,
            "issuer"@,
            JsonView::Object(seq![("idTag"@, JsonView::Text(p.issuer_tag@))]),
        ),
        r@->Object_0.len() == 15,
{
    let o = r@->Object_0;
    assert(o[0].0 == "actionId"@ && o[1].0 == "tempId"@ && o[2].0 == "type"@);
    assert(o[3].0 == "subType"@ && o[4].0 == "parentId"@ && o[5].0 == "issuer"@);
    assert(o[6].0 == "audience"@ && o[7].0 == "content"@ && o[8].0 == "attachments"@);
    assert(o[9].0 == "subject"@ && o[10].0 == "createdAt"@ && o[11].0 == "status"@);
    assert(o[12].0 == "visibility"@ && o[13].0 == "flags"@ && o[14].0 == "x"@);
}

/// Which actions notify. Deletions never do. By push it is messages, connection requests, shares
/// and comments; by mail every type with a setting of its own, which its push and mail settings
/// share.
pub proof fn law_what_notifies(
    typ: &str,
    sub: Option<&str>,
    push: bool,
    mail: bool,
    push_key: &'static str,
    mail_key: &'static str,
    label: &'static str,
    group: Option<&'static str>,
)
    requires
        call_ensures(should_push_notify, (typ, sub), push),
        call_ensures(is_email_notifiable, (typ, sub), mail),
        call_ensures(get_push_setting_key, (typ,), push_key),
        call_ensures(get_email_setting_key, (typ,), mail_key),
        call_ensures(notify_action_label, (typ,), label),
        call_ensures(email_throttle_group, (typ,), group),
    ensures
        sub is Some && sub->0@ == "DEL"@ ==> !push && !mail,
        sub is None ==> (push <==> typ@ == "MSG"@ || typ@ == "CONN"@ || typ@ == "FSHR"@ || typ@
            == "CMNT"@),
        sub is None ==> (mail <==> typ@ == "MSG"@ || typ@ == "CONN"@ || typ@ == "FSHR"@ || typ@
            == "CMNT"@ || typ@ == "FLLW"@ || typ@ == "REACT"@ || typ@ == "POST"@),
        sub is None && push ==> mail,
        typ@ == "MSG"@ ==> push_key@ == "notify.push.message"@ && mail_key@
            == "notify.email.message"@ && label@ == "message"@,
        typ@ == "CONN"@ ==> push_key@ == "notify.push.connection"@ && mail_key@
            == "notify.email.connection"@ && label@ == "connection request"@,
        typ@ == "FSHR"@ ==> push_key@ == "notify.push.file_share"@ && mail_key@
            == "notify.email.file_share"@ && label@ == "shared file"@,
        typ@ == "FLLW"@ ==> push_key@ == "notify.push.follow"@ && mail_key@
            == "notify.email.follow"@ && label@ == "follower"@,
        typ@ == "CMNT"@ ==> push_key@ == "notify.push.comment"@ && mail_key@
            == "notify.email.comment"@ && label@ == "comment"@,
        typ@ == "REACT"@ ==> push_key@ == "notify.push.reaction"@ && mail_key@
            == "notify.email.reaction"@ && label@ == "reaction"@,
        typ@ == "POST"@ ==> push_key@ == "notify.push.post"@ && mail_key@ == "notify.email.post"@
            && label@ == "post"@,
        (typ@ == "MSG"@ || typ@ == "CONN"@ || typ@ == "FSHR"@) ==> group.deep_view() == Some(
            "direct"@,
        ),
        (typ@ == "FLLW"@ || typ@ == "POST"@) ==> group.deep_view() == Some("social"@),
        (typ@ == "CMNT"@ || typ@ == "REACT"@) ==> group.deep_view() == Some("engagement"@),
        sub is None && !mail ==> push_key@ == "notify.push"@ && mail_key@ == "notify.email"@ && label@
            == "notification"@ && group is None,
{
    reveal_strlit("MSG");
    reveal_strlit("CONN");
    reveal_strlit("FSHR");
    reveal_strlit("FLLW");
    reveal_strlit("CMNT");
    reveal_strlit("REACT");
    reveal_strlit("POST");
    assert("MSG"@.len() == 3 && "REACT"@.len() == 5 && "POST"@[0] == 'P');
    assert("CONN"@[0] == 'C' && "CONN"@[1] == 'O' && "CMNT"@[0] == 'C' && "CMNT"@[1] == 'M');
    assert("FSHR"@[0] == 'F' && "FSHR"@[1] == 'S' && "FLLW"@[0] == 'F' && "FLLW"@[1] == 'L');
    assert("CONN"@.len() == 4 && "CMNT"@.len() == 4 && "FSHR"@.len() == 4 && "FLLW"@.len() == 4);
    assert("POST"@.len() == 4);
    if sub is Some {
        assert(sub.deep_view() == Some(sub->0@));
    }
    assert(group.deep_view() is None <==> group is None);
}

// ---------------------------------------------------------------------------------------------
// Other instances
// ---------------------------------------------------------------------------------------------

/// A delivery is stored and read back as it was.
pub proof fn law_deliveries_are_read_back(
    t: &ActionDeliveryTask,
    s: String,
    ctx: &str,
    r: Result<ActionDeliveryTask, Error>,
)
    requires
        call_ensures(ActionDeliveryTask::serialize, (t,), s),
        ctx@ == s@,
        call_ensures(ActionDeliveryTask::build, (ctx,), r),
    ensures
        r is Ok,
        r->Ok_0.tn_id == t.tn_id && r->Ok_0.action_id@ == t.action_id@,
        r->Ok_0.target_instance@ == t.target_instance@,
        r->Ok_0.target_id_tag@ == t.target_id_tag@,
        r->Ok_0.related_action_id.deep_view() == t.related_action_id.deep_view(),
{
    assert(ctx@ == json::compact_notation(delivery::delivery_json(t@)));
    assert(r->Ok_0@ == t@);
}

/// What is sent to a recipient is the token of the action, and that of the related action where there
/// is one and its token is there. An action that is gone is not sent, and one without a token is an
/// error.
pub proof fn law_what_is_sent(
    t: &ActionDeliveryTask,
    found: bool,
    token: Option<&str>,
    related: Option<&str>,
    r: Result<Option<Json>, Error>,
)
    requires
        call_ensures(ActionDeliveryTask::prepare, (t, found, token, related), r),
    ensures
        !found ==> r == Ok::<Option<Json>, Error>(None),
        found && token is None ==> r is Err,
        found && token is Some ==> r is Ok && r->Ok_0 is Some && {
            let j = r->Ok_0->0@;
            &&& j.member("token"@) == Some(JsonView::Text(token->0@))
            &&& t.related_action_id is Some && related is Some ==> j.member("related"@) == Some(
                JsonView::Array(seq![JsonView::Text(related->0@)]),
            )
            &&& t.related_action_id is None || related is None ==> j.member("related"@) is None
        },
{
    reveal_strlit("token");
    reveal_strlit("related");
    assert("token"@.len() == 5 && "related"@.len() == 7);
    reveal_with_fuel(json::last_named, 3);
    if related is Some {
        assert(related.deep_view() == Some(related->0@));
    }
    if found && token is Some {
        let o = r->Ok_0->0@->Object_0;
        if o.len() == 2 {
            assert(o.drop_last().last() == o[0]);
        }
    }
}

/// A failed delivery is tried again fifty times, after ten seconds at first and half a day at most.
pub proof fn law_retries(r: RetryPolicy)
    requires
        call_ensures(delivery_retry, (), r),
    ensures
        r.shortest_wait_secs == 10,
        r.longest_wait_secs == 12 * 3600,
        r.attempts == 50,
{
}

/// A fetch of history is stored and read back as it was.
pub proof fn law_fetches_are_read_back(
    t: &HistoryFetchTask,
    s: String,
    ctx: &str,
    r: Result<HistoryFetchTask, Error>,
)
    requires
        call_ensures(HistoryFetchTask::serialize, (t,), s),
        ctx@ == s@,
        call_ensures(HistoryFetchTask::build, (ctx,), r),
    ensures
        r is Ok && r->Ok_0.tn_id == t.tn_id && r->Ok_0.peer_id_tag@ == t.peer_id_tag@,
{
    assert(ctx@ == json::compact_notation(history_sync::fetch_json(t.tn_id.0, t.peer_id_tag@)));
}

/// What a peer is asked for: as many actions as the limit says, ten by default, since as many days ago
/// as were asked for, thirty by default; and nothing where the limit is none.
pub proof fn law_what_a_peer_is_asked_for(
    t: &HistoryFetchTask,
    days: Option<i64>,
    limit: Option<i64>,
    now: i64,
    r: Option<String>,
)
    requires
        call_ensures(HistoryFetchTask::outbox_path, (t, days, limit, now), r),
        0 <= now < 0x1000_0000_0000,
        days is Some ==> 0 <= days->0 <= 1_000_000,
    ensures
        limit is Some && limit->0 <= 0 ==> r is None,
        limit is None || limit->0 > 0 ==> r is Some && r->0@ == "/outbox?since="@
            + decimal::integer_text(
            now - 86400 * (if days is Some {
                days->0 as int
            } else {
                30
            }),
        ) + "&limit="@ + decimal::integer_text(
            if limit is Some {
                limit->0 as int
            } else {
                10
            },
        ),
{
    assert(r.deep_view() is None <==> r is None);
    assert(r is Some ==> r.deep_view() == Some(r->0@));
}

/// Every action that a peer handed out is processed, in their order, and what it depends on is put
/// aside for it before.
pub proof fn law_everything_is_taken_in(items: Seq<OutboxItem>, more: Seq<OutboxItem>, i: int)
    ensures
        history_sync::all_steps(items + more) == history_sync::all_steps(items)
            + history_sync::all_steps(more),
        items.len() == 1 ==> {
            let steps = history_sync::all_steps(items);
            &&& steps.len() == items[0].related@.len() + 1
            &&& steps.last() == (history_sync::StepView::Process { token: items[0].token@ })
            &&& 0 <= i < items[0].related@.len() ==> steps[i] == (history_sync::StepView::PreStore {
                token: items[0].related@[i]@,
                primary: items[0].token@,
            })
        },
    decreases more.len(),
{
    reveal_with_fuel(history_sync::all_steps, 2);
    if more.len() == 0 {
        assert(items + more =~= items);
        assert(history_sync::all_steps(items) + history_sync::all_steps(more)
            =~= history_sync::all_steps(items));
    } else {
        assert((items + more).drop_last() =~= items + more.drop_last());
        law_everything_is_taken_in(items, more.drop_last(), i);
        let a = history_sync::all_steps(items);
        let b = history_sync::all_steps(more.drop_last());
        let c = history_sync::item_steps(more.last());
        assert((a + b) + c =~= a + (b + c));
    }
    if items.len() == 1 {
        assert(history_sync::all_steps(items.drop_last()) =~= Seq::empty());
        assert(history_sync::all_steps(items) =~= history_sync::item_steps(items[0]));
        history_sync::law_related_before_primary(items[0]);
    }
}

/// A peer that denies access ends the fetch quietly; any other failure does not.
pub proof fn law_giving_up(e: &Error, r: bool)
    requires
        call_ensures(HistoryFetchTask::gives_up, (e,), r),
    ensures
        r <==> *e is PermissionDenied,
{
}

/// A failure of the network is remembered for five minutes, any other one for an hour: until then the
/// key is not asked for, and the wait is what is left of it.
pub proof fn law_failures_are_remembered(
    e: &Error,
    t: FailureType,
    now: Timestamp,
    entry: FailureEntry,
    later: Timestamp,
    expired: bool,
)
    requires
        call_ensures(FailureType::from_error, (e,), t),
        call_ensures(FailureEntry::new_at, (t, now), entry),
        call_ensures(FailureEntry::is_expired_at, (&entry, later), expired),
        0 <= now.0 < 0x1000_0000_0000,
    ensures
        *e is NotFound <==> t == FailureType::NotFound,
        *e is Parse <==> t == FailureType::ParseError,
        *e is PermissionDenied || *e is Unauthorized <==> t == FailureType::Unauthorized,
        t == FailureType::NetworkError ==> (expired <==> later.0 >= now.0 + 300),
        t != FailureType::NetworkError ==> (expired <==> later.0 >= now.0 + 3600),
        entry.failed_at == now && entry.failure_type == t,
{
}

/// The settings of the action system and their defaults; all but the size of the cache of failures are
/// each tenant's own.
pub proof fn law_default_settings()
    ensures
        ({
            let s = settings::action_settings();
            &&& s.len() == 6
            &&& forall|i: int, j: int|
                0 <= i < 6 && 0 <= j < 6 && i != j ==> #[trigger] s[i].key != #[trigger] s[j].key
            &&& forall|i: int|
                0 <= i < 6 ==> ((#[trigger] s[i]).scope == SettingScope::Global <==> s[i].key
                    == "federation.key_failure_cache_size"@)
            &&& forall|i: int|
                0 <= i < 6 && (#[trigger] s[i]).key == "federation.auto_accept_followers"@
                    ==> s[i].default == SettingValue::Bool(false)
            &&& forall|i: int|
                0 <= i < 6 && (#[trigger] s[i]).key == "federation.key_failure_cache_size"@
                    ==> s[i].default == SettingValue::Int(100)
            &&& forall|i: int|
                0 <= i < 6 && (#[trigger] s[i]).key == "federation.history_sync.since_days"@
                    ==> s[i].default == SettingValue::Int(30)
            &&& forall|i: int|
                0 <= i < 6 && (#[trigger] s[i]).key == "federation.history_sync.limit"@
                    ==> s[i].default == SettingValue::Int(10)
            &&& forall|i: int|
                0 <= i < 6 && (#[trigger] s[i]).key == "federation.stat_coalesce_window_secs"@
                    ==> s[i].default == SettingValue::Int(10)
            &&& forall|i: int|
                0 <= i < 6 && (#[trigger] s[i]).key == "federation.stat_coalesce_max_window_secs"@
                    ==> s[i].default == SettingValue::Int(60)
        }),
{
    reveal_strlit("federation.auto_accept_followers");
    reveal_strlit("federation.key_failure_cache_size");
    reveal_strlit("federation.history_sync.since_days");
    reveal_strlit("federation.history_sync.limit");
    reveal_strlit("federation.stat_coalesce_window_secs");
    reveal_strlit("federation.stat_coalesce_max_window_secs");
    assert("federation.auto_accept_followers"@.len() == 32);
    assert("federation.key_failure_cache_size"@.len() == 33);
    assert("federation.history_sync.since_days"@.len() == 34);
    assert("federation.history_sync.limit"@.len() == 29);
    assert("federation.stat_coalesce_window_secs"@.len() == 36);
    assert("federation.stat_coalesce_max_window_secs"@.len() == 40);
}

/// A reader sees the actions with a favourable verdict and no other, and what is put into an inbox is the
/// token and the related one.
pub proof fn law_filtered_actions(
    actions: Vec<ActionView>,
    verdicts: &Vec<bool>,
    r: Vec<ActionView>,
    i: int,
    token: &str,
    related: &str,
    payload: Json,
)
    requires
        call_ensures(filter_actions_by_visibility, (actions, verdicts), r),
        actions@.len() == verdicts@.len(),
        call_ensures(inbox_payload, (token, Some(related)), payload),
    ensures
        r@.len() <= actions@.len(),
        0 <= i < actions@.len() && verdicts@[i] ==> r@.contains(actions@[i]),
        0 <= i < r@.len() ==> exists|k: int|
            0 <= k < actions@.len() && #[trigger] verdicts@[k] && actions@[k] == r@[i],
        payload@ is Object && payload@->Object_0.contains(("token"@, JsonView::Text(token@))),
        payload@->Object_0.contains(
            ("related"@, JsonView::Array(seq![JsonView::Text(related@)])),
        ),
{
    lemma_admitted(actions@, verdicts@, i);
    assert(Some(related).deep_view() == Some(related@));
    assert(payload@->Object_0[0] == ("token"@, JsonView::Text(token@)));
    assert(payload@->Object_0[1] == (
        "related"@,
        JsonView::Array(seq![JsonView::Text(related@)]),
    ));
}

proof fn lemma_admitted(a: Seq<ActionView>, v: Seq<bool>, i: int)
    requires
        a.len() == v.len(),
    ensures
        filter::admitted(a, v).len() <= a.len(),
        0 <= i < a.len() && v[i] ==> filter::admitted(a, v).contains(a[i]),
        0 <= i < filter::admitted(a, v).len() ==> exists|k: int|
            0 <= k < a.len() && #[trigger] v[k] && a[k] == filter::admitted(a, v)[i],
    decreases a.len(),
{
    if a.len() > 0 {
        let b = a.drop_last();
        let w = v.drop_last();
        lemma_admitted(b, w, i);
        let before = filter::admitted(b, w);
        let now = filter::admitted(a, v);
        if 0 <= i < a.len() && v[i] {
            if i < b.len() {
                assert(w[i] && b[i] == a[i]);
                let j = choose|j: int| 0 <= j < before.len() && before[j] == a[i];
                assert(now[j] == a[i]);
            } else {
                assert(now[now.len() - 1] == a[i]);
            }
        }
        if 0 <= i < now.len() {
            if i < before.len() {
                let k = choose|k: int| 0 <= k < b.len() && #[trigger] w[k] && b[k] == before[i];
                assert(v[k] && a[k] == now[i]);
            } else {
                assert(v[a.len() - 1]);
            }
        }
    }
}

/// The steps of taking in what a peer handed out are those of its items.
pub proof fn law_ingested_items(items: &Vec<OutboxItem>, r: Vec<IngestStep>)
    requires
        call_ensures(ingest_steps, (items,), r),
        items@.len() == 1,
    ensures
        r@.len() == items@[0].related@.len() + 1,
        r@.last() matches IngestStep::Process { token } && token@ == items@[0].token@,
        forall|i: int|
            0 <= i < items@[0].related@.len() ==> ((#[trigger] r@[i]) matches IngestStep::PreStore {
                token,
                primary,
            } && token@ == items@[0].related@[i]@ && primary@ == items@[0].token@),
{
    let v = r.deep_view();
    assert(v.len() == r@.len());
    law_everything_is_taken_in(items@, Seq::empty(), 0);
    let n = items@[0].related@.len();
    assert(v[n as int] == r@[n as int].deep_view());
    assert forall|i: int| 0 <= i < n implies ((#[trigger] r@[i]) matches IngestStep::PreStore {
        token,
        primary,
    } && token@ == items@[0].related@[i]@ && primary@ == items@[0].token@) by {
        law_everything_is_taken_in(items@, Seq::empty(), i);
        assert(v[i] == r@[i].deep_view());
    }
}

/// What refers to a container by its subject is vouched for as what is under it is.
pub proof fn law_vouching_by_subject(
    engine: &DslEngine,
    a: &RelayCandidate,
    container: &ActionView,
    own: &str,
    r: Relay,
)
    requires
        call_ensures(maybe_relay_child_to_subscribers, (engine, a, Some(container), own), r),
        a.parent_id is None,
        a.subject is Some,
        owner(*container) == own@,
        a.issuer_tag@ != own@,
        engine@.dom().contains(container.typ@),
        engine@[container.typ@].behavior.relay_children == Some(true),
    ensures
        r != Relay::No <==> (subject_of(a.subject->0@) matches Some(SubjectView::Action(_))),
{
    assert(a.subject.deep_view() == Some(a.subject->0@));
}

} // verus!
