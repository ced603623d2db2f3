//! What creating and delivering actions is for: who gets an action, what an action takes over from
//! what it refers to, and what is refused.
use crate::action::dsl::engine::DslEngine;
use crate::action::helpers::{
    self, apply_key_pattern, apply_open_flag_visibility, broadcast_recipient_tags, check_attachment_count,
    check_identity_field, check_subject_field, content_snippet,
    extract_type_and_subtype, get_subscription_role, inherit_visibility, is_capability_enabled,
    is_open, resolve_parent_audience, resolve_root_id, role_of_lowercase, SubscriptionRole,
};
use crate::action::hooks::{HookContext, HookResult, HookType};
use crate::action::post_store::{
    self, broadcast_recipients, hook_context, hook_outcome, process_after_store, try_auto_approve,
    AfterStore, DeliveryPlan, HookTenant, PostStoreResult, ProcessingContext, StoredAction,
};
use crate::action::subject_ref::{subject_of, SubjectView};
use crate::action::task::{
    self, action_key, approval, attachment_reference, attachments_to_wait, create_action,
    create_ephemeral_action, effective_audience, placeholder, resolve_subject, resolve_visibility, resolved_key,
    retries_with_new_key, subject_to_wait, token_flags, validate_new_action, ActionCreatorTask,
    ActionVerifierTask, Completion, CreateAction, CreateFacts, Creation, Reference,
};
use crate::decimal;
use crate::json::{self, Json, JsonView};
use crate::text;
use crate::types::{ActionView, Error, Timestamp, TnId};
use vstd::prelude::*;

verus! {

// ---------------------------------------------------------------------------------------------
// Who gets an action
// ---------------------------------------------------------------------------------------------

/// Whether the type of an action asks for its delivery to the owner of its subject.
pub open spec fn delivers_to_owner(engine: &DslEngine, typ: Seq<char>) -> bool {
    engine@.dom().contains(typ) && engine@[typ].behavior.deliver_to_subject_owner == Some(true)
}

/// Whether the type of an action asks for its subject to travel with it.
pub open spec fn delivers_subject(engine: &DslEngine, typ: Seq<char>) -> bool {
    engine@.dom().contains(typ) && engine@[typ].behavior.deliver_subject == Some(true)
}

/// Whether the type of an action asks for it to go to all followers.
pub open spec fn is_broadcast(engine: &DslEngine, typ: Seq<char>) -> bool {
    engine@.dom().contains(typ) && engine@[typ].behavior.broadcast == Some(true)
}

/// Somebody gets an action that goes out directly exactly where they are not its issuer and are
/// its audience, or own its subject and its type delivers to the owner of the subject. This
/// holds of the owner whether or not there is an audience. The subject travels with it exactly
/// where its type says so.
pub proof fn law_who_gets_an_action_directly(
    engine: &DslEngine,
    action: &StoredAction,
    found: Option<&ActionView>,
    ctx: &ProcessingContext,
    r: DeliveryPlan,
)
    requires
        call_ensures(post_store::schedule_delivery, (engine, action, found, ctx), r),
    ensures
        r matches DeliveryPlan::Direct { recipients, related } ==> {
            &&& (action.audience_tag is Some && action.audience_tag->0@ != action.issuer_tag@)
                ==> recipients.deep_view().contains(action.audience_tag->0@)
            &&& (delivers_to_owner(engine, action.typ@) && action.subject is Some && found is Some
                && found->0.issuer.id_tag@ != action.issuer_tag@)
                ==> recipients.deep_view().contains(found->0.issuer.id_tag@)
            &&& forall|t: Seq<char>| #[trigger]
                recipients.deep_view().contains(t) ==> t != action.issuer_tag@ && (
                action.audience_tag.deep_view() == Some(t) || (delivers_to_owner(
                    engine,
                    action.typ@,
                ) && action.subject is Some && found is Some && found->0.issuer.id_tag@ == t))
            &&& recipients.deep_view().no_duplicates()
            &&& related.deep_view() == (if delivers_subject(engine, action.typ@) {
                action.subject.deep_view()
            } else {
                None
            })
        },
{
    if let DeliveryPlan::Direct { recipients, related } = r {
        let tags = recipients.deep_view();
        let sub = helpers::opt_action(found);
        assert(tags == post_store::direct_recipients(engine@, *action, sub));
        post_store::law_direct_recipients(engine@, *action, sub);
        if action.audience_tag is Some && action.audience_tag->0@ != action.issuer_tag@ {
            assert(tags[0] == action.audience_tag->0@);
        }
        if delivers_to_owner(engine, action.typ@) && action.subject is Some && found is Some
            && found->0.issuer.id_tag@ != action.issuer_tag@ {
            let owner = found->0.issuer.id_tag@;
            assert(sub->0.issuer.id_tag@ == owner);
            if action.audience_tag.deep_view() == Some(owner) {
                assert(tags[0] == owner);
            } else {
                let audience = if action.audience_tag is Some && action.audience_tag->0@
                    != action.issuer_tag@ {
                    seq![action.audience_tag->0@]
                } else {
                    Seq::empty()
                };
                assert(!audience.contains(owner));
                assert(tags == audience.push(owner));
                assert(tags[tags.len() - 1] == owner);
            }
        }
        assert forall|t: Seq<char>| #[trigger] tags.contains(t) implies t != action.issuer_tag@ && (
        action.audience_tag.deep_view() == Some(t) || (delivers_to_owner(engine, action.typ@)
            && action.subject is Some && found is Some && found->0.issuer.id_tag@ == t)) by {
            let i = choose|i: int| 0 <= i < tags.len() && tags[i] == t;
        }
    }
}

/// Where an action goes: what arrived goes nowhere; what its type broadcasts goes to all followers
/// unless it has an audience; the approval of something that is broadcast goes to all followers
/// together with it; everything else goes out directly.
pub proof fn law_where_an_action_goes(
    engine: &DslEngine,
    action: &StoredAction,
    found: Option<&ActionView>,
    ctx: &ProcessingContext,
    r: DeliveryPlan,
)
    requires
        call_ensures(post_store::schedule_delivery, (engine, action, found, ctx), r),
    ensures
        r is Nowhere <==> ctx is Inbound,
        ctx is Outbound && is_broadcast(engine, action.typ@) && action.audience_tag is None ==> (
        r matches DeliveryPlan::Broadcast { related, author } && related is None && author is None),
        r is Broadcast && action.typ@ != "APRV"@ ==> is_broadcast(engine, action.typ@)
            && action.audience_tag is None,
        ctx is Outbound && action.audience_tag is Some && action.typ@ == "APRV"@ && action.subject is Some
            && found is Some ==> (r is Broadcast <==> is_broadcast(engine, found->0.typ@)),
        (r matches DeliveryPlan::Broadcast { related, author } && related is Some) ==> action.typ@
            == "APRV"@ && r->Broadcast_related.deep_view() == action.subject.deep_view(),
        ctx is Outbound && action.audience_tag is Some && action.typ@ != "APRV"@ ==> r is Direct,
        ctx is Outbound && !is_broadcast(engine, action.typ@) && action.subject is None ==> r is Direct,
{
    if let DeliveryPlan::Broadcast { related, author } = r {
        assert(related.deep_view() is Some <==> related is Some);
        assert(author.deep_view() is Some <==> author is Some);
    }
}

/// Somebody gets an action that is not stored exactly where they are its audience or own its
/// subject, as with a stored one, or subscribe to its container.
pub proof fn law_who_gets_an_unstored_action(
    engine: &DslEngine,
    id_tag: &str,
    action: &CreateAction,
    found: Option<&ActionView>,
    fanout: &Vec<String>,
    r: DeliveryPlan,
)
    requires
        call_ensures(task::schedule_delivery, (engine, id_tag, action, found, fanout), r),
    ensures
        !(r is Nowhere),
        r is Broadcast <==> action.typ@ == "APRV"@ && action.subject is Some && found is Some
            && is_broadcast(engine, found->0.typ@),
        r matches DeliveryPlan::Broadcast { related, author } ==> related.deep_view()
            == action.subject.deep_view() && author.deep_view() == action.audience_tag.deep_view(),
        r matches DeliveryPlan::Direct { recipients, related } ==> {
            &&& forall|t: Seq<char>| #[trigger]
                recipients.deep_view().contains(t) <==> fanout.deep_view().contains(t) || (t
                    != id_tag@ && (action.audience_tag.deep_view() == Some(t) || (delivers_to_owner(
                    engine,
                    action.typ@,
                ) && action.subject is Some && found is Some && found->0.issuer.id_tag@ == t)))
            &&& recipients.deep_view().no_duplicates()
            &&& related.deep_view() == (if delivers_subject(engine, action.typ@) {
                action.subject.deep_view()
            } else {
                None
            })
        },
{
    if let DeliveryPlan::Direct { recipients, related } = r {
        let tags = recipients.deep_view();
        let sub = helpers::opt_action(found);
        let audience_tag = action.audience_tag.deep_view();
        let direct = post_store::direct_tags(
            engine@,
            action.typ@,
            id_tag@,
            audience_tag,
            action.subject is Some,
            sub,
        );
        assert(tags == task::with_others(direct, fanout.deep_view()));
        let audience = if audience_tag is Some && audience_tag->0 != id_tag@ {
            seq![audience_tag->0]
        } else {
            Seq::empty()
        };
        if audience.len() == 1 {
            assert(audience[0] == audience_tag->0);
        }
        assert forall|i: int, j: int| 0 <= i < direct.len() && 0 <= j < direct.len() && i
            != j implies direct[i] != direct[j] by {
            if direct.len() == 2 {
                assert(audience.contains(direct[0]));
            }
        }
        task::law_nobody_is_sent_an_action_twice(direct, fanout.deep_view());
        assert forall|t: Seq<char>| #[trigger] tags.contains(t) <==> fanout.deep_view().contains(t)
            || (t != id_tag@ && (action.audience_tag.deep_view() == Some(t) || (delivers_to_owner(
            engine,
            action.typ@,
        ) && action.subject is Some && found is Some && found->0.issuer.id_tag@ == t))) by {
            assert(tags.contains(t) <==> direct.contains(t) || fanout.deep_view().contains(t));
            helpers::lemma_push_contains(audience, sub->0.issuer.id_tag@, t);
            if audience_tag == Some(t) && t != id_tag@ {
                assert(audience[0] == t);
            }
        }
    }
}

/// What is broadcast goes to everybody who follows and to the author, but not to the sender, and
/// to nobody twice. Somebody follows who issued an action of those on record that is not
/// deleted.
pub proof fn law_who_gets_a_broadcast(
    actions: &Vec<ActionView>,
    id_tag: &str,
    author: Option<&str>,
    r: Vec<String>,
)
    requires
        call_ensures(broadcast_recipients, (actions, id_tag, author), r),
    ensures
        r.deep_view().no_duplicates(),
        !r.deep_view().contains(id_tag@),
        author is Some && author->0@ != id_tag@ ==> r.deep_view().contains(author->0@),
        forall|i: int|
            0 <= i < actions@.len() && (#[trigger] actions@[i]).issuer.id_tag@ != id_tag@
                && actions@[i].status.deep_view() != Some("D"@) ==> r.deep_view().contains(
                actions@[i].issuer.id_tag@,
            ),
        forall|t: Seq<char>| #[trigger]
            r.deep_view().contains(t) ==> author.deep_view() == Some(t) || exists|i: int|
                0 <= i < actions@.len() && (#[trigger] actions@[i]).issuer.id_tag@ == t
                    && actions@[i].status.deep_view() != Some("D"@),
{
    if author is Some {
        assert(author.deep_view() == Some(author->0@));
        assert(r.deep_view().contains(author->0@) <==> author->0@ != id_tag@);
    }
    assert forall|i: int|
        0 <= i < actions@.len() && (#[trigger] actions@[i]).issuer.id_tag@ != id_tag@
            && actions@[i].status.deep_view() != Some("D"@) implies r.deep_view().contains(
        actions@[i].issuer.id_tag@,
    ) by {
        assert(post_store::follows(actions@, actions@[i].issuer.id_tag@));
    }
}

/// What arrived and is addressed to the tenant is approved on its own account exactly where its type
/// can be approved, the tenant wants that and is connected to the issuer, who is somebody else.
pub proof fn law_approval_on_ones_own_account(
    engine: &DslEngine,
    action: &StoredAction,
    own: &str,
    enabled: bool,
    connected: bool,
    r: bool,
)
    requires
        call_ensures(try_auto_approve, (engine, action, own, enabled, connected), r),
    ensures
        r ==> enabled && connected && action.issuer_tag@ != own@,
        r ==> action.audience_tag is Some && action.audience_tag->0@ == own@,
        r ==> engine@.dom().contains(action.typ@) && engine@[action.typ@].behavior.approvable
            == Some(true),
        (enabled && connected && action.issuer_tag@ != own@ && action.audience_tag is Some
            && action.audience_tag->0@ == own@ && engine@.dom().contains(action.typ@)
            && engine@[action.typ@].behavior.approvable == Some(true)) ==> r,
{
    if action.audience_tag is Some {
        assert(action.audience_tag.deep_view() == Some(action.audience_tag->0@));
    }
}

/// After an action is stored its hook runs first, then it is forwarded, handed on and delivered;
/// only what arrived and nobody waits for is approved on one's own account, at the end.
pub proof fn law_steps_after_storing(ctx: &ProcessingContext, r: Vec<AfterStore>)
    requires
        call_ensures(process_after_store, (ctx,), r),
    ensures
        r@.len() >= 4,
        r@[0] == AfterStore::RunHook,
        r@[1] == AfterStore::Forward,
        r@[2] == AfterStore::FanOut,
        r@[3] == AfterStore::Deliver,
        r@.contains(AfterStore::AutoApprove) <==> (ctx matches ProcessingContext::Inbound {
            is_sync: false,
            ..
        }),
        r@.len() <= 5,
{
    if ctx matches ProcessingContext::Inbound { is_sync: false, .. } {
        assert(r@[4] == AfterStore::AutoApprove);
    }
}

/// Only a sender who waits learns of the hook: they get its value or its error; nobody else is
/// stopped by it.
pub proof fn law_hooks_answer_those_who_wait(
    ctx: &ProcessingContext,
    outcome: Result<HookResult, Error>,
    r: Result<PostStoreResult, Error>,
)
    requires
        call_ensures(hook_outcome, (ctx, outcome), r),
    ensures
        ctx is Outbound ==> r is Ok && r->Ok_0.hook_result is None,
        (ctx matches ProcessingContext::Inbound { is_sync: false, .. }) ==> r is Ok
            && r->Ok_0.hook_result is None,
        (ctx matches ProcessingContext::Inbound { is_sync: true, .. }) ==> (r is Ok <==> outcome is Ok)
            && (outcome is Ok ==> r->Ok_0.hook_result == outcome->Ok_0.return_value) && (
        outcome is Err ==> r->Err_0 == outcome->Err_0),
{
}

/// A hook sees the action that was stored, and runs for the tenant that runs it: the hook of
/// creation for what was created here, that of reception for what arrived.
pub proof fn law_hooks_see_the_stored_action(
    action: &StoredAction,
    ctx: &ProcessingContext,
    tenant: &HookTenant,
    r: (HookType, HookContext),
)
    requires
        call_ensures(hook_context, (action, ctx, tenant), r),
    ensures
        ctx is Outbound <==> r.0 == HookType::OnCreate,
        ctx is Inbound <==> r.0 == HookType::OnReceive,
        r.1.is_outbound == (ctx is Outbound) && r.1.is_inbound != r.1.is_outbound,
        r.1.action_id@ == action.action_id@ && r.1.issuer@ == action.issuer_tag@,
        r.1.audience.deep_view() == action.audience_tag.deep_view(),
        r.1.parent.deep_view() == action.parent_id.deep_view(),
        r.1.subject.deep_view() == action.subject.deep_view(),
        r.1.attachments.deep_view() == action.attachments.deep_view(),
        r.1.tenant_tag@ == tenant.tenant_tag@ && r.1.tenant_id == tenant.tenant_id,
        decimal::signed_of(r.1.created_at@) == Some(action.created_at.0 as int),
        action.expires_at is Some ==> r.1.expires_at is Some && decimal::signed_of(
            r.1.expires_at->0@,
        ) == Some((action.expires_at->0).0 as int),
        action.expires_at is None ==> r.1.expires_at is None,
        action.sub_typ is Some ==> r.1.typ@ == action.typ@ && r.1.subtype.deep_view()
            == action.sub_typ.deep_view(),
        action.content is None ==> r.1.content is None,
        !r.1.pre_approved,
{
    decimal::law_integer_text_reads_back(action.created_at.0);
    if action.expires_at is Some {
        decimal::law_integer_text_reads_back((action.expires_at->0).0);
        assert(r.1.expires_at.deep_view() == Some(r.1.expires_at->0@));
    }
    assert(r.1.expires_at.deep_view() is Some <==> r.1.expires_at is Some);
}

// ---------------------------------------------------------------------------------------------
// What an action takes over
// ---------------------------------------------------------------------------------------------

/// The visibility of a new action that is not open: its own where it has one, else the
/// parent's, else that of an action that is its subject, else the tenant's default, else that of
/// followers. An open action is for connections, unless it would be for subscribers only.
pub proof fn law_visibility_of_a_new_action(action: &CreateAction, facts: &CreateFacts, r: Option<char>)
    requires
        call_ensures(resolve_visibility, (action, facts), r),
    ensures
        ({
            let open = action.flags is Some && action.flags->0@.contains('O');
            let from_subject = action.visibility is None && facts.parent is None
                && action.subject is Some && facts.subject_action is Some && subject_of(
                action.subject->0@,
            ) is Some && subject_of(action.subject->0@)->0 is Action;
            &&& !open && action.visibility is Some ==> r == action.visibility
            &&& !open && action.visibility is None && facts.parent is Some
                && facts.parent->0.visibility is Some ==> r == facts.parent->0.visibility
            &&& !open && from_subject && facts.subject_action->0.visibility is Some ==> r
                == facts.subject_action->0.visibility
            &&& !open && action.visibility is None && facts.parent is None && action.subject is None
                && facts.default_visibility is None ==> r == Some('F')
            &&& !open && action.visibility is None && facts.parent is None && action.subject is None
                && facts.default_visibility is Some && facts.default_visibility->0@.len() > 0 ==> r
                == Some(facts.default_visibility->0@[0])
            &&& open ==> r == Some('C') || r == Some('S')
            &&& open && action.visibility is Some ==> (r == Some('S') <==> action.visibility
                == Some('S'))
        }),
{
    if action.flags is Some {
        assert(action.flags.deep_view() == Some(action.flags->0@));
    }
}

/// The audience of a new action is its own, else its parent's, else whoever issued the parent.
pub proof fn law_audience_of_a_new_action(
    action: &CreateAction,
    parent: Option<&ActionView>,
    r: Option<String>,
)
    requires
        call_ensures(effective_audience, (action, parent), r),
    ensures
        action.audience_tag is Some ==> r is Some && r->0@ == action.audience_tag->0@,
        action.audience_tag is None && parent is Some && parent->0.audience is Some ==> r is Some
            && r->0@ == parent->0.audience->0.id_tag@,
        action.audience_tag is None && parent is Some && parent->0.audience is None ==> r is Some
            && r->0@ == parent->0.issuer.id_tag@,
        action.audience_tag is None && parent is None ==> r is None,
{
    assert(r.deep_view() is Some <==> r is Some);
    assert(r is Some ==> r.deep_view() == Some(r->0@));
}

/// All replies in a thread have the same root: that of their parent, or else the parent itself.
pub proof fn law_replies_share_their_root(
    parent_id: &str,
    parent: &ActionView,
    r: Option<String>,
    none: Option<String>,
)
    requires
        call_ensures(resolve_root_id, (Some(parent_id), Some(parent)), r),
        call_ensures(resolve_root_id, (None, Some(parent)), none),
    ensures
        parent.root_id is Some ==> r is Some && r->0@ == parent.root_id->0@,
        parent.root_id is None ==> r is Some && r->0@ == parent_id@,
        none is None,
{
    assert(Some(parent_id).deep_view() == Some(parent_id@));
    assert(r.deep_view() is Some <==> r is Some);
    assert(none.deep_view() is Some <==> none is Some);
}

/// A capability is on unless the flags hold its letter in lower case: its letter in upper case,
/// other letters and no flags at all leave it on.
pub proof fn law_capabilities_are_on_unless_switched_off(
    flags: &str,
    letter: char,
    small: char,
    on: bool,
    without: bool,
)
    requires
        call_ensures(is_capability_enabled, (Some(flags), letter), on),
        call_ensures(is_capability_enabled, (None, letter), without),
        'A' <= letter <= 'Z',
        small as u32 == letter as u32 + 32,
    ensures
        without,
        on <==> !flags@.contains(small),
{
    assert(text::ascii_lower(letter) as u32 == small as u32);
    assert(text::ascii_lower(letter) == small);
    assert(Some(flags).deep_view() == Some(flags@));
}

/// An action is open exactly where its flags hold an `O`; only then does its visibility change.
pub proof fn law_open_actions(
    flags: &str,
    visibility: Option<char>,
    open: bool,
    r: Option<char>,
)
    requires
        call_ensures(is_open, (Some(flags),), open),
        call_ensures(apply_open_flag_visibility, (Some(flags), visibility), r),
    ensures
        open <==> flags@.contains('O'),
        !open ==> r == visibility,
        visibility == Some('S') ==> r == Some('S'),
        open && visibility != Some('S') ==> r == Some('C'),
{
    assert(Some(flags).deep_view() == Some(flags@));
}

/// Why an action is refused: it would go to somebody unknown, it needs a subscription that is not
/// there, or what it refers to has switched it off; and nothing else refuses it.
pub proof fn law_what_is_refused(
    engine: &DslEngine,
    id_tag: &str,
    action: &CreateAction,
    facts: &CreateFacts,
    r: Result<(), Error>,
    letter: char,
    small: char,
)
    requires
        call_ensures(validate_new_action, (engine, id_tag, action, facts), r),
        'A' <= letter <= 'Z',
        small as u32 == letter as u32 + 32,
    ensures
        ({
            let b = engine@[action.typ@].behavior;
            let known = engine@.dom().contains(action.typ@);
            let stranger = action.audience_tag is Some && action.audience_tag->0@ != id_tag@
                && !facts.has_relationship && !(known && b.allow_unknown == Some(true));
            let reference = if action.subject is Some {
                action.subject
            } else {
                action.parent_id
            };
            let unsubscribed = known && b.requires_subscription == Some(true) && reference is Some
                && !(reference->0@.len() > 0 && reference->0@[0] == '@') && facts.target is Some
                && facts.target->0.issuer.id_tag@ != id_tag@ && !facts.subscribed && !(
            facts.target->0.root_id is Some && facts.root_subscribed);
            &&& stranger ==> r is Err
            &&& unsubscribed ==> r is Err
            &&& !known ==> (r is Err <==> stranger)
            &&& (!stranger && !unsubscribed && b.gated_by_parent_flag is None
                && b.gated_by_subject_flag is None) ==> r is Ok
            &&& (!stranger && !unsubscribed && facts.parent is None && facts.subject_action is None)
                ==> r is Ok
            &&& (known && b.gated_by_parent_flag == Some(letter) && action.parent_id is Some
                && !(action.parent_id->0@.len() > 0 && action.parent_id->0@[0] == '@')
                && facts.parent is Some && facts.parent->0.flags is Some
                && facts.parent->0.flags->0@.contains(small) && !action.typ@.contains(':')) ==> r is Err
            &&& (known && b.gated_by_subject_flag == Some(letter) && action.subject is Some
                && !(action.subject->0@.len() > 0 && action.subject->0@[0] == '@')
                && facts.subject_action is Some && facts.subject_action->0.flags is Some
                && facts.subject_action->0.flags->0@.contains(small) && !action.typ@.contains(':'))
                ==> r is Err
        }),
{
    assert(text::ascii_lower(letter) as u32 == small as u32);
    assert(text::ascii_lower(letter) == small);
    if action.parent_id is Some {
        assert(action.parent_id.deep_view() == Some(action.parent_id->0@));
    }
    if facts.parent is Some && facts.parent->0.flags is Some {
        assert(facts.parent->0.flags.deep_view() == Some(facts.parent->0.flags->0@));
    }
    if facts.subject_action is Some && facts.subject_action->0.flags is Some {
        assert(facts.subject_action->0.flags.deep_view() == Some(
            facts.subject_action->0.flags->0@,
        ));
    }
    if !action.typ@.contains(':') {
        helpers::law_type_round_trip(action.typ@, Seq::empty());
    }
}

/// What is created is what was asked for: an ephemeral action is not stored; any other one is
/// refused exactly where it is not valid, and else stored with its visibility, the root of its
/// thread, its key, and the keys of what it waits for.
pub proof fn law_creation_agrees_with_its_parts(
    engine: &DslEngine,
    tn_id: TnId,
    id_tag: &str,
    action: &CreateAction,
    facts: &CreateFacts,
    r: Result<Creation, Error>,
    valid: Result<(), Error>,
    visibility: Option<char>,
)
    requires
        call_ensures(create_action, (engine, tn_id, id_tag, action, facts), r),
        call_ensures(validate_new_action, (engine, id_tag, action, facts), valid),
        call_ensures(resolve_visibility, (action, facts), visibility),
    ensures
        ({
            let ephemeral = engine@.dom().contains(action.typ@)
                && engine@[action.typ@].behavior.ephemeral == Some(true);
            &&& ephemeral ==> r is Ok && r->Ok_0 is Ephemeral
            &&& !ephemeral ==> (r is Ok <==> valid is Ok)
            &&& !ephemeral && r is Ok ==> {
                &&& r->Ok_0 matches Creation::Pending(p) && p.visibility == visibility && (
                action.content is None <==> p.content is None) && (action.parent_id is None
                    ==> p.root_id is None) && (action.attachments is None
                    ==> p.attachments_to_wait@.len() == 0)
            }
        }),
{
    if let Ok(Creation::Pending(p)) = r {
        assert(p.content.deep_view() is None <==> p.content is None);
        assert(p.root_id.deep_view() is None <==> p.root_id is None);
        assert(p.attachments_to_wait.deep_view().len() == p.attachments_to_wait@.len());
    }
}

/// Tasks are keyed by their tenant and what they make, so that what waits for an attachment or
/// a subject waits for the task that makes it: the key of a wait is the key of the task that
/// completes the action behind the reference.
pub proof fn law_waiting_finds_the_task(
    tn_id: TnId,
    a_id: u64,
    t: &ActionCreatorTask,
    temp: String,
    subject: &str,
    wait: Option<String>,
    attachments: &Vec<String>,
    waits: Vec<String>,
    i: int,
    key: String,
)
    requires
        t.tn_id == tn_id && t.a_id == a_id,
        call_ensures(placeholder, (a_id,), temp),
        subject@ == temp@,
        call_ensures(subject_to_wait, (tn_id, Some(subject)), wait),
        call_ensures(attachments_to_wait, (tn_id, attachments), waits),
        call_ensures(ActionCreatorTask::key, (t,), key),
    ensures
        wait is Some && wait->0@ == key@,
        0 <= i < attachments@.len() && attachments@[i]@ == temp@ ==> waits.deep_view().contains(key@),
        waits@.len() <= attachments@.len(),
        (forall|k: int|
            0 <= k < attachments@.len() ==> (#[trigger] attachments@[k])@.len() == 0
                || attachments@[k]@[0] != '@') ==> waits@.len() == 0,
{
    let n = decimal::decimal_text(a_id as nat);
    assert(temp@.skip(1) =~= n);
    assert(wait.deep_view() == Some(key@));
    let all = attachments.deep_view();
    lemma_awaited(tn_id, all);
    assert(waits.deep_view().len() == waits@.len());
    if 0 <= i < attachments@.len() && attachments@[i]@ == temp@ {
        assert(all[i] == temp@);
        assert(task::awaited(tn_id, all).contains(task::task_key_text(tn_id, all[i].skip(1))));
    }
    if forall|k: int|
        0 <= k < attachments@.len() ==> (#[trigger] attachments@[k])@.len() == 0
            || attachments@[k]@[0] != '@' {
        assert forall|k: int| 0 <= k < all.len() implies !task::is_temporary(#[trigger] all[k]) by {
            assert(all[k] == attachments@[k]@);
        }
    }
}

proof fn lemma_awaited(tn_id: TnId, all: Seq<Seq<char>>)
    ensures
        task::awaited(tn_id, all).len() <= all.len(),
        forall|i: int|
            0 <= i < all.len() && task::is_temporary(#[trigger] all[i]) ==> task::awaited(
                tn_id,
                all,
            ).contains(task::task_key_text(tn_id, all[i].skip(1))),
        (forall|i: int| 0 <= i < all.len() ==> !task::is_temporary(#[trigger] all[i]))
            ==> task::awaited(tn_id, all).len() == 0,
    decreases all.len(),
{
    if all.len() > 0 {
        let rest = all.drop_last();
        lemma_awaited(tn_id, rest);
        let before = task::awaited(tn_id, rest);
        let now = task::awaited(tn_id, all);
        assert forall|i: int|
            0 <= i < all.len() && task::is_temporary(#[trigger] all[i]) implies now.contains(
            task::task_key_text(tn_id, all[i].skip(1)),
        ) by {
            let k = task::task_key_text(tn_id, all[i].skip(1));
            if i < rest.len() {
                assert(rest[i] == all[i]);
                assert(before.contains(k));
                let j = choose|j: int| 0 <= j < before.len() && before[j] == k;
                assert(now[j] == k);
            } else {
                assert(now[now.len() - 1] == k);
            }
        }
        if forall|i: int| 0 <= i < all.len() ==> !task::is_temporary(#[trigger] all[i]) {
            assert forall|i: int| 0 <= i < rest.len() implies !task::is_temporary(
                #[trigger] rest[i],
            ) by {
                assert(rest[i] == all[i]);
            }
            assert(!task::is_temporary(all[all.len() - 1]));
        }
    }
}

/// A reference to something pending is read as its number, whether it stands as an attachment or
/// as a subject, and what is no such reference stands for itself.
pub proof fn law_references_lead_back(
    n: u64,
    temp: String,
    pending: &str,
    known: &str,
    a: Result<Reference, Error>,
    s: Result<Reference, Error>,
    k: Result<Reference, Error>,
)
    requires
        call_ensures(placeholder, (n,), temp),
        pending@ == temp@,
        known@.len() == 0 || known@[0] != '@',
        call_ensures(attachment_reference, (pending,), a),
        call_ensures(resolve_subject, (pending,), s),
        call_ensures(attachment_reference, (known,), k),
    ensures
        a == Ok::<Reference, Error>(Reference::Pending(n)),
        s == Ok::<Reference, Error>(Reference::Pending(n)),
        k matches Ok(Reference::Known(x)) && x@ == known@,
{
    decimal::law_decimal_reads_back(n as nat, u64::MAX as int);
    assert(temp@.skip(1) =~= decimal::decimal_text(n as nat));
    task::law_placeholder_reads_back(n);
}

/// What is signed of an action is what was asked for: its type, parent, content, life time and
/// visibility, with its audience, subject and attachments as they turned out to be, and its flags or
/// those of its type; what is kept here only is not signed. The same goes for an ephemeral
/// action, which carries no attachments.
pub proof fn law_what_is_signed(
    engine: &DslEngine,
    t: &ActionCreatorTask,
    attachments: Option<&Vec<String>>,
    subject: Option<&str>,
    parent: Option<&ActionView>,
    r: Completion,
    audience: Option<String>,
    e: CreateAction,
)
    requires
        call_ensures(ActionCreatorTask::complete, (t, engine, attachments, subject, parent), r),
        call_ensures(effective_audience, (&t.action, parent), audience),
        call_ensures(create_ephemeral_action, (engine, &t.action), e),
    ensures
        r.signed.typ@ == t.action.typ@ && e.typ@ == t.action.typ@,
        r.signed.sub_typ.deep_view() == t.action.sub_typ.deep_view(),
        e.sub_typ.deep_view() == t.action.sub_typ.deep_view(),
        r.signed.parent_id.deep_view() == t.action.parent_id.deep_view(),
        e.parent_id.deep_view() == t.action.parent_id.deep_view(),
        json::held(r.signed.content) == json::held(t.action.content),
        json::held(e.content) == json::held(t.action.content),
        r.signed.expires_at == t.action.expires_at && e.expires_at == t.action.expires_at,
        r.signed.visibility == t.action.visibility && e.visibility == t.action.visibility,
        r.signed.audience_tag.deep_view() == audience.deep_view(),
        e.audience_tag.deep_view() == t.action.audience_tag.deep_view(),
        r.signed.subject.deep_view() == subject.deep_view(),
        e.subject.deep_view() == t.action.subject.deep_view(),
        r.signed.attachments.deep_view() == attachments.deep_view(),
        e.attachments is None,
        r.signed.x is None && e.x is None,
        t.action.flags is Some ==> r.signed.flags.deep_view() == t.action.flags.deep_view()
            && e.flags.deep_view() == t.action.flags.deep_view(),
        t.action.flags is None && engine@.dom().contains(t.action.typ@)
            ==> r.signed.flags.deep_view()
            == engine@[t.action.typ@].behavior.default_flags.deep_view(),
        t.action.flags is None && !engine@.dom().contains(t.action.typ@) ==> r.signed.flags is None,
        r.signed.flags.deep_view() == e.flags.deep_view(),
{
    assert(r.signed.flags.deep_view() is None <==> r.signed.flags is None);
    assert(e.attachments.deep_view() is None <==> e.attachments is None);
}

/// What is stored of a completed action is what was signed, by its creator and at its time, with
/// the visibility, flags and own data that it was created with.
pub proof fn law_what_is_stored(
    t: &ActionCreatorTask,
    action_id: &str,
    done: &Completion,
    now: Timestamp,
    r: StoredAction,
)
    requires
        call_ensures(ActionCreatorTask::stored, (t, action_id, done, now), r),
    ensures
        r.action_id@ == action_id@ && r.issuer_tag@ == t.id_tag@ && r.created_at == now,
        r.typ@ == done.signed.typ@ && r.sub_typ.deep_view() == done.signed.sub_typ.deep_view(),
        r.parent_id.deep_view() == done.signed.parent_id.deep_view(),
        r.root_id.deep_view() == done.root_id.deep_view(),
        r.audience_tag.deep_view() == done.signed.audience_tag.deep_view(),
        r.subject.deep_view() == done.signed.subject.deep_view(),
        r.attachments.deep_view() == done.signed.attachments.deep_view(),
        r.expires_at == done.signed.expires_at,
        r.visibility == t.action.visibility && r.flags.deep_view() == t.action.flags.deep_view(),
        json::held(r.x) == json::held(t.action.x),
        done.signed.content is None <==> r.content is None,
{
    assert(r.content.deep_view() is None <==> r.content is None);
}

/// The approval of an action goes to its issuer and is about the action.
pub proof fn law_approvals(
    action_id: &str,
    issuer: &str,
    visibility: Option<char>,
    r: CreateAction,
)
    requires
        call_ensures(approval, (action_id, issuer, visibility), r),
    ensures
        r.typ@ == "APRV"@ && r.sub_typ is None,
        r.audience_tag is Some && r.audience_tag->0@ == issuer@,
        r.subject is Some && r.subject->0@ == action_id@,
        r.visibility == visibility,
        r.parent_id is None && r.content is None && r.attachments is None && r.x is None,
{
    assert(r.audience_tag.deep_view() == Some(issuer@));
    assert(r.subject.deep_view() == Some(action_id@));
    assert(r.parent_id.deep_view() is None);
}

/// A verification is stored and read back as it was, for a token without a comma; and a stored form
/// without a comma is not one.
pub proof fn law_verifications_are_read_back(
    t: &ActionVerifierTask,
    s: String,
    ctx: &str,
    r: Result<ActionVerifierTask, Error>,
)
    requires
        call_ensures(ActionVerifierTask::serialize, (t,), s),
        call_ensures(ActionVerifierTask::build, (ctx,), r),
    ensures
        ctx@ == s@ && !t.token@.contains(',') ==> r is Ok && r->Ok_0.tn_id == t.tn_id
            && r->Ok_0.token@ == t.token@ && r->Ok_0.client_address.deep_view()
            == t.client_address.deep_view(),
        !ctx@.contains(',') ==> r is Err,
{
    if !t.token@.contains(',') {
        task::law_verifier_round_trip(t.tn_id, t.token@, t.client_address.deep_view());
    }
    if !ctx@.contains(',') {
        assert forall|k: int| 0 <= k < ctx@.len() implies ctx@[k] != ',' by {
            assert(ctx@.contains(ctx@[k]));
        }
        text::lemma_before_char(ctx@, ',', ctx@.len() as int);
    }
}

/// At most thirty-two files can be attached.
pub proof fn law_attachments_are_capped(attachments: Option<&[String]>, r: Result<(), Error>)
    requires
        call_ensures(check_attachment_count, (attachments,), r),
    ensures
        attachments is None ==> r is Ok,
        attachments is Some ==> (r is Ok <==> attachments->0@.len() <= 32),
        r is Err ==> r->Err_0 is ValidationError,
{
}

/// A type is split at its first colon and nowhere else.
pub proof fn law_types_are_split_at_the_colon(
    typ: &str,
    r: (String, Option<String>),
)
    requires
        call_ensures(extract_type_and_subtype, (typ,), r),
    ensures
        !r.0@.contains(':'),
        r.1 is Some ==> typ@ == r.0@ + seq![':'] + r.1->0@,
        r.1 is None ==> typ@ == r.0@,
{
    text::lemma_before_char_bounds(typ@, ':');
    assert(r.1.deep_view() is Some <==> r.1 is Some);
    let n = text::before_char(typ@, ':');
    if r.1 is Some {
        assert(r.1.deep_view() == Some(r.1->0@));
        assert(typ@ =~= r.0@ + seq![':'] + r.1->0@);
    } else {
        assert(typ@ =~= r.0@);
    }
    if r.0@.contains(':') {
        let k = choose|k: int| 0 <= k < r.0@.len() && r.0@[k] == ':';
        assert(typ@[k] == ':');
    }
}

/// A snippet has at most two hundred characters and begins as the prose does: a text is its own
/// prose; an object's prose is its text, else its content, else its title.
pub proof fn law_snippets(content: &Json, r: String, none: String)
    requires
        call_ensures(content_snippet, (Some(content),), r),
        call_ensures(content_snippet, (None,), none),
    ensures
        r@.len() <= 200,
        none@.len() == 0,
        content@ matches JsonView::Text(s) ==> r@.is_prefix_of(s) && (s.len() <= 200 ==> r@ == s),
        (content@ is Object && (content@.member("text"@) matches Some(JsonView::Text(s)) && s.len()
            <= 200)) ==> r@ == content@.member("text"@)->0->Text_0,
        (content@ is Object && content@.member("text"@) is None && (content@.member(
            "content"@,
        ) matches Some(JsonView::Text(s)) && s.len() <= 200)) ==> r@ == content@.member(
            "content"@,
        )->0->Text_0,
        (content@ is Object && content@.member("text"@) is None && content@.member("content"@) is None
            && (content@.member("title"@) matches Some(JsonView::Text(s)) && s.len() <= 200)) ==> r@
            == content@.member("title"@)->0->Text_0,
{
}

/// Roles are ranked: an administrator can do what a moderator can, who can do what a member can, who
/// can do what an observer can. To invite takes a moderator, to change a subscription or a
/// conversation an administrator, to remove a subscription a moderator; anybody can subscribe.
pub proof fn law_roles(
    invite: SubscriptionRole,
    change: SubscriptionRole,
    conversation: SubscriptionRole,
    removal: SubscriptionRole,
    subscription: SubscriptionRole,
    message: SubscriptionRole,
    unmarked: SubscriptionRole,
    a: SubscriptionRole,
    b: SubscriptionRole,
    c: SubscriptionRole,
    ab: bool,
    bc: bool,
    ac: bool,
    ba: bool,
)
    requires
        call_ensures(SubscriptionRole::required_for_action, ("INVT", None), invite),
        call_ensures(SubscriptionRole::required_for_action, ("SUBS", Some("UPD")), change),
        call_ensures(SubscriptionRole::required_for_action, ("CONV", Some("UPD")), conversation),
        call_ensures(SubscriptionRole::required_for_action, ("SUBS", Some("DEL")), removal),
        call_ensures(SubscriptionRole::required_for_action, ("SUBS", None), subscription),
        call_ensures(SubscriptionRole::required_for_action, ("MSG", None), message),
        call_ensures(get_subscription_role, (None,), unmarked),
        call_ensures(SubscriptionRole::at_least, (a, b), ab),
        call_ensures(SubscriptionRole::at_least, (b, c), bc),
        call_ensures(SubscriptionRole::at_least, (a, c), ac),
        call_ensures(SubscriptionRole::at_least, (b, a), ba),
    ensures
        invite == SubscriptionRole::Moderator,
        change == SubscriptionRole::Admin && conversation == SubscriptionRole::Admin,
        removal == SubscriptionRole::Moderator,
        subscription == SubscriptionRole::Observer,
        message == SubscriptionRole::Member,
        unmarked == SubscriptionRole::Member,
        ab && bc ==> ac,
        ab || ba,
        ab && ba <==> a == b,
        a == SubscriptionRole::Admin ==> ab,
        b == SubscriptionRole::Observer ==> ab,
        a == SubscriptionRole::Member && b == SubscriptionRole::Moderator ==> !ab,
{
    reveal_strlit("INVT");
    reveal_strlit("SUBS");
    reveal_strlit("CONV");
    reveal_strlit("MSG");
    reveal_strlit("UPD");
    reveal_strlit("DEL");
    assert("INVT"@[0] == 'I' && "SUBS"@[0] == 'S' && "CONV"@[0] == 'C' && "MSG"@[0] == 'M');
    assert("UPD"@[0] == 'U' && "DEL"@[0] == 'D');
    assert(Some("UPD").deep_view() == Some("UPD"@));
    assert(Some("DEL").deep_view() == Some("DEL"@));
}

/// What an action takes over from its parent and its subject: a visibility of its own counts first, then
/// the parent's, then that of an action that is its subject; the audience of a parent is its own, or who issued
/// it.
pub proof fn law_what_is_taken_over(
    own: Option<char>,
    parent: Option<&ActionView>,
    subject: Option<&str>,
    found: Option<&ActionView>,
    visibility: Option<char>,
    audience: Option<String>,
)
    requires
        call_ensures(inherit_visibility, (own, parent, subject, found), visibility),
        call_ensures(resolve_parent_audience, (parent,), audience),
    ensures
        own is Some ==> visibility == own,
        own is None && parent is Some ==> visibility == parent->0.visibility,
        own is None && parent is None && subject is None ==> visibility is None,
        (own is None && parent is None && found is Some && subject is Some && (subject_of(
            subject->0@,
        ) matches Some(SubjectView::Action(_)))) ==> visibility == found->0.visibility,
        parent is None ==> audience is None,
        parent is Some && parent->0.audience is Some ==> audience is Some && audience->0@
            == parent->0.audience->0.id_tag@,
        parent is Some && parent->0.audience is None ==> audience is Some && audience->0@
            == parent->0.issuer.id_tag@,
{
    assert(audience.deep_view() is Some <==> audience is Some);
    assert(audience is Some ==> audience.deep_view() == Some(audience->0@));
}

/// The names of roles, and what is tried again: only a fault of the store is, with a new key.
pub proof fn law_names_of_roles(n: &str, r: SubscriptionRole, e: &Error, again: bool)
    requires
        call_ensures(role_of_lowercase, (n,), r),
        call_ensures(retries_with_new_key, (e,), again),
    ensures
        r == SubscriptionRole::Admin <==> n@ == "admin"@,
        r == SubscriptionRole::Moderator <==> n@ == "moderator"@,
        r == SubscriptionRole::Member <==> n@ == "member"@,
        again <==> *e is DbError,
{
    reveal_strlit("admin");
    reveal_strlit("moderator");
    reveal_strlit("member");
    assert("admin"@.len() == 5 && "moderator"@.len() == 9 && "member"@.len() == 6);
}

/// The key of an action is that of its pattern, and without a pattern it has none. A pattern without marks
/// is the key itself, and one that is a single mark gives the field that it stands for.
pub proof fn law_keys_of_actions(
    pattern: &str,
    typ: &str,
    issuer: &str,
    audience: &str,
    parent: &str,
    subject: &str,
    key: String,
)
    requires
        call_ensures(
            apply_key_pattern,
            (pattern, typ, issuer, Some(audience), Some(parent), Some(subject), None),
            key,
        ),
        !typ@.contains('{') && !issuer@.contains('{') && !audience@.contains('{'),
        !parent@.contains('{') && !subject@.contains('{'),
    ensures
        !pattern@.contains('{') ==> key@ == pattern@,
        pattern@ == "{type}"@ ==> key@ == typ@,
        pattern@ == "{issuer}"@ ==> key@ == issuer@,
        pattern@ == "{audience}"@ ==> key@ == audience@,
        pattern@ == "{parent}"@ ==> key@ == parent@,
        pattern@ == "{subject}"@ ==> key@ == subject@,
{
    assert(Some(audience).deep_view() == Some(audience@));
    assert(Some(parent).deep_view() == Some(parent@));
    assert(Some(subject).deep_view() == Some(subject@));
    lemma_marks();
    let p = pattern@;
    if !p.contains('{') {
        lemma_no_marks(p, typ@, issuer@, audience@, parent@, subject@);
    } else if p == "{type}"@ {
        lemma_one_mark("{type}"@, typ@);
        lemma_no_marks(typ@, typ@, issuer@, audience@, parent@, subject@);
    } else if p == "{issuer}"@ {
        lemma_one_mark("{issuer}"@, issuer@);
        lemma_other_mark("{issuer}"@, "{type}"@, typ@);
        lemma_no_marks(issuer@, typ@, issuer@, audience@, parent@, subject@);
    } else if p == "{audience}"@ {
        lemma_one_mark("{audience}"@, audience@);
        lemma_other_mark("{audience}"@, "{type}"@, typ@);
        lemma_other_mark("{audience}"@, "{issuer}"@, issuer@);
        lemma_no_marks(audience@, typ@, issuer@, audience@, parent@, subject@);
    } else if p == "{parent}"@ {
        lemma_one_mark("{parent}"@, parent@);
        lemma_other_mark("{parent}"@, "{type}"@, typ@);
        lemma_other_mark("{parent}"@, "{issuer}"@, issuer@);
        lemma_other_mark("{parent}"@, "{audience}"@, audience@);
        lemma_no_marks(parent@, typ@, issuer@, audience@, parent@, subject@);
    } else if p == "{subject}"@ {
        lemma_one_mark("{subject}"@, subject@);
        lemma_other_mark("{subject}"@, "{type}"@, typ@);
        lemma_other_mark("{subject}"@, "{issuer}"@, issuer@);
        lemma_other_mark("{subject}"@, "{audience}"@, audience@);
        lemma_other_mark("{subject}"@, "{parent}"@, parent@);
        lemma_no_marks(subject@, typ@, issuer@, audience@, parent@, subject@);
    }
}

/// Whether a text is a mark: a brace in front, and no other one.
spec fn is_mark(m: Seq<char>) -> bool {
    m.len() > 1 && m[0] == '{' && forall|k: int| 1 <= k < m.len() ==> m[k] != '{'
}

proof fn lemma_marks()
    ensures
        is_mark("{type}"@) && is_mark("{issuer}"@) && is_mark("{audience}"@),
        is_mark("{parent}"@) && is_mark("{subject}"@),
        "{type}"@[1] == 't' && "{issuer}"@[1] == 'i' && "{audience}"@[1] == 'a',
        "{parent}"@[1] == 'p' && "{subject}"@[1] == 's',
        helpers::content_mark().len() == 9 && helpers::content_mark()[0] == '{',
{
    reveal_strlit("{type}");
    reveal_strlit("{issuer}");
    reveal_strlit("{audience}");
    reveal_strlit("{parent}");
    reveal_strlit("{subject}");
    reveal_strlit("{content.");
}

/// A text without a brace stays as it is.
proof fn lemma_unmarked(s: Seq<char>, m: Seq<char>, w: Seq<char>)
    requires
        !s.contains('{'),
        is_mark(m),
    ensures
        text::replace_all(s, m, w) == s,
{
    assert forall|k: int| 0 <= k < s.len() implies s[k] != m[0] by {
        assert(s.contains(s[k]));
    }
    crate::text_laws::law_replaced_texts(s, m, w, Seq::empty());
}

proof fn lemma_no_marks(
    s: Seq<char>,
    typ: Seq<char>,
    issuer: Seq<char>,
    audience: Seq<char>,
    parent: Seq<char>,
    subject: Seq<char>,
)
    requires
        !s.contains('{'),
    ensures
        text::replace_all(s, "{type}"@, typ) == s,
        text::replace_all(s, "{issuer}"@, issuer) == s,
        text::replace_all(s, "{audience}"@, audience) == s,
        text::replace_all(s, "{parent}"@, parent) == s,
        text::replace_all(s, "{subject}"@, subject) == s,
        helpers::content_filled(s, None) == s,
{
    lemma_marks();
    lemma_unmarked(s, "{type}"@, typ);
    lemma_unmarked(s, "{issuer}"@, issuer);
    lemma_unmarked(s, "{audience}"@, audience);
    lemma_unmarked(s, "{parent}"@, parent);
    lemma_unmarked(s, "{subject}"@, subject);
    let m = helpers::content_mark();
    text::lemma_find_from(s, m, 0);
    if let Some(at) = text::find_from(s, m, 0) {
        assert(s.subrange(at, at + m.len())[0] == s[at]);
        assert(s.contains(s[at]));
    }
    assert(s.skip(0) =~= s);
}

/// A text that is one mark is replaced as a whole.
proof fn lemma_one_mark(m: Seq<char>, w: Seq<char>)
    requires
        is_mark(m),
    ensures
        text::replace_all(m, m, w) == w,
{
    let none = Seq::<char>::empty();
    crate::text_laws::law_replaced_texts(none, m, w, none);
    assert(none + m + none =~= m);
    assert(none + w + text::replace_all(none, m, w) =~= w);
}

/// A mark is not replaced as another one.
proof fn lemma_other_mark(m: Seq<char>, other: Seq<char>, w: Seq<char>)
    requires
        is_mark(m),
        is_mark(other),
        m[1] != other[1],
    ensures
        text::replace_all(m, other, w) == m,
{
    if other.is_prefix_of(m) {
        assert(m[1] == other[1]);
    }
    let rest = m.skip(1);
    assert forall|k: int| 0 <= k < rest.len() implies rest[k] != other[0] by {
        assert(rest[k] == m[k + 1]);
    }
    crate::text_laws::law_replaced_texts(rest, other, w, Seq::empty());
    assert(seq![m[0]] + rest =~= m);
}

/// An action without a pattern for its type has no key.
pub proof fn law_types_without_a_pattern(
    engine: &DslEngine,
    id_tag: &str,
    action: &CreateAction,
    audience: Option<&str>,
    subject: Option<&str>,
    r: Option<String>,
)
    requires
        call_ensures(action_key, (engine, id_tag, action, audience, subject), r),
    ensures
        r is Some <==> engine@.dom().contains(action.typ@) && engine@[action.typ@].key_pattern
            is Some,
{
    assert(r.deep_view() is Some <==> r is Some);
    if engine@.dom().contains(action.typ@) {
        assert(engine@[action.typ@].key_pattern.deep_view() is Some
            <==> engine@[action.typ@].key_pattern is Some);
    }
}

/// An identity is admitted where it is canonical, in a field of its own and as a subject; a subject that is an
/// action is admitted whatever the rules of identities say.
pub proof fn law_identities_are_checked(
    field: &str,
    id: &str,
    canonical: bool,
    r: Result<(), Error>,
    subject: &str,
    s: Result<(), Error>,
)
    requires
        call_ensures(check_identity_field, (field, id, canonical), r),
        call_ensures(check_subject_field, (subject, canonical), s),
    ensures
        r is Ok <==> canonical,
        r is Err ==> r->Err_0 is ValidationError,
        canonical ==> s is Ok,
        (!canonical && id@.contains('.') && subject@ == seq!['@'] + id@) ==> s is Err
            && s->Err_0 is ValidationError,
        subject@.len() > 0 && subject@[0] != '@' ==> s is Ok,
{
    if id@.contains('.') {
        crate::action::subject_ref::law_domain_is_an_identity(id@);
    }
}

/// Every follower but the excluded one gets what is broadcast, and nobody twice.
pub proof fn law_followers_of_a_broadcast(
    followers: &Vec<String>,
    own: &str,
    r: Vec<String>,
    i: int,
)
    requires
        call_ensures(broadcast_recipient_tags, (followers, own), r),
    ensures
        r.deep_view().no_duplicates(),
        !r.deep_view().contains(own@),
        0 <= i < followers@.len() && followers@[i]@ != own@ ==> r.deep_view().contains(
            followers@[i]@,
        ),
        0 <= i < r@.len() ==> followers.deep_view().contains(r@[i]@),
{
    if 0 <= i < followers@.len() {
        assert(followers.deep_view()[i] == followers@[i]@);
        assert(followers.deep_view().contains(followers@[i]@));
    }
    if 0 <= i < r@.len() {
        assert(r.deep_view()[i] == r@[i]@);
        assert(r.deep_view().contains(r@[i]@));
    }
}

/// The flags of an action are its own, else those of its type.
pub proof fn law_flags_of_actions(engine: &DslEngine, action: &CreateAction, r: Option<String>)
    requires
        call_ensures(token_flags, (engine, action), r),
    ensures
        action.flags is Some ==> r is Some && r->0@ == action.flags->0@,
        action.flags is None && engine@.dom().contains(action.typ@) ==> r.deep_view()
            == engine@[action.typ@].behavior.default_flags.deep_view(),
        action.flags is None && !engine@.dom().contains(action.typ@) ==> r is None,
{
    assert(r.deep_view() is Some <==> r is Some);
}

/// A key that was made before the subject was known is made anew once it is, and no other one is.
pub proof fn law_keys_once_the_subject_is_known(
    engine: &DslEngine,
    id_tag: &str,
    action: &CreateAction,
    audience: Option<&str>,
    subject: &str,
    r: Option<String>,
    key: Option<String>,
)
    requires
        call_ensures(resolved_key, (engine, id_tag, action, audience, Some(subject)), r),
        call_ensures(action_key, (engine, id_tag, action, audience, Some(subject)), key),
    ensures
        (action.subject is Some && action.subject->0@.len() > 0 && action.subject->0@[0] == '@')
            ==> r.deep_view() == key.deep_view(),
        (action.subject is None || action.subject->0@.len() == 0 || action.subject->0@[0] != '@')
            ==> r is None,
{
    assert(r.deep_view() is Some <==> r is Some);
    assert(Some(subject).deep_view() == Some(subject@));
}

/// The parts of what is first stored of an action: the root of its thread, its key, and the keys of what it waits
/// for are those that the rules for each of them give.
pub proof fn law_pending_actions_have_their_parts(
    engine: &DslEngine,
    tn_id: TnId,
    id_tag: &str,
    action: &CreateAction,
    facts: &CreateFacts,
    r: Result<Creation, Error>,
    parent_id: Option<&str>,
    root: Option<String>,
    audience: Option<&str>,
    subject: Option<&str>,
    key: Option<String>,
    wait: Option<String>,
    waits: Vec<String>,
    content: Option<String>,
)
    requires
        call_ensures(create_action, (engine, tn_id, id_tag, action, facts), r),
        r is Ok && r->Ok_0 is Pending,
        parent_id.deep_view() == action.parent_id.deep_view(),
        audience.deep_view() == action.audience_tag.deep_view(),
        subject.deep_view() == action.subject.deep_view(),
        call_ensures(resolve_root_id, (parent_id, facts.parent), root),
        call_ensures(action_key, (engine, id_tag, action, audience, subject), key),
        call_ensures(subject_to_wait, (tn_id, subject), wait),
        action.attachments is Some ==> call_ensures(
            attachments_to_wait,
            (tn_id, &action.attachments->0),
            waits,
        ),
    ensures
        ({
            let p = r->Ok_0->Pending_0;
            &&& p.root_id.deep_view() == root.deep_view()
            &&& p.key.deep_view() == key.deep_view()
            &&& p.subject_to_wait.deep_view() == wait.deep_view()
            &&& action.attachments is Some ==> p.attachments_to_wait.deep_view()
                == waits.deep_view()
        }),
{
    let p = r->Ok_0->Pending_0;
    assert(task::is_pending(p, engine@, tn_id, id_tag@, *action, *facts));
    if action.subject is Some {
        assert(action.subject.deep_view() == Some(action.subject->0@));
        assert(subject is Some && subject->0@ == action.subject->0@);
    } else {
        assert(subject is None);
    }
}

/// A stored action without a separate subtype has the one behind the colon of its type, and the hook sees both
/// parts.
pub proof fn law_types_of_stored_actions(
    action: &StoredAction,
    ctx: &ProcessingContext,
    tenant: &HookTenant,
    r: (HookType, HookContext),
    typ: &str,
    parts: (String, Option<String>),
)
    requires
        call_ensures(hook_context, (action, ctx, tenant), r),
        typ@ == action.typ@,
        call_ensures(extract_type_and_subtype, (typ,), parts),
    ensures
        action.sub_typ is None ==> r.1.typ@ == parts.0@ && r.1.subtype.deep_view()
            == parts.1.deep_view(),
        r.1.tenant_type@ == "person"@,
        (ctx matches ProcessingContext::Inbound { client_address, .. }) ==> r.1.client_address.deep_view()
            == ctx->client_address.deep_view(),
        ctx is Outbound ==> r.1.client_address is None,
{
    assert(r.1.client_address.deep_view() is None <==> r.1.client_address is None);
}

} // verus!
