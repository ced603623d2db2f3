//! What happens to an action once it is stored.
use crate::action::dsl::engine::DslEngine;
use crate::action::dsl::types::ActionDefinition;
use crate::action::helpers;
use crate::action::hooks::{HookContext, HookResult, HookType};
use crate::action::task::{behavior_of, determine_recipients, flag_on};
use crate::decimal;
use crate::json::{self, Json, JsonView};
use crate::str_map::StrMap;
use crate::text;
use crate::types::{ActionView, Error, Timestamp};
use vstd::prelude::*;

verus! {

/// Where an action came from.
#[derive(Debug)]
pub enum ProcessingContext {
    /// It was created here.
    Outbound {
        /// The reference under which the client knows it.
        temp_id: Option<String>,
    },
    /// It arrived from another instance.
    Inbound {
        client_address: Option<String>,
        /// Whether the sender waits for the result.
        is_sync: bool,
    },
}

impl ProcessingContext {
    pub fn is_outbound(&self) -> (r: bool)
        ensures
            r == (self is Outbound),
    {
        match self {
            ProcessingContext::Outbound { .. } => true,
            ProcessingContext::Inbound { .. } => false,
        }
    }

    pub fn is_inbound(&self) -> (r: bool)
        ensures
            r == (self is Inbound),
    {
        !self.is_outbound()
    }

    pub fn temp_id(&self) -> (r: Option<&str>)
        ensures
            r.deep_view() == (match self {
                ProcessingContext::Outbound { temp_id } => temp_id.deep_view(),
                ProcessingContext::Inbound { .. } => None,
            }),
    {
        match self {
            ProcessingContext::Outbound { temp_id } => text::as_opt(temp_id),
            ProcessingContext::Inbound { .. } => None,
        }
    }

    pub fn client_address(&self) -> (r: Option<&str>)
        ensures
            r.deep_view() == (match self {
                ProcessingContext::Outbound { .. } => None,
                ProcessingContext::Inbound { client_address, .. } => client_address.deep_view(),
            }),
    {
        match self {
            ProcessingContext::Outbound { .. } => None,
            ProcessingContext::Inbound { client_address, .. } => text::as_opt(client_address),
        }
    }
}

/// An action as it is stored.
#[derive(Debug)]
pub struct StoredAction {
    pub action_id: String,
    pub typ: String,
    pub sub_typ: Option<String>,
    pub issuer_tag: String,
    pub parent_id: Option<String>,
    /// The action at the start of its thread.
    pub root_id: Option<String>,
    pub audience_tag: Option<String>,
    /// The content in JSON notation.
    pub content: Option<String>,
    pub attachments: Option<Vec<String>>,
    pub subject: Option<String>,
    pub created_at: Timestamp,
    pub expires_at: Option<Timestamp>,
    pub visibility: Option<char>,
    pub flags: Option<String>,
    /// What is kept here only.
    pub x: Option<Json>,
}

/// The steps that follow the storing of an action.
#[derive(Debug, Clone, Copy, PartialEq, Eq, Structural)]
pub enum AfterStore {
    RunHook,
    Forward,
    FanOut,
    Deliver,
    AutoApprove,
}

/// The steps in order: approval on one's own account is for actions that arrived and that nobody
/// waits for.
pub open spec fn steps_after(ctx: ProcessingContext) -> Seq<AfterStore> {
    let common = seq![
        AfterStore::RunHook,
        AfterStore::Forward,
        AfterStore::FanOut,
        AfterStore::Deliver,
    ];
    if ctx matches ProcessingContext::Inbound { is_sync, .. } && !is_sync {
        common.push(AfterStore::AutoApprove)
    } else {
        common
    }
}

/// What to do with an action that was stored.
pub fn process_after_store(ctx: &ProcessingContext) -> (r: Vec<AfterStore>)
    ensures
        r@ == steps_after(*ctx),
{
    let mut steps: Vec<AfterStore> = Vec::new();
    steps.push(AfterStore::RunHook);
    steps.push(AfterStore::Forward);
    steps.push(AfterStore::FanOut);
    steps.push(AfterStore::Deliver);
    if let ProcessingContext::Inbound { is_sync, .. } = ctx {
        if !*is_sync {
            steps.push(AfterStore::AutoApprove);
        }
    }
    steps
}

/// The base type and the subtype of a stored action: a separate subtype counts first.
pub open spec fn type_parts(a: StoredAction) -> (Seq<char>, Option<Seq<char>>) {
    if a.sub_typ is Some {
        (a.typ@, Some(a.sub_typ->0@))
    } else {
        (helpers::base_type(a.typ@), helpers::sub_type(a.typ@))
    }
}

/// The value of a stored content; nothing where it cannot be read.
pub open spec fn stored_content(content: Option<Seq<char>>) -> Option<JsonView> {
    match content {
        Some(s) => json::json_of_text(s),
        None => None,
    }
}

impl StoredAction {
    /// The value of the content.
    pub fn read_content(&self) -> (r: Option<Json>)
        ensures
            json::held(r) == stored_content(self.content.deep_view()),
    {
        match &self.content {
            Some(s) => json::read_json(s.as_str()),
            None => None,
        }
    }
}

/// The tenant that runs a hook.
pub struct HookTenant<'a> {
    pub tenant_id: i64,
    pub tenant_tag: &'a str,
}

/// The hook that runs for an action, and what it sees. The tenant is the one that runs it,
/// whatever the audience of the action says.
pub fn hook_context(action: &StoredAction, ctx: &ProcessingContext, tenant: &HookTenant) -> (r: (
    HookType,
    HookContext,
))
    ensures
        r.0 == (if ctx is Outbound {
            HookType::OnCreate
        } else {
            HookType::OnReceive
        }),
        r.1.action_id@ == action.action_id@,
        r.1.typ@ == type_parts(*action).0,
        r.1.subtype.deep_view() == type_parts(*action).1,
        r.1.issuer@ == action.issuer_tag@,
        r.1.audience.deep_view() == action.audience_tag.deep_view(),
        r.1.parent.deep_view() == action.parent_id.deep_view(),
        r.1.subject.deep_view() == action.subject.deep_view(),
        json::held(r.1.content) == stored_content(action.content.deep_view()),
        r.1.attachments.deep_view() == action.attachments.deep_view(),
        r.1.created_at@ == decimal::integer_text(action.created_at.0 as int),
        r.1.expires_at.deep_view() == (match action.expires_at {
            Some(t) => Some(decimal::integer_text(t.0 as int)),
            None => None,
        }),
        r.1.tenant_id == tenant.tenant_id,
        r.1.tenant_tag@ == tenant.tenant_tag@,
        r.1.tenant_type@ == "person"@,
        r.1.is_outbound == (ctx is Outbound),
        r.1.is_inbound == (ctx is Inbound),
        r.1.client_address.deep_view() == (match ctx {
            ProcessingContext::Outbound { .. } => None,
            ProcessingContext::Inbound { client_address, .. } => client_address.deep_view(),
        }),
        !r.1.pre_approved,
        r.1.vars@ == Map::<Seq<char>, Json>::empty(),
{
    let (typ, subtype) = match &action.sub_typ {
        Some(st) => (action.typ.clone(), Some(st.clone())),
        None => helpers::extract_type_and_subtype(action.typ.as_str()),
    };
    let content = action.read_content();
    let expires_at: Option<String> = match action.expires_at {
        Some(t) => Some(decimal::signed_to_text(t.0)),
        None => None,
    };
    let outbound = ctx.is_outbound();
    let hook_type = if outbound {
        HookType::OnCreate
    } else {
        HookType::OnReceive
    };
    let hook_context = HookContext {
        action_id: action.action_id.clone(),
        typ,
        subtype,
        issuer: action.issuer_tag.clone(),
        audience: text::owned_opt(text::as_opt(&action.audience_tag)),
        parent: text::owned_opt(text::as_opt(&action.parent_id)),
        subject: text::owned_opt(text::as_opt(&action.subject)),
        content,
        attachments: text::owned_list_opt(action.attachments.as_ref()),
        created_at: decimal::signed_to_text(action.created_at.0),
        expires_at,
        tenant_id: tenant.tenant_id,
        tenant_tag: text::owned(tenant.tenant_tag),
        tenant_type: text::owned("person"),
        is_inbound: !outbound,
        is_outbound: outbound,
        client_address: text::owned_opt(ctx.client_address()),
        pre_approved: false,
        vars: StrMap::new(),
    };
    (hook_type, hook_context)
}

/// What the storing of an action came to.
#[derive(Debug)]
pub struct PostStoreResult {
    /// The value of the hook, for a sender who waits for it.
    pub hook_result: Option<Json>,
}

/// What the outcome of a hook means: where the sender waits, they get the hook's value or its
/// error; otherwise an error of the hook does not stop the action.
pub fn hook_outcome(ctx: &ProcessingContext, outcome: Result<HookResult, Error>) -> (r: Result<
    PostStoreResult,
    Error,
>)
    ensures
        ctx matches ProcessingContext::Inbound { is_sync: true, .. } ==> (match outcome {
            Ok(h) => r matches Ok(x) && x.hook_result == h.return_value,
            Err(e) => r == Err::<PostStoreResult, Error>(e),
        }),
        !(ctx matches ProcessingContext::Inbound { is_sync: true, .. }) ==> (r matches Ok(x)
            && x.hook_result is None),
{
    let waits = match ctx {
        ProcessingContext::Inbound { is_sync, .. } => *is_sync,
        ProcessingContext::Outbound { .. } => false,
    };
    if waits {
        match outcome {
            Ok(h) => Ok(PostStoreResult { hook_result: h.return_value }),
            Err(e) => Err(e),
        }
    } else {
        Ok(PostStoreResult { hook_result: None })
    }
}

// ---------------------------------------------------------------------------------------------
// Delivery
// ---------------------------------------------------------------------------------------------

/// How an action is delivered.
#[derive(Debug)]
pub enum DeliveryPlan {
    /// Not at all.
    Nowhere,
    /// To all followers. A related action travels with it, and the author gets it too, follower
    /// or not.
    Broadcast { related: Option<String>, author: Option<String> },
    /// To these recipients; a related action travels with it.
    Direct { recipients: Vec<String>, related: Option<String> },
}

pub enum DeliveryView {
    Nowhere,
    Broadcast { related: Option<Seq<char>>, author: Option<Seq<char>> },
    Direct { recipients: Seq<Seq<char>>, related: Option<Seq<char>> },
}

impl View for DeliveryPlan {
    type V = DeliveryView;

    open spec fn view(&self) -> DeliveryView {
        match self {
            DeliveryPlan::Nowhere => DeliveryView::Nowhere,
            DeliveryPlan::Broadcast { related, author } => DeliveryView::Broadcast {
                related: related.deep_view(),
                author: author.deep_view(),
            },
            DeliveryPlan::Direct { recipients, related } => DeliveryView::Direct {
                recipients: recipients.deep_view(),
                related: related.deep_view(),
            },
        }
    }
}

pub open spec fn broadcasts(m: Map<Seq<char>, ActionDefinition>, typ: Seq<char>) -> bool {
    behavior_of(m, typ) matches Some(b) && flag_on(b.broadcast)
}

/// Those who get an action directly: the audience, and the owner of the subject where the type
/// asks for it; never the issuer, and nobody twice.
pub open spec fn direct_tags(
    m: Map<Seq<char>, ActionDefinition>,
    typ: Seq<char>,
    issuer: Seq<char>,
    audience_tag: Option<Seq<char>>,
    has_subject: bool,
    subject_action: Option<ActionView>,
) -> Seq<Seq<char>> {
    let audience = if audience_tag is Some && audience_tag->0 != issuer {
        seq![audience_tag->0]
    } else {
        Seq::empty()
    };
    let owner_too = (behavior_of(m, typ) matches Some(b) && flag_on(b.deliver_to_subject_owner))
        && has_subject && subject_action is Some;
    if owner_too && subject_action->0.issuer.id_tag@ != issuer && !audience.contains(
        subject_action->0.issuer.id_tag@,
    ) {
        audience.push(subject_action->0.issuer.id_tag@)
    } else {
        audience
    }
}

/// Those who get a stored action directly.
pub open spec fn direct_recipients(
    m: Map<Seq<char>, ActionDefinition>,
    a: StoredAction,
    subject_action: Option<ActionView>,
) -> Seq<Seq<char>> {
    direct_tags(
        m,
        a.typ@,
        a.issuer_tag@,
        a.audience_tag.deep_view(),
        a.subject is Some,
        subject_action,
    )
}

/// The action that travels with a direct delivery.
pub open spec fn related_subject(
    m: Map<Seq<char>, ActionDefinition>,
    typ: Seq<char>,
    subject: Option<Seq<char>>,
) -> Option<Seq<char>> {
    if behavior_of(m, typ) matches Some(b) && flag_on(b.deliver_subject) {
        subject
    } else {
        None
    }
}

pub(crate) fn find_direct_tags(
    engine: &DslEngine,
    typ: &str,
    issuer: &str,
    audience_tag: Option<&str>,
    has_subject: bool,
    subject_action: Option<&ActionView>,
) -> (r: Vec<String>)
    ensures
        r.deep_view() == direct_tags(
            engine@,
            typ@,
            issuer@,
            audience_tag.deep_view(),
            has_subject,
            helpers::opt_action(subject_action),
        ),
{
    let mut recipients = determine_recipients(issuer, audience_tag);
    let owner_too = match engine.get_behavior(typ) {
        Some(b) => match b.deliver_to_subject_owner {
            Some(x) => x,
            None => false,
        },
        None => false,
    };
    if owner_too && has_subject {
        if let Some(found) = subject_action {
            let owner = found.issuer.id_tag.as_str();
            if !text::same(owner, issuer) && !helpers::contains_tag(&recipients, owner) {
                let ghost before = recipients.deep_view();
                recipients.push(text::owned(owner));
                assert(recipients.deep_view() =~= before.push(owner@));
            }
        }
    }
    recipients
}

pub(crate) fn find_related_subject(engine: &DslEngine, typ: &str, subject: Option<&str>) -> (r:
    Option<String>)
    ensures
        r.deep_view() == related_subject(engine@, typ@, subject.deep_view()),
{
    let subject_too = match engine.get_behavior(typ) {
        Some(b) => match b.deliver_subject {
            Some(x) => x,
            None => false,
        },
        None => false,
    };
    if subject_too {
        text::owned_opt(subject)
    } else {
        None
    }
}

/// How an action is delivered: what arrived is not sent on; what its type broadcasts and is for
/// nobody in particular goes to the followers, as does the approval of such an action, together
/// with it; everything else goes to its recipients.
pub open spec fn delivery_of(
    m: Map<Seq<char>, ActionDefinition>,
    a: StoredAction,
    subject_action: Option<ActionView>,
    ctx: ProcessingContext,
) -> DeliveryView {
    if ctx is Inbound {
        DeliveryView::Nowhere
    } else if broadcasts(m, a.typ@) && a.audience_tag is None {
        DeliveryView::Broadcast { related: None, author: None }
    } else if a.typ@ == "APRV"@ && a.subject is Some && subject_action is Some && broadcasts(
        m,
        subject_action->0.typ@,
    ) {
        DeliveryView::Broadcast { related: Some(a.subject->0@), author: None }
    } else {
        DeliveryView::Direct {
            recipients: direct_recipients(m, a, subject_action),
            related: related_subject(m, a.typ@, a.subject.deep_view()),
        }
    }
}

pub(crate) fn broadcasting(engine: &DslEngine, typ: &str) -> (r: bool)
    ensures
        r == broadcasts(engine@, typ@),
{
    match engine.get_behavior(typ) {
        Some(b) => match b.broadcast {
            Some(x) => x,
            None => false,
        },
        None => false,
    }
}

/// Decides how an action is delivered; `subject_action` is the action on record under the
/// subject.
pub fn schedule_delivery(
    engine: &DslEngine,
    action: &StoredAction,
    subject_action: Option<&ActionView>,
    ctx: &ProcessingContext,
) -> (r: DeliveryPlan)
    ensures
        r@ == delivery_of(engine@, *action, helpers::opt_action(subject_action), *ctx),
{
    if ctx.is_inbound() {
        return DeliveryPlan::Nowhere;
    }
    if broadcasting(engine, action.typ.as_str()) && action.audience_tag.is_none() {
        return DeliveryPlan::Broadcast { related: None, author: None };
    }
    if text::same(action.typ.as_str(), "APRV") {
        if let (Some(subject), Some(found)) = (&action.subject, subject_action) {
            if broadcasting(engine, found.typ.as_str()) {
                return DeliveryPlan::Broadcast { related: Some(subject.clone()), author: None };
            }
        }
    }
    let subject = text::as_opt(&action.subject);
    let recipients = find_direct_tags(
        engine,
        action.typ.as_str(),
        action.issuer_tag.as_str(),
        text::as_opt(&action.audience_tag),
        subject.is_some(),
        subject_action,
    );
    let related = find_related_subject(engine, action.typ.as_str(), subject);
    DeliveryPlan::Direct { recipients, related }
}

/// An action is never delivered to its own issuer, and to nobody twice.
pub proof fn law_direct_recipients(
    m: Map<Seq<char>, ActionDefinition>,
    a: StoredAction,
    subject_action: Option<ActionView>,
)
    ensures
        direct_recipients(m, a, subject_action).no_duplicates(),
        !direct_recipients(m, a, subject_action).contains(a.issuer_tag@),
{
    let r = direct_recipients(m, a, subject_action);
    if r.contains(a.issuer_tag@) {
        let i = choose|i: int| 0 <= i < r.len() && r[i] == a.issuer_tag@;
        assert(r[i] != a.issuer_tag@);
    }
    assert forall|i: int, j: int| 0 <= i < r.len() && 0 <= j < r.len() && i != j implies r[i]
        != r[j] by {
        if r.len() == 2 {
            let audience = seq![a.audience_tag->0@];
            assert(audience[0] == r[0]);
            assert(audience.contains(r[0]));
        }
    }
}

/// Whether somebody follows: they issued one of the follow or connection actions that is not
/// deleted.
pub open spec fn follows(actions: Seq<ActionView>, tag: Seq<char>) -> bool {
    exists|i: int|
        0 <= i < actions.len() && (#[trigger] actions[i]).issuer.id_tag@ == tag
            && actions[i].status.deep_view() != Some("D"@)
}

/// Those who get what is broadcast: the followers and the author, each once, but for the sender.
pub fn broadcast_recipients(
    follower_actions: &Vec<ActionView>,
    id_tag: &str,
    author: Option<&str>,
) -> (r: Vec<String>)
    ensures
        r.deep_view().no_duplicates(),
        forall|t: Seq<char>| #[trigger]
            r.deep_view().contains(t) <==> t != id_tag@ && (follows(follower_actions@, t)
                || author.deep_view() == Some(t)),
{
    let mut out: Vec<String> = Vec::new();
    let mut i: usize = 0;
    while i < follower_actions.len()
        invariant
            i <= follower_actions@.len(),
            out.deep_view().no_duplicates(),
            forall|t: Seq<char>| #[trigger]
                out.deep_view().contains(t) <==> t != id_tag@ && follows(
                    follower_actions@.take(i as int),
                    t,
                ),
        decreases follower_actions@.len() - i,
    {
        let ghost before = out.deep_view();
        let a = &follower_actions[i];
        let tag = a.issuer.id_tag.as_str();
        let deleted = text::is_text(text::as_opt(&a.status), "D");
        if !deleted && !text::same(tag, id_tag) && !helpers::contains_tag(&out, tag) {
            out.push(text::owned(tag));
            assert(out.deep_view() =~= before.push(tag@));
        }
        proof {
            let prev = follower_actions@.take(i as int);
            let next = follower_actions@.take(i + 1);
            assert(next =~= prev.push(*a));
            assert forall|t: Seq<char>|
                #[trigger] out.deep_view().contains(t) <==> t != id_tag@ && follows(next, t) by {
                helpers::lemma_push_contains(before, tag@, t);
                assert(before.contains(t) <==> t != id_tag@ && follows(prev, t));
                if follows(prev, t) {
                    let k = choose|k: int|
                        0 <= k < prev.len() && (#[trigger] prev[k]).issuer.id_tag@ == t
                            && prev[k].status.deep_view() != Some("D"@);
                    assert(next[k].issuer.id_tag@ == t);
                }
                if follows(next, t) {
                    let k = choose|k: int|
                        0 <= k < next.len() && (#[trigger] next[k]).issuer.id_tag@ == t
                            && next[k].status.deep_view() != Some("D"@);
                    if k < i {
                        assert(prev[k].issuer.id_tag@ == t);
                    } else {
                        assert(next[k] == *a);
                    }
                }
                if tag@ == t && !deleted {
                    assert(next[i as int].issuer.id_tag@ == t);
                }
            }
        }
        i = i + 1;
    }
    assert(follower_actions@.take(i as int) =~= follower_actions@);
    if let Some(a) = author {
        let ghost before = out.deep_view();
        if !text::same(a, id_tag) && !helpers::contains_tag(&out, a) {
            out.push(text::owned(a));
            assert(out.deep_view() =~= before.push(a@));
        }
        proof {
            assert forall|t: Seq<char>|
                #[trigger] out.deep_view().contains(t) <==> t != id_tag@ && (follows(
                    follower_actions@,
                    t,
                ) || author.deep_view() == Some(t)) by {
                helpers::lemma_push_contains(before, a@, t);
                assert(before.contains(t) <==> t != id_tag@ && follows(follower_actions@, t));
            }
        }
    }
    out
}

/// Whether an action that arrived is approved on the tenant's own account: its type can be
/// approved, it is addressed to the tenant by somebody else whom the tenant is connected to, and
/// the tenant has switched this on.
pub fn try_auto_approve(
    engine: &DslEngine,
    action: &StoredAction,
    our_id_tag: &str,
    enabled: bool,
    issuer_connected: bool,
) -> (r: bool)
    ensures
        r == ((behavior_of(engine@, action.typ@) matches Some(b) && flag_on(b.approvable))
            && action.audience_tag.deep_view() == Some(our_id_tag@) && action.issuer_tag@
            != our_id_tag@ && enabled && issuer_connected),
{
    let approvable = match engine.get_behavior(action.typ.as_str()) {
        Some(b) => match b.approvable {
            Some(x) => x,
            None => false,
        },
        None => false,
    };
    approvable && text::is_text(text::as_opt(&action.audience_tag), our_id_tag) && !text::same(
        action.issuer_tag.as_str(),
        our_id_tag,
    ) && enabled && issuer_connected
}

} // verus!
