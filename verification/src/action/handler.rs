//! Requests about actions: what is admitted, and what it changes.
use crate::action::dsl::engine::{self, DslEngine};
use crate::action::helpers;
use crate::action::hooks::HookContext;
use crate::action::native_hooks::ownership;
use crate::action::task::{
    approval, behavior_of, content_of, flag_on, is_bare_action, is_temporary, task_key_text,
    ActionVerifierTask, CreateAction,
};
use crate::decimal;
use crate::json::{self, Json};
use crate::str_map::StrMap;
use crate::text;
use crate::types::{ActionView, Error, ErrorView, Patch, ProfileInfo, Timestamp, TnId};
use vstd::prelude::*;

verus! {

/// How many actions a page holds where the request does not say.
pub const DEFAULT_PAGE_SIZE: u32 = 20;

/// The number of actions on a page.
pub fn page_size(limit: Option<u32>) -> (r: usize)
    ensures
        r == (match limit {
            Some(n) => n,
            None => DEFAULT_PAGE_SIZE,
        }),
{
    match limit {
        Some(n) => n as usize,
        None => DEFAULT_PAGE_SIZE as usize,
    }
}

/// A page of a list.
#[derive(Debug)]
pub struct Page {
    pub items: Vec<ActionView>,
    /// Whether the list goes on.
    pub has_more: bool,
    /// The place of the last action on the page, where the list goes on behind it.
    pub cursor: Option<CursorData>,
}

/// A place in a list.
#[derive(Debug)]
pub struct CursorData {
    /// By what the list is sorted.
    pub sort_field: String,
    pub sort_value: Json,
    pub id: String,
}

/// Whether a cursor is the place of an action in a list that is sorted in a given way, by the
/// time of creation where nothing is given.
pub open spec fn is_place(c: CursorData, sort: Option<Seq<char>>, a: ActionView) -> bool {
    &&& c.sort_field@ == (match sort {
        Some(s) => s,
        None => "created"@,
    })
    &&& c.sort_value@ == json::integer_json(a.created_at.0)
    &&& c.id@ == a.action_id@
}

/// Cuts a list of visible actions, which is sorted in a given way, down to a page.
pub fn list_actions(visible: Vec<ActionView>, limit: usize, sort: Option<&str>) -> (r: Page)
    ensures
        r.has_more == (visible@.len() > limit),
        r.items@ == (if visible@.len() > limit {
            visible@.take(limit as int)
        } else {
            visible@
        }),
        r.cursor is Some <==> r.has_more && limit > 0,
        r.cursor matches Some(c) ==> is_place(c, sort.deep_view(), visible@[limit - 1]),
{
    let mut items = visible;
    let has_more = items.len() > limit;
    if has_more {
        items.truncate(limit);
        assert(items@ =~= visible@.take(limit as int));
    }
    let cursor = if has_more && limit > 0 {
        let last = &items[limit - 1];
        let sort_field: String = match sort {
            Some(s) => text::owned(s),
            None => text::owned("created"),
        };
        Some(
            CursorData {
                sort_field,
                sort_value: json::integer(last.created_at.0),
                id: last.action_id.clone(),
            },
        )
    } else {
        None
    };
    Page { items, has_more, cursor }
}

/// Admits the creation of an action: a key for publishing packages creates nothing else.
pub fn post_action(scope: Option<&str>, typ: &str) -> (r: Result<(), Error>)
    ensures
        r is Err <==> scope.deep_view() == Some("apkg:publish"@) && typ@ != "APKG"@,
        r matches Err(e) ==> e is PermissionDenied,
{
    if text::is_text(scope, "apkg:publish") && !text::same(typ, "APKG") {
        Err(Error::PermissionDenied)
    } else {
        Ok(())
    }
}

/// What arrives in an inbox.
#[derive(Debug)]
pub struct Inbox {
    pub token: String,
    pub related: Option<Vec<String>>,
}

/// Admits what arrived in an inbox: connection requests have to bring a proof of work.
/// `preview` is the type that the token claims, where it can be read, and `work` the verdict on
/// the proof.
pub fn post_inbox(preview: Option<&str>, work: Result<(), String>) -> (r: Result<(), Error>)
    ensures
        r is Err <==> preview is Some && "CONN"@.is_prefix_of(preview->0@) && work is Err,
        r matches Err(e) ==> (e matches Error::PreconditionRequired(m) && m@
            == "Proof of work required: "@ + work->Err_0@),
{
    if let Some(t) = preview {
        if text::starts_with(t, "CONN") {
            if let Err(why) = work {
                let mut m = text::owned("Proof of work required: ");
                m.append(why.as_str());
                return Err(Error::PreconditionRequired(m));
            }
        }
    }
    Ok(())
}

/// One step of taking in what arrived in an inbox.
#[derive(Debug)]
pub enum InboxStep {
    /// Store an action that waits for the one that came with it; that it cannot be stored does
    /// not matter.
    StoreRelated { token: String, waits_for: String },
    /// Schedule the verification of the action itself.
    Verify(ActionVerifierTask),
}

pub ghost enum InboxStepView {
    StoreRelated { token: Seq<char>, waits_for: Seq<char> },
    Verify { tn_id: TnId, token: Seq<char>, client_address: Option<Seq<char>> },
}

impl DeepView for InboxStep {
    type V = InboxStepView;

    open spec fn deep_view(&self) -> InboxStepView {
        match self {
            InboxStep::StoreRelated { token, waits_for } => InboxStepView::StoreRelated {
                token: token@,
                waits_for: waits_for@,
            },
            InboxStep::Verify(task) => InboxStepView::Verify {
                tn_id: task.tn_id,
                token: task.token@,
                client_address: task.client_address.deep_view(),
            },
        }
    }
}

/// The related tokens that arrived.
pub open spec fn related_tokens(inbox: Inbox) -> Seq<Seq<char>> {
    match inbox.related {
        Some(list) => list.deep_view(),
        None => Seq::empty(),
    }
}

/// The steps for what arrived: each related action is stored first, in order, to wait for the
/// main one; then the main one is verified.
pub open spec fn inbox_plan(
    tn_id: TnId,
    inbox: Inbox,
    action_id: Seq<char>,
    client: Seq<char>,
) -> Seq<InboxStepView> {
    related_tokens(inbox).map_values(
        |t: Seq<char>| InboxStepView::StoreRelated { token: t, waits_for: action_id },
    ).push(InboxStepView::Verify { tn_id, token: inbox.token@, client_address: Some(client) })
}

/// How to take in what arrived. `action_id` is the id of the main action, and `client` the
/// address that it came from.
pub fn inbox_steps(tn_id: TnId, inbox: &Inbox, action_id: &str, client: &str) -> (r: Vec<InboxStep>)
    ensures
        r.deep_view() == inbox_plan(tn_id, *inbox, action_id@, client@),
{
    let mut out: Vec<InboxStep> = Vec::new();
    if let Some(list) = &inbox.related {
        let mut i: usize = 0;
        while i < list.len()
            invariant
                i <= list@.len(),
                out@.len() == i,
                forall|k: int|
                    0 <= k < i ==> (#[trigger] out@[k]).deep_view() == (
                    InboxStepView::StoreRelated { token: list@[k]@, waits_for: action_id@ }),
            decreases list@.len() - i,
        {
            out.push(
                InboxStep::StoreRelated {
                    token: list[i].clone(),
                    waits_for: text::owned(action_id),
                },
            );
            i = i + 1;
        }
    }
    let task = ActionVerifierTask::new(tn_id, inbox.token.clone(), Some(text::owned(client)));
    out.push(InboxStep::Verify(task));
    assert(out.deep_view() =~= inbox_plan(tn_id, *inbox, action_id@, client@));
    out
}

/// What answering an action does.
#[derive(Debug)]
pub struct Answer {
    /// The type whose hook runs; its failure does not matter.
    pub hook: Option<String>,
    /// The status that the action gets.
    pub status: char,
    /// The approval that tells the issuer, and the followers too; that it cannot be created does
    /// not matter.
    pub approval: Option<CreateAction>,
}

/// Whether a caller may answer an action of a tenant's inbox.
pub open spec fn may_answer(
    action: ActionView,
    tenant: Seq<char>,
    caller: Seq<char>,
    moderator: bool,
) -> bool {
    &&& ownership::owner_of(action) == tenant || caller == tenant
    &&& moderator || (action.audience is Some && action.audience->0.id_tag@ == caller)
}

fn answerable(action: &ActionView, tenant: &str, caller: &str, moderator: bool) -> (r: bool)
    ensures
        r == may_answer(*action, tenant@, caller@, moderator),
{
    ownership::accept_applicable(action, tenant, caller) && ownership::accept_authority(
        action,
        caller,
        moderator,
    )
}

/// Decides on the acceptance of an action: `action` is the action on record, and `moderator`
/// the verdict on the caller's roles.
pub fn post_action_accept(
    engine: &DslEngine,
    action: Option<&ActionView>,
    tenant: &str,
    caller: &str,
    moderator: bool,
) -> (r: Result<Answer, Error>)
    ensures
        action is None ==> (r matches Err(e) && e is NotFound),
        action matches Some(a) ==> {
            &&& r is Ok <==> may_answer(*a, tenant@, caller@, moderator)
            &&& r matches Err(e) ==> e is PermissionDenied
            &&& r matches Ok(x) ==> {
                &&& x.hook.deep_view() == engine::resolved_type(
                    engine@,
                    a.typ@,
                    a.sub_typ.deep_view(),
                )
                &&& x.status == 'A'
                &&& x.approval is Some <==> (behavior_of(engine@, a.typ@) matches Some(b)
                    && flag_on(b.approvable))
                &&& x.approval matches Some(n) ==> is_bare_action(
                    n,
                    "APRV"@,
                    None,
                    Some(a.issuer.id_tag@),
                    Some(a.action_id@),
                    Some('F'),
                )
            }
        },
{
    match action {
        None => Err(Error::NotFound),
        Some(a) => {
            if !answerable(a, tenant, caller, moderator) {
                return Err(Error::PermissionDenied);
            }
            let approve = match engine.get_behavior(a.typ.as_str()) {
                Some(b) => match b.approvable {
                    Some(x) => x,
                    None => false,
                },
                None => false,
            };
            let hook = engine.resolve_action_type(a.typ.as_str(), text::as_opt(&a.sub_typ));
            let approval: Option<CreateAction> = if approve {
                Some(approval(a.action_id.as_str(), a.issuer.id_tag.as_str(), Some('F')))
            } else {
                None
            };
            Ok(Answer { hook, status: 'A', approval })
        },
    }
}

/// Decides on the rejection of an action.
pub fn post_action_reject(
    engine: &DslEngine,
    action: Option<&ActionView>,
    tenant: &str,
    caller: &str,
    moderator: bool,
) -> (r: Result<Answer, Error>)
    ensures
        action is None ==> (r matches Err(e) && e is NotFound),
        action matches Some(a) ==> {
            &&& r is Ok <==> may_answer(*a, tenant@, caller@, moderator)
            &&& r matches Err(e) ==> e is PermissionDenied
            &&& r matches Ok(x) ==> {
                &&& x.hook.deep_view() == engine::resolved_type(
                    engine@,
                    a.typ@,
                    a.sub_typ.deep_view(),
                )
                &&& x.status == 'D'
                &&& x.approval is None
            }
        },
{
    match action {
        None => Err(Error::NotFound),
        Some(a) => {
            if !answerable(a, tenant, caller, moderator) {
                return Err(Error::PermissionDenied);
            }
            let hook = engine.resolve_action_type(a.typ.as_str(), text::as_opt(&a.sub_typ));
            Ok(Answer { hook, status: 'D', approval: None })
        },
    }
}

fn tag_of(p: &Option<ProfileInfo>) -> (r: Option<String>)
    ensures
        r.deep_view() == (match p {
            Some(x) => Some(x.id_tag@),
            None => None,
        }),
{
    match p {
        Some(x) => Some(x.id_tag.clone()),
        None => None,
    }
}

fn copied(v: &Option<Json>) -> (r: Option<Json>)
    ensures
        json::held(r) == json::held(*v),
{
    match v {
        Some(x) => Some(x.duplicate()),
        None => None,
    }
}

/// What the hook of an action sees that is answered: the action as it arrived, at this tenant.
pub fn answer_context(
    action: &ActionView,
    attachments: Option<Vec<String>>,
    tenant_id: i64,
    tenant_tag: &str,
) -> (r: HookContext)
    ensures
        r.action_id@ == action.action_id@,
        r.typ@ == action.typ@,
        r.subtype.deep_view() == action.sub_typ.deep_view(),
        r.issuer@ == action.issuer.id_tag@,
        r.audience.deep_view() == (match action.audience {
            Some(p) => Some(p.id_tag@),
            None => None,
        }),
        r.parent.deep_view() == action.parent_id.deep_view(),
        r.subject.deep_view() == action.subject.deep_view(),
        json::held(r.content) == json::held(action.content),
        r.attachments == attachments,
        r.created_at@ == decimal::integer_text(action.created_at.0 as int),
        r.expires_at.deep_view() == (match action.expires_at {
            Some(t) => Some(decimal::integer_text(t.0 as int)),
            None => None,
        }),
        r.tenant_id == tenant_id,
        r.tenant_tag@ == tenant_tag@,
        r.tenant_type@ == "person"@,
        r.is_inbound && !r.is_outbound,
        r.client_address is None,
        !r.pre_approved,
        r.vars@ == Map::<Seq<char>, Json>::empty(),
{
    let expires_at: Option<String> = match action.expires_at {
        Some(t) => Some(decimal::signed_to_text(t.0)),
        None => None,
    };
    HookContext {
        action_id: action.action_id.clone(),
        typ: action.typ.clone(),
        subtype: text::owned_opt(text::as_opt(&action.sub_typ)),
        issuer: action.issuer.id_tag.clone(),
        audience: tag_of(&action.audience),
        parent: text::owned_opt(text::as_opt(&action.parent_id)),
        subject: text::owned_opt(text::as_opt(&action.subject)),
        content: copied(&action.content),
        attachments,
        created_at: decimal::signed_to_text(action.created_at.0),
        expires_at,
        tenant_id,
        tenant_tag: text::owned(tenant_tag),
        tenant_type: text::owned("person"),
        is_inbound: true,
        is_outbound: false,
        client_address: None,
        pre_approved: false,
        vars: StrMap::new(),
    }
}

/// Decides on the dismissal of a notification: the status that it gets, or nothing where it has
/// been dealt with already. What waits for confirmation cannot be dismissed.
pub fn post_action_dismiss(action: Option<&ActionView>) -> (r: Result<Option<char>, Error>)
    ensures
        action is None ==> (r matches Err(e) && e is NotFound),
        action matches Some(a) ==> {
            &&& r is Err <==> a.status.deep_view() == Some("C"@)
            &&& r matches Err(e) ==> e.deep_view() == ErrorView::ValidationError(
                "Cannot dismiss confirmation actions. Use accept or reject."@,
            )
            &&& r matches Ok(s) ==> s == (if a.status.deep_view() == Some("N"@) {
                Some('A')
            } else {
                None
            })
        },
{
    match action {
        None => Err(Error::NotFound),
        Some(a) => {
            let status = text::as_opt(&a.status);
            if text::is_text(status, "N") {
                proof {
                    reveal_strlit("N");
                    reveal_strlit("C");
                    assert("N"@[0] != "C"@[0]);
                }
                Ok(Some('A'))
            } else if text::is_text(status, "C") {
                Err(
                    Error::ValidationError(
                        text::owned("Cannot dismiss confirmation actions. Use accept or reject."),
                    ),
                )
            } else {
                Ok(None)
            }
        },
    }
}

// ---------------------------------------------------------------------------------------------
// Drafts
// ---------------------------------------------------------------------------------------------

/// Whether an action is a draft, scheduled or not.
pub open spec fn is_draft(a: ActionView) -> bool {
    a.status.deep_view() == Some("R"@) || a.status.deep_view() == Some("S"@)
}

pub open spec fn is_scheduled(a: ActionView) -> bool {
    a.status.deep_view() == Some("S"@)
}

/// Why a request about a draft is refused; nothing where it is admitted. Drafts have a temporary
/// id, are on record with the status that the request asks for, and belong to the caller.
pub open spec fn draft_refusal(
    action_id: Seq<char>,
    action: Option<ActionView>,
    in_status: bool,
    caller: Seq<char>,
    no_draft: Seq<char>,
    other_status: Seq<char>,
) -> Option<ErrorView> {
    if !is_temporary(action_id) {
        Some(ErrorView::ValidationError(no_draft))
    } else if action is None {
        Some(ErrorView::NotFound)
    } else if !in_status {
        Some(ErrorView::ValidationError(other_status))
    } else if action->0.issuer.id_tag@ != caller {
        Some(ErrorView::PermissionDenied)
    } else {
        None
    }
}

/// Whether a result refuses a request exactly as it has to be refused.
pub open spec fn refused_as<T>(r: Result<T, Error>, refusal: Option<ErrorView>) -> bool {
    match refusal {
        Some(v) => r matches Err(e) && e.deep_view() == v,
        None => r is Ok,
    }
}

fn has_at(s: &str) -> (r: bool)
    ensures
        r == is_temporary(s@),
{
    !s.is_empty() && s.get_char(0) == '@'
}

fn draft_status(a: &ActionView) -> (r: bool)
    ensures
        r == is_draft(*a),
{
    let s = text::as_opt(&a.status);
    text::is_text(s, "R") || text::is_text(s, "S")
}

fn check_draft<'a>(action_id: &str, action: Option<&'a ActionView>, caller: &str, what: &str) -> (r:
    Result<&'a ActionView, Error>)
    ensures
        refused_as(
            r,
            draft_refusal(
                action_id@,
                helpers::opt_action(action),
                action is Some && is_draft(*action->0),
                caller@,
                what@,
                what@,
            ),
        ),
        r matches Ok(a) ==> action == Some(a),
{
    if !has_at(action_id) {
        return Err(Error::ValidationError(text::owned(what)));
    }
    match action {
        None => Err(Error::NotFound),
        Some(a) => {
            if !draft_status(a) {
                Err(Error::ValidationError(text::owned(what)))
            } else if !text::same(a.issuer.id_tag.as_str(), caller) {
                Err(Error::PermissionDenied)
            } else {
                Ok(a)
            }
        },
    }
}

/// A change to a draft.
#[derive(Debug)]
pub struct PatchActionRequest {
    pub content: Option<Json>,
    pub attachments: Option<Vec<String>>,
    pub visibility: Option<char>,
    pub flags: Option<String>,
    pub x: Option<Json>,
}

/// What is written to a draft: the content in JSON notation, and the attachments with commas
/// between them.
#[derive(Debug)]
pub struct DraftUpdate {
    pub content: Patch<String>,
    pub attachments: Patch<String>,
    pub visibility: Patch<char>,
    pub flags: Patch<String>,
    pub x: Patch<Json>,
}

pub open spec fn patch_text(p: Patch<String>) -> Patch<Seq<char>> {
    match p {
        Patch::Value(s) => Patch::Value(s@),
        Patch::Null => Patch::Null,
        Patch::Undefined => Patch::Undefined,
    }
}

pub open spec fn value_patch<T>(v: Option<T>) -> Patch<T> {
    match v {
        Some(x) => Patch::Value(x),
        None => Patch::Undefined,
    }
}

fn to_patch<T>(v: Option<T>) -> (r: Patch<T>)
    ensures
        r == value_patch(v),
{
    match v {
        Some(x) => Patch::Value(x),
        None => Patch::Undefined,
    }
}

/// Decides on a change to a draft.
pub fn patch_action(
    action_id: &str,
    action: Option<&ActionView>,
    caller: &str,
    req: PatchActionRequest,
) -> (r: Result<DraftUpdate, Error>)
    ensures
        refused_as(
            r,
            draft_refusal(
                action_id@,
                helpers::opt_action(action),
                action is Some && is_draft(*action->0),
                caller@,
                "Only draft actions can be updated"@,
                "Only draft actions can be updated"@,
            ),
        ),
        r matches Ok(u) ==> {
            &&& patch_text(u.content) == (match req.content {
                Some(c) => Patch::Value(json::compact_notation(c@)),
                None => Patch::Undefined,
            })
            &&& patch_text(u.attachments) == (match req.attachments {
                Some(a) => Patch::Value(text::joined(a.deep_view(), ","@)),
                None => Patch::Undefined,
            })
            &&& u.visibility == value_patch(req.visibility)
            &&& u.flags == value_patch(req.flags)
            &&& u.x == value_patch(req.x)
        },
{
    check_draft(action_id, action, caller, "Only draft actions can be updated")?;
    let content: Patch<String> = match &req.content {
        Some(c) => Patch::Value(json::write_compact(c)),
        None => Patch::Undefined,
    };
    let attachments: Patch<String> = match &req.attachments {
        Some(a) => Patch::Value(text::join(a, ",")),
        None => Patch::Undefined,
    };
    Ok(
        DraftUpdate {
            content,
            attachments,
            visibility: to_patch(req.visibility),
            flags: to_patch(req.flags),
            x: to_patch(req.x),
        },
    )
}

/// How a draft is published.
#[derive(Debug)]
pub struct Publication {
    pub a_id: u64,
    /// The status that the draft gets: scheduled or pending.
    pub status: char,
    /// The time that counts as that of its creation.
    pub created_at: Timestamp,
    /// The key of the task that publishes it.
    pub task_key: String,
    /// What it asks for.
    pub action: CreateAction,
}

/// Whether a request asks for what a draft on record says.
pub open spec fn is_drafted(
    r: CreateAction,
    a: ActionView,
    attachments: Option<Seq<Seq<char>>>,
) -> bool {
    &&& r.typ@ == a.typ@
    &&& r.sub_typ.deep_view() == a.sub_typ.deep_view()
    &&& r.parent_id.deep_view() == a.parent_id.deep_view()
    &&& r.audience_tag.deep_view() == (match a.audience {
        Some(p) => Some(p.id_tag@),
        None => None,
    })
    &&& content_of(r) == json::held(a.content)
    &&& r.attachments.deep_view() == attachments
    &&& r.subject.deep_view() == a.subject.deep_view()
    &&& r.expires_at == a.expires_at
    &&& r.visibility == a.visibility
    &&& r.flags.deep_view() == a.flags.deep_view()
    &&& json::held(r.x) == json::held(a.x)
}

fn drafted(a: &ActionView, attachments: Option<Vec<String>>) -> (r: CreateAction)
    ensures
        is_drafted(r, *a, attachments.deep_view()),
{
    CreateAction {
        typ: a.typ.clone(),
        sub_typ: text::owned_opt(text::as_opt(&a.sub_typ)),
        parent_id: text::owned_opt(text::as_opt(&a.parent_id)),
        audience_tag: tag_of(&a.audience),
        content: copied(&a.content),
        attachments,
        subject: text::owned_opt(text::as_opt(&a.subject)),
        expires_at: a.expires_at,
        visibility: a.visibility,
        flags: text::owned_opt(text::as_opt(&a.flags)),
        x: copied(&a.x),
    }
}

/// The number in the temporary id of a draft.
pub open spec fn draft_number(action_id: Seq<char>) -> Option<int> {
    decimal::unsigned_of(action_id.skip(1), u64::MAX as int)
}

/// Decides on the publication of a draft: at once, or at a given time. `attachments` are the
/// files that are attached to it.
pub fn publish_draft(
    tn_id: TnId,
    action_id: &str,
    action: Option<&ActionView>,
    attachments: Option<Vec<String>>,
    caller: &str,
    publish_at: Option<Timestamp>,
    now: Timestamp,
) -> (r: Result<Publication, Error>)
    ensures
        draft_refusal(
            action_id@,
            helpers::opt_action(action),
            action is Some && is_draft(*action->0),
            caller@,
            "Only draft actions can be published"@,
            "Only draft actions can be published"@,
        ) matches Some(v) ==> (r matches Err(x) && x.deep_view() == v),
        draft_refusal(
            action_id@,
            helpers::opt_action(action),
            action is Some && is_draft(*action->0),
            caller@,
            "Only draft actions can be published"@,
            "Only draft actions can be published"@,
        ) is None ==> {
            &&& r is Ok <==> draft_number(action_id@) is Some
            &&& r matches Err(x) ==> x is NotFound
            &&& r matches Ok(p) ==> {
                let key = task_key_text(tn_id, decimal::decimal_text(p.a_id as nat));
                &&& draft_number(action_id@) == Some(p.a_id as int)
                &&& is_drafted(p.action, *action->0, attachments.deep_view())
                &&& p.status == (if publish_at is Some {
                    'S'
                } else {
                    'P'
                })
                &&& p.created_at == (match publish_at {
                    Some(t) => t,
                    None => now,
                })
                &&& p.task_key@ == (if publish_at is Some {
                    "draft:"@ + key
                } else {
                    key
                })
            }
        },
{
    let draft = check_draft(action_id, action, caller, "Only draft actions can be published")?;
    let n: usize = action_id.unicode_len();
    let digits = action_id.substring_char(1, n);
    assert(digits@ =~= action_id@.skip(1));
    let a_id: u64 = match decimal::parse_unsigned(digits, u64::MAX) {
        Some(k) => k,
        None => {
            return Err(Error::NotFound);
        },
    };
    let mut task_key = String::new();
    if publish_at.is_some() {
        task_key.append("draft:");
    }
    task_key.append(decimal::unsigned_to_text(tn_id.0 as u64).as_str());
    task_key.append(",");
    task_key.append(decimal::unsigned_to_text(a_id).as_str());
    proof {
        let key = task_key_text(tn_id, decimal::decimal_text(a_id as nat));
        if publish_at is Some {
            assert(task_key@ =~= "draft:"@ + key);
        } else {
            assert(task_key@ =~= key);
        }
    }
    let (status, created_at) = match publish_at {
        Some(t) => ('S', t),
        None => ('P', now),
    };
    Ok(Publication { a_id, status, created_at, task_key, action: drafted(draft, attachments) })
}

/// Decides on taking a scheduled draft back: it becomes a plain draft.
pub fn cancel_scheduled(action_id: &str, action: Option<&ActionView>, caller: &str) -> (r: Result<
    char,
    Error,
>)
    ensures
        refused_as(
            r,
            draft_refusal(
                action_id@,
                helpers::opt_action(action),
                action is Some && is_scheduled(*action->0),
                caller@,
                "Only draft actions can be cancelled"@,
                "Only scheduled drafts can be cancelled"@,
            ),
        ),
        r matches Ok(s) ==> s == 'R',
{
    if !has_at(action_id) {
        return Err(Error::ValidationError(text::owned("Only draft actions can be cancelled")));
    }
    match action {
        None => Err(Error::NotFound),
        Some(a) => {
            if !text::is_text(text::as_opt(&a.status), "S") {
                Err(
                    Error::ValidationError(text::owned("Only scheduled drafts can be cancelled")),
                )
            } else if !text::same(a.issuer.id_tag.as_str(), caller) {
                Err(Error::PermissionDenied)
            } else {
                Ok('R')
            }
        },
    }
}

/// Whether a scheduled publication still goes ahead when its time comes.
pub fn still_scheduled(action: Option<&ActionView>) -> (r: bool)
    ensures
        r == (action is Some && is_scheduled(*action->0)),
{
    match action {
        Some(a) => text::is_text(text::as_opt(&a.status), "S"),
        None => false,
    }
}

/// Whoever scheduled a draft can take it back; what was taken back is a draft again, which they
/// can change and publish and which no longer goes out by itself.
pub proof fn law_drafts(
    action_id: Seq<char>,
    scheduled: ActionView,
    draft: ActionView,
    caller: Seq<char>,
)
    requires
        is_temporary(action_id),
        is_scheduled(scheduled),
        scheduled.issuer.id_tag@ == caller,
        draft.issuer.id_tag@ == caller,
        draft.status.deep_view() == Some("R"@),
    ensures
        forall|m: Seq<char>, n: Seq<char>| #[trigger]
            draft_refusal(
                action_id,
                Some(scheduled),
                is_scheduled(scheduled),
                caller,
                m,
                n,
            ) is None,
        forall|m: Seq<char>, n: Seq<char>| #[trigger]
            draft_refusal(action_id, Some(draft), is_draft(draft), caller, m, n) is None,
        !is_scheduled(draft),
{
    reveal_strlit("R");
    reveal_strlit("S");
    assert("R"@[0] != "S"@[0]);
}

} // verus!
