//! What requests about actions come to, what hooks do in turn, and what the built-in types demand.
use crate::action::dsl::definitions;
use crate::action::dsl::engine::{
    validate_text, validate_value_against_schema, with_definition, DslEngine,
};
use crate::action::dsl::types::{
    all_json, ActionDefinition, ContentSchema, ContentType, DefinitionView, FieldConstraint, FieldType,
};
use crate::action::handler::{
    answer_context, cancel_scheduled, inbox_steps, list_actions, page_size, patch_action,
    post_action, post_action_accept, post_action_dismiss, post_action_reject, post_inbox,
    publish_draft, still_scheduled, Answer, DraftUpdate, Inbox, InboxStep, Page,
    PatchActionRequest, Publication,
};
use crate::action::helpers;
use crate::action::hooks::{
    advance, begin_run, operation_event, run_result, with_hook, with_hooks, ActionTypeHooks,
    HookContext, HookEvent, HookFunction,
    HookImplementation, HookPhase, HookRegistry, HookResult, HookRun, HookType,
};
use crate::action::native_hooks::ownership;
use crate::decimal;
use crate::json::{self, Json, JsonView};
use crate::str_map::StrMap;
use crate::text;
use crate::types::{ActionView, Error, Patch, Timestamp, TnId};
use vstd::prelude::*;

verus! {

// ---------------------------------------------------------------------------------------------
// Requests
// ---------------------------------------------------------------------------------------------

/// A page holds the first actions of the list, as many as fit; it says that there is more exactly
/// where something is left; and its cursor is the place of its last action.
pub proof fn law_pages_of_actions(
    visible: Vec<ActionView>,
    limit: usize,
    sort: Option<&str>,
    r: Page,
    asked: Option<u32>,
    size: usize,
)
    requires
        call_ensures(list_actions, (visible, limit, sort), r),
        call_ensures(page_size, (asked,), size),
    ensures
        r.items@.is_prefix_of(visible@) && r.items@.len() <= limit,
        r.has_more <==> r.items@.len() < visible@.len(),
        r.has_more ==> r.items@.len() == limit,
        !r.has_more ==> r.cursor is None && r.items@ == visible@,
        r.has_more && limit > 0 ==> r.cursor is Some && r.cursor->0.id@ == r.items@.last().action_id@
            && r.cursor->0.sort_value@.signed() == Some(r.items@.last().created_at.0) && (
        sort is None ==> r.cursor->0.sort_field@ == "created"@) && (sort is Some
            ==> r.cursor->0.sort_field@ == sort->0@),
        asked is Some ==> size == asked->0,
        asked is None ==> size == 20,
{
    assert(r.items@ =~= visible@.take(r.items@.len() as int));
    if sort is Some {
        assert(sort.deep_view() == Some(sort->0@));
    }
}

/// A key for publishing packages creates packages only; nothing else restricts what is created.
pub proof fn law_publishing_keys(scope: Option<&str>, typ: &str, r: Result<(), Error>)
    requires
        call_ensures(post_action, (scope, typ), r),
    ensures
        scope is None ==> r is Ok,
        scope is Some && scope->0@ == "apkg:publish"@ ==> (r is Ok <==> typ@ == "APKG"@),
        scope is Some && scope->0@ != "apkg:publish"@ ==> r is Ok,
{
    if scope is Some {
        assert(scope.deep_view() == Some(scope->0@));
    }
}

/// Only requests for a connection have to bring work, and they are refused exactly where it does not
/// hold.
pub proof fn law_proof_of_work(preview: Option<&str>, work: Result<(), String>, r: Result<(), Error>)
    requires
        call_ensures(post_inbox, (preview, work), r),
    ensures
        work is Ok ==> r is Ok,
        preview is None ==> r is Ok,
        preview is Some && preview->0@ == "CONN"@ && work is Err ==> r is Err
            && r->Err_0 is PreconditionRequired,
        (preview is Some && preview->0@.len() > 0 && preview->0@[0] != 'C') ==> r is Ok,
{
    reveal_strlit("CONN");
    if preview is Some && preview->0@.len() > 0 && preview->0@[0] != 'C' {
        assert("CONN"@[0] == 'C');
    }
}

/// What arrived is taken in completely: every related action is stored to wait for the main one, in
/// their order, and at the end the main one is verified.
pub proof fn law_inboxes_are_taken_in(
    tn_id: TnId,
    inbox: &Inbox,
    action_id: &str,
    client: &str,
    r: Vec<InboxStep>,
    i: int,
)
    requires
        call_ensures(inbox_steps, (tn_id, inbox, action_id, client), r),
    ensures
        r@.len() == 1 + (if inbox.related is Some {
            inbox.related->0@.len()
        } else {
            0
        }),
        r@.last() matches InboxStep::Verify(t) && t.tn_id == tn_id && t.token@ == inbox.token@
            && t.client_address is Some && t.client_address->0@ == client@,
        0 <= i < r@.len() - 1 ==> (r@[i] matches InboxStep::StoreRelated { token, waits_for }
            && token@ == inbox.related->0@[i]@ && waits_for@ == action_id@),
{
    let v = r.deep_view();
    assert(v.len() == r@.len());
    if inbox.related is Some {
        assert(inbox.related->0.deep_view().len() == inbox.related->0@.len());
    }
    assert(v[r@.len() - 1] == r@[r@.len() - 1].deep_view());
    if let InboxStep::Verify(t) = r@.last() {
        assert(t.client_address.deep_view() is Some <==> t.client_address is Some);
        assert(t.client_address is Some ==> t.client_address.deep_view() == Some(
            t.client_address->0@,
        ));
    }
    if 0 <= i < r@.len() - 1 {
        assert(v[i] == r@[i].deep_view());
        assert(inbox.related->0.deep_view()[i] == inbox.related->0@[i]@);
    }
}

/// An action is accepted or rejected by the same people: by a moderator of the tenant that owns it, by
/// whom it is addressed to there, and so on for the tenant itself. To accept it makes it active and,
/// where its type can be approved, approves it before its issuer; to reject it deletes it.
pub proof fn law_answers(
    engine: &DslEngine,
    action: Option<&ActionView>,
    tenant: &str,
    caller: &str,
    moderator: bool,
    yes: Result<Answer, Error>,
    no: Result<Answer, Error>,
    applicable: bool,
    authority: bool,
)
    requires
        call_ensures(post_action_accept, (engine, action, tenant, caller, moderator), yes),
        call_ensures(post_action_reject, (engine, action, tenant, caller, moderator), no),
        action is Some ==> call_ensures(
            ownership::accept_applicable,
            (action->0, tenant, caller),
            applicable,
        ),
        action is Some ==> call_ensures(
            ownership::accept_authority,
            (action->0, caller, moderator),
            authority,
        ),
    ensures
        action is None ==> yes is Err && yes->Err_0 is NotFound && no is Err && no->Err_0 is NotFound,
        yes is Ok <==> no is Ok,
        action is Some ==> (yes is Ok <==> applicable && authority),
        yes matches Ok(a) ==> a.status == 'A' && (a.approval is Some <==> engine@.dom().contains(
            action->0.typ@,
        ) && engine@[action->0.typ@].behavior.approvable == Some(true)) && (a.approval is Some ==> {
            let p = a.approval->0;
            p.typ@ == "APRV"@ && p.subject.deep_view() == Some(action->0.action_id@)
                && p.audience_tag.deep_view() == Some(action->0.issuer.id_tag@) && p.visibility
                == Some('F')
        }),
        no matches Ok(a) ==> a.status == 'D' && a.approval is None,
        yes is Ok && no is Ok ==> yes->Ok_0.hook.deep_view() == no->Ok_0.hook.deep_view(),
{
}

/// The hook of an answered action sees the action as it arrived.
pub proof fn law_answered_actions_are_seen(
    action: &ActionView,
    attachments: Option<Vec<String>>,
    tenant_id: i64,
    tenant_tag: &str,
    r: HookContext,
)
    requires
        call_ensures(answer_context, (action, attachments, tenant_id, tenant_tag), r),
    ensures
        r.action_id@ == action.action_id@ && r.typ@ == action.typ@,
        r.subtype.deep_view() == action.sub_typ.deep_view(),
        r.issuer@ == action.issuer.id_tag@,
        action.audience is Some ==> r.audience.deep_view() == Some(action.audience->0.id_tag@),
        action.audience is None ==> r.audience is None,
        r.parent.deep_view() == action.parent_id.deep_view(),
        r.subject.deep_view() == action.subject.deep_view(),
        json::held(r.content) == json::held(action.content),
        r.attachments == attachments,
        decimal::signed_of(r.created_at@) == Some(action.created_at.0 as int),
        r.tenant_id == tenant_id && r.tenant_tag@ == tenant_tag@,
        r.is_inbound && !r.is_outbound && !r.pre_approved,
{
    decimal::law_integer_text_reads_back(action.created_at.0);
    assert(r.audience.deep_view() is None <==> r.audience is None);
}

/// A notification is dismissed by making it active; what waits for confirmation cannot be dismissed,
/// and anything else stays as it is.
pub proof fn law_dismissals(action: Option<&ActionView>, r: Result<Option<char>, Error>)
    requires
        call_ensures(post_action_dismiss, (action,), r),
    ensures
        action is None ==> r is Err && r->Err_0 is NotFound,
        action is Some && action->0.status is Some && action->0.status->0@ == "C"@ ==> r is Err,
        action is Some && action->0.status is Some && action->0.status->0@ == "N"@ ==> r
            == Ok::<Option<char>, Error>(Some('A')),
        (action is Some && (action->0.status is None || (action->0.status->0@ != "N"@
            && action->0.status->0@ != "C"@))) ==> r == Ok::<Option<char>, Error>(None),
{
    reveal_strlit("N");
    reveal_strlit("C");
    assert("N"@[0] != "C"@[0]);
    if action is Some && action->0.status is Some {
        assert(action->0.status.deep_view() == Some(action->0.status->0@));
    }
}

/// Whether an action is a draft of a caller under a temporary id.
pub open spec fn own_draft(action_id: Seq<char>, action: Option<&ActionView>, caller: Seq<char>) -> bool {
    &&& action_id.len() > 0 && action_id[0] == '@'
    &&& action is Some && action->0.issuer.id_tag@ == caller
    &&& action->0.status is Some && (action->0.status->0@ == "R"@ || action->0.status->0@ == "S"@)
}

/// A draft is changed by its author only, and the change gives every field that it names the value that
/// it names and leaves the others alone.
pub proof fn law_drafts_are_changed(
    action_id: &str,
    action: Option<&ActionView>,
    caller: &str,
    req: PatchActionRequest,
    r: Result<DraftUpdate, Error>,
)
    requires
        call_ensures(patch_action, (action_id, action, caller, req), r),
    ensures
        r is Ok <==> own_draft(action_id@, action, caller@),
        r matches Ok(u) ==> {
            &&& req.content is Some ==> (u.content matches Patch::Value(s) && s@
                == json::compact_notation(req.content->0@))
            &&& req.content is None ==> u.content is Undefined
            &&& req.attachments is Some ==> (u.attachments matches Patch::Value(s) && s@
                == text::joined(req.attachments->0.deep_view(), ","@))
            &&& req.attachments is None ==> u.attachments is Undefined
            &&& req.visibility is Some ==> u.visibility == Patch::Value(req.visibility->0)
            &&& req.visibility is None ==> u.visibility is Undefined
            &&& req.flags is Some ==> u.flags == Patch::Value(req.flags->0)
            &&& req.flags is None ==> u.flags is Undefined
            &&& req.x is Some ==> u.x == Patch::Value(req.x->0)
            &&& req.x is None ==> u.x is Undefined
        },
{
    if action is Some && action->0.status is Some {
        assert(action->0.status.deep_view() == Some(action->0.status->0@));
    }
}

/// A draft is published by its author only, under the number in its id, as it is on record: at once, or
/// at the time that was asked for, which then counts as that of its creation.
pub proof fn law_drafts_are_published(
    tn_id: TnId,
    action_id: &str,
    action: Option<&ActionView>,
    attachments: Option<Vec<String>>,
    caller: &str,
    at: Option<Timestamp>,
    now: Timestamp,
    r: Result<Publication, Error>,
    n: u64,
)
    requires
        call_ensures(publish_draft, (tn_id, action_id, action, attachments, caller, at, now), r),
        action_id@ == seq!['@'] + decimal::decimal_text(n as nat),
    ensures
        r is Ok <==> own_draft(action_id@, action, caller@),
        r matches Ok(p) ==> {
            let a = *action->0;
            &&& p.a_id == n
            &&& at is Some ==> p.status == 'S' && p.created_at == at->0
            &&& at is None ==> p.status == 'P' && p.created_at == now
            &&& p.action.typ@ == a.typ@ && p.action.sub_typ.deep_view() == a.sub_typ.deep_view()
            &&& p.action.parent_id.deep_view() == a.parent_id.deep_view()
            &&& a.audience is Some ==> p.action.audience_tag.deep_view() == Some(
                a.audience->0.id_tag@,
            )
            &&& a.audience is None ==> p.action.audience_tag is None
            &&& json::held(p.action.content) == json::held(a.content)
            &&& p.action.attachments.deep_view() == attachments.deep_view()
            &&& p.action.subject.deep_view() == a.subject.deep_view()
            &&& p.action.expires_at == a.expires_at && p.action.visibility == a.visibility
            &&& p.action.flags.deep_view() == a.flags.deep_view()
            &&& json::held(p.action.x) == json::held(a.x)
        },
{
    if action is Some && action->0.status is Some {
        assert(action->0.status.deep_view() == Some(action->0.status->0@));
    }
    decimal::law_decimal_reads_back(n as nat, u64::MAX as int);
    assert(action_id@.skip(1) =~= decimal::decimal_text(n as nat));
    if let Ok(p) = r {
        assert(p.action.audience_tag.deep_view() is None <==> p.action.audience_tag is None);
    }
}

/// A scheduled draft is taken back by its author only and becomes a plain draft, which does not go out
/// by itself; one that is still scheduled does.
pub proof fn law_scheduled_drafts(
    action_id: &str,
    action: Option<&ActionView>,
    caller: &str,
    r: Result<char, Error>,
    goes: bool,
)
    requires
        call_ensures(cancel_scheduled, (action_id, action, caller), r),
        call_ensures(still_scheduled, (action,), goes),
    ensures
        goes <==> action is Some && action->0.status is Some && action->0.status->0@ == "S"@,
        r is Ok <==> goes && action->0.issuer.id_tag@ == caller@ && action_id@.len() > 0
            && action_id@[0] == '@',
        r matches Ok(s) ==> s == 'R',
{
    if action is Some {
        assert(action->0.status.deep_view() is Some <==> action->0.status is Some);
        if action->0.status is Some {
            assert(action->0.status.deep_view() == Some(action->0.status->0@));
        }
    }
}

// ---------------------------------------------------------------------------------------------
// Hooks in turn
// ---------------------------------------------------------------------------------------------

/// A hook runs its operations before its native function; one that is made of operations only calls no
/// function, and one without either is over at once and lets the action pass.
pub proof fn law_hooks_begin(
    i: &HookImplementation,
    registered: Option<HookFunction>,
    r: HookRun,
)
    requires
        call_ensures(begin_run, (i, registered), r),
    ensures
        (i matches HookImplementation::Dsl(ops) && ops@.len() > 0) ==> r.phase
            == HookPhase::Operation(0) && r.native is None,
        (i matches HookImplementation::Hybrid { dsl, native } && dsl@.len() > 0) ==> r.phase
            == HookPhase::Operation(0) && r.native == registered,
        *i is Native && registered is Some ==> r.phase == HookPhase::Native(registered->0),
        *i is Absent && registered is Some ==> r.phase == HookPhase::Native(registered->0),
        (*i is Absent || *i is Native) && registered is None ==> (r.phase matches HookPhase::Done(d)
            && d.continue_processing && d.status is None && d.return_value is None),
{
}

/// A run that times out or fails is over with that error; one whose function answered is over with the
/// answer; operations follow one another, and the function comes after the last of them.
pub proof fn law_hooks_go_on(run: HookRun, event: HookEvent, r: HookRun)
    requires
        run.wf(),
        call_ensures(advance, (run, event), r),
    ensures
        !run.over() && event is TimedOut ==> r.phase == HookPhase::Failed(Error::Timeout),
        run.phase is Native && (event matches HookEvent::NativeDone(d)) ==> r.phase
            == HookPhase::Done(event->NativeDone_0),
        run.phase is Native && (event matches HookEvent::NativeFailed(e)) ==> r.phase
            == HookPhase::Failed(event->NativeFailed_0),
        run.phase is Operation && (event matches HookEvent::OperationFailed(e)) ==> r.phase
            == HookPhase::Failed(event->OperationFailed_0),
        (run.phase matches HookPhase::Operation(k) && event is OperationDone && k + 1
            < run.operations) ==> r.phase == HookPhase::Operation(
            (run.phase->Operation_0 + 1) as usize,
        ),
        (run.phase matches HookPhase::Operation(k) && event is OperationDone && k + 1
            == run.operations && run.native is Some) ==> r.phase == HookPhase::Native(run.native->0),
        run.phase is Operation && event is OperationReturned && run.native is Some ==> r.phase
            == HookPhase::Native(run.native->0),
        run.over() ==> r == run,
{
}

/// What a run comes to is what it ended with, and a run of operations hands the variables on.
pub proof fn law_hooks_end(
    run: HookRun,
    vars: StrMap<Json>,
    r: Result<HookResult, Error>,
    outcome: Result<(), Error>,
    marker: &str,
    e: HookEvent,
)
    requires
        run.wf() && run.over(),
        call_ensures(run_result, (run, vars), r),
        call_ensures(operation_event, (outcome, marker), e),
    ensures
        run.phase is Failed ==> r is Err && r->Err_0 == run.phase->Failed_0,
        run.phase is Done ==> r is Ok && r->Ok_0 == run.phase->Done_0,
        run.phase is DoneWithVars ==> r is Ok && r->Ok_0.vars == vars && r->Ok_0.continue_processing
            && r->Ok_0.status is None,
        outcome is Ok ==> e is OperationDone,
        (outcome is Err && (outcome->Err_0 matches Error::ValidationError(m) && m@ == marker@))
            ==> e is OperationReturned,
        (outcome is Err && !(outcome->Err_0 is ValidationError)) ==> e
            == HookEvent::OperationFailed(outcome->Err_0),
{
}

/// The hook that runs for an action is the one of its type and of the moment; a type that is not known
/// has none.
pub proof fn law_hooks_belong_to_their_type(
    engine: &DslEngine,
    registry: &HookRegistry,
    typ: &str,
    t: HookType,
    r: Result<HookRun, Error>,
    f: Option<HookFunction>,
)
    requires
        call_ensures(DslEngine::execute_hook, (engine, registry, typ, t), r),
        call_ensures(HookRegistry::get_hook, (registry, typ, t), f),
    ensures
        r is Ok <==> engine@.dom().contains(typ@),
        registry@.dom().contains(typ@) ==> f == (match t {
            HookType::OnCreate => registry@[typ@].on_create,
            HookType::OnReceive => registry@[typ@].on_receive,
            HookType::OnAccept => registry@[typ@].on_accept,
            HookType::OnReject => registry@[typ@].on_reject,
        }),
        !registry@.dom().contains(typ@) ==> f is None,
        (r is Ok && t == HookType::OnCreate && engine@[typ@].hooks.on_create is Absent)
            ==> r->Ok_0.native == f && r->Ok_0.operations == 0,
        (r is Ok && t == HookType::OnReceive && engine@[typ@].hooks.on_receive is Absent)
            ==> r->Ok_0.native == f && r->Ok_0.operations == 0,
        (r is Ok && t == HookType::OnAccept && engine@[typ@].hooks.on_accept is Absent)
            ==> r->Ok_0.native == f && r->Ok_0.operations == 0,
        (r is Ok && t == HookType::OnReject && engine@[typ@].hooks.on_reject is Absent)
            ==> r->Ok_0.native == f && r->Ok_0.operations == 0,
        (r is Ok && t == HookType::OnAccept && (engine@[typ@].hooks.on_accept matches
            HookImplementation::Dsl(ops) && ops@.len() > 0)) ==> r->Ok_0.native is None
            && r->Ok_0.phase == HookPhase::Operation(0),
{
}

// ---------------------------------------------------------------------------------------------
// What types demand
// ---------------------------------------------------------------------------------------------

/// An action is looked up under its full type where that is known, and else under its base type.
pub proof fn law_types_are_resolved(
    engine: &DslEngine,
    typ: &str,
    sub: Option<&str>,
    r: Option<String>,
)
    requires
        call_ensures(DslEngine::resolve_action_type, (engine, typ, sub), r),
    ensures
        (sub is Some && engine@.dom().contains(typ@ + ":"@ + sub->0@)) ==> r is Some && r->0@ == typ@
            + ":"@ + sub->0@,
        (sub is None || !engine@.dom().contains(typ@ + ":"@ + sub->0@)) && engine@.dom().contains(
            typ@,
        ) ==> r is Some && r->0@ == typ@,
        (sub is None || !engine@.dom().contains(typ@ + ":"@ + sub->0@)) && !engine@.dom().contains(
            typ@,
        ) ==> r is None,
{
    assert(r.deep_view() is Some <==> r is Some);
    if sub is Some {
        assert(sub.deep_view() == Some(sub->0@));
    }
}

/// The content of an action is judged by its type: unknown types are refused, what is required has to be
/// there, what is forbidden may not be, and what there is has to be of the demanded sort.
pub proof fn law_content_is_judged(
    engine: &DslEngine,
    typ: &str,
    content: Option<&Json>,
    r: Result<(), Error>,
)
    requires
        call_ensures(DslEngine::validate_content, (engine, typ, content), r),
    ensures
        !engine@.dom().contains(typ@) && !typ@.contains(':') ==> r is Err,
        engine@.dom().contains(typ@) ==> {
            let d = engine@[typ@];
            let there = content is Some && !(content->0@ is Null);
            &&& d.fields.content == Some(FieldConstraint::Required) && !there ==> r is Err
            &&& d.fields.content == Some(FieldConstraint::Forbidden) && there ==> r is Err
            &&& (d.fields.content is None && d.schema is None) ==> r is Ok
            &&& (d.fields.content is None && content is None) ==> r is Ok
            &&& (d.schema is Some && d.schema->0.content is Some && content is Some) ==> {
                let s = d.schema->0.content->0;
                let v = content->0@;
                &&& s.content_type == ContentType::Text && !(v is Text) ==> r is Err
                &&& s.content_type == ContentType::Number && !(v is Unsigned || v is Negative
                    || v is Real) ==> r is Err
                &&& s.content_type == ContentType::Boolean && !(v is Bool) ==> r is Err
                &&& s.content_type == ContentType::Object && !(v is Object) ==> r is Err
                &&& (s.content_type == ContentType::Json && d.fields.content is None) ==> r is Ok
                &&& (s.content_type == ContentType::Boolean && v is Bool && d.fields.content is None)
                    ==> r is Ok
                &&& (s.content_type == ContentType::Text && (v matches JsonView::Text(t)
                    && s.max_length is Some && text::byte_length(t) > s.max_length->0)) ==> r is Err
                &&& (s.content_type == ContentType::Text && (v matches JsonView::Text(t)
                    && s.min_length is Some && text::byte_length(t) < s.min_length->0)) ==> r is Err
                &&& (s.content_type == ContentType::Text && d.fields.content is None && s.pattern is None
                    && s.allowed is None && (v matches JsonView::Text(t) && (s.max_length is None
                    || text::byte_length(t) <= s.max_length->0) && (s.min_length is None
                    || text::byte_length(t) >= s.min_length->0))) ==> r is Ok
                &&& (s.content_type == ContentType::Object && v is Object && s.required is Some
                    && s.required->0@.len() > 0 && v.member(s.required->0@[0]@) is None) ==> r is Err
                &&& (s.content_type == ContentType::Object && v is Object && d.fields.content is None
                    && s.required is None && s.properties is None) ==> r is Ok
            }
        },
{
    if !typ@.contains(':') {
        helpers::law_type_round_trip(typ@, Seq::empty());
    }
    if engine@.dom().contains(typ@) {
        let d = engine@[typ@];
        if d.schema is Some && d.schema->0.content is Some && content is Some {
            let s = d.schema->0.content->0;
            assert(d@.schema == Some(s@));
            assert(s@.pattern is None <==> s.pattern is None);
            if s.required is Some && s.required->0@.len() > 0 {
                assert(s@.required->0[0] == s.required->0@[0]@);
            }
        }
    }
}

/// A text meets a schema exactly where its length is within the bounds, its pattern matches, and it is
/// one of the values that are allowed.
pub proof fn law_texts_are_judged(
    s: &str,
    schema: &ContentSchema,
    verdict: Result<bool, String>,
    path: &str,
    r: Result<(), Error>,
)
    requires
        call_ensures(validate_text, (s, schema, verdict, path), r),
        schema.allowed is None,
    ensures
        r is Ok <==> (schema.min_length is Some ==> text::byte_length(s@) >= schema.min_length->0)
            && (schema.max_length is Some ==> text::byte_length(s@) <= schema.max_length->0) && (
        schema.pattern is Some ==> verdict == Ok::<bool, String>(true)),
        r is Err ==> r->Err_0 is ValidationError,
{
    assert(schema@.pattern is None <==> schema.pattern is None);
}

/// Whether a type demands and forbids these fields, in the order content, audience, parent, attachments
/// and subject: `R` for what is required, `F` for what is forbidden, anything else for neither.
pub open spec fn demands(d: DefinitionView, letters: Seq<char>) -> bool {
    let of = |c: char|
        if c == 'R' {
            Some(FieldConstraint::Required)
        } else if c == 'F' {
            Some(FieldConstraint::Forbidden)
        } else {
            None
        };
    &&& d.fields.content == of(letters[0])
    &&& d.fields.audience == of(letters[1])
    &&& d.fields.parent == of(letters[2])
    &&& d.fields.attachments == of(letters[3])
    &&& d.fields.subject == of(letters[4])
}

/// Whether a type is broadcast, open to strangers, and accepted by its recipient.
pub open spec fn behaves(d: DefinitionView, broadcast: bool, strangers: bool, acceptance: bool) -> bool {
    d.behavior.broadcast == Some(broadcast) && d.behavior.allow_unknown == Some(strangers)
        && d.behavior.requires_acceptance == Some(acceptance)
}

/// Whether the content of a type is a text within these lengths.
pub open spec fn takes_text(d: DefinitionView, min: Option<usize>, max: Option<usize>) -> bool {
    &&& d.schema is Some
    &&& d.schema->0.content_type == ContentType::Text
    &&& d.schema->0.min_length == min && d.schema->0.max_length == max
    &&& d.schema->0.pattern is None && d.schema->0.allowed is None
}

/// Whether these flags of a type are on, and no other of them: that it can be approved, needs a subscription,
/// is not stored, can be subscribed to, brings its subject along, and goes to the owner of its subject.
pub open spec fn switched_on(
    d: DefinitionView,
    approvable: bool,
    requires_subscription: bool,
    ephemeral: bool,
    subscribable: bool,
    deliver_subject: bool,
    deliver_to_subject_owner: bool,
) -> bool {
    &&& approvable <==> d.behavior.approvable == Some(true)
    &&& requires_subscription <==> d.behavior.requires_subscription == Some(true)
    &&& ephemeral <==> d.behavior.ephemeral == Some(true)
    &&& subscribable <==> d.behavior.subscribable == Some(true)
    &&& deliver_subject <==> d.behavior.deliver_subject == Some(true)
    &&& deliver_to_subject_owner <==> d.behavior.deliver_to_subject_owner == Some(true)
}

/// The type `CONN`: the fields that it demands and forbids, who gets it, and what makes two actions of it the
/// same one.
pub proof fn law_type_connection(d: ActionDefinition)
    requires
        call_ensures(definitions::connection_definition, (), d),
    ensures
        takes_text(d@, None, Some(500usize)),
        d@.typ == "CONN"@,
        demands(d@, seq!['-', 'R', 'F', 'F', 'F']),
        switched_on(d@, false, false, false, false, false, false),
        d@.key_pattern == Some("{type}:{issuer}:{audience}"@),
{
}

/// The type `FLLW`: the fields that it demands and forbids, who gets it, and what makes two actions of it the
/// same one.
pub proof fn law_type_follow(d: ActionDefinition)
    requires
        call_ensures(definitions::follow_definition, (), d),
    ensures
        takes_text(d@, None, Some(500usize)),
        d@.typ == "FLLW"@,
        demands(d@, seq!['-', 'R', 'F', 'F', 'F']),
        behaves(d@, false, true, false),
        switched_on(d@, false, false, false, false, false, false),
        d@.key_pattern == Some("{type}:{issuer}:{audience}"@),
{
}

/// The type `POST`: the fields that it demands and forbids, who gets it, and what makes two actions of it the
/// same one.
pub proof fn law_type_post(d: ActionDefinition)
    requires
        call_ensures(definitions::post_definition, (), d),
    ensures
        takes_text(d@, Some(1usize), Some(50000usize)),
        d@.typ == "POST"@,
        demands(d@, seq!['R', '-', '-', '-', '-']),
        behaves(d@, true, false, false),
        switched_on(d@, true, false, false, false, false, false),
        d@.key_pattern == None::<Seq<char>>,
{
}

/// The type `REACT`: the fields that it demands and forbids, who gets it, and what makes two actions of it the
/// same one.
pub proof fn law_type_react(d: ActionDefinition)
    requires
        call_ensures(definitions::react_definition, (), d),
    ensures
        d@.typ == "REACT"@,
        demands(d@, seq!['F', '-', 'F', '-', 'R']),
        behaves(d@, false, true, false),
        switched_on(d@, false, false, false, false, false, false),
        d@.key_pattern == Some("{type}:{subject}:{issuer}"@),
{
}

/// The type `CMNT`: the fields that it demands and forbids, who gets it, and what makes two actions of it the
/// same one.
pub proof fn law_type_comment(d: ActionDefinition)
    requires
        call_ensures(definitions::comment_definition, (), d),
    ensures
        takes_text(d@, Some(1usize), Some(10000usize)),
        d@.typ == "CMNT"@,
        demands(d@, seq!['R', '-', 'R', '-', '-']),
        behaves(d@, false, true, false),
        switched_on(d@, false, false, false, false, false, false),
        d@.key_pattern == None::<Seq<char>>,
{
}

/// The type `MSG`: the fields that it demands and forbids, who gets it, and what makes two actions of it the
/// same one.
pub proof fn law_type_message(d: ActionDefinition)
    requires
        call_ensures(definitions::message_definition, (), d),
    ensures
        takes_text(d@, Some(1usize), Some(50000usize)),
        d@.typ == "MSG"@,
        demands(d@, seq!['R', '-', '-', '-', '-']),
        behaves(d@, false, false, false),
        switched_on(d@, true, true, false, false, false, false),
        d@.key_pattern == None::<Seq<char>>,
{
}

/// The type `REPOST`: the fields that it demands and forbids, who gets it, and what makes two actions of it the
/// same one.
pub proof fn law_type_repost(d: ActionDefinition)
    requires
        call_ensures(definitions::repost_definition, (), d),
    ensures
        takes_text(d@, None, Some(1000usize)),
        d@.typ == "REPOST"@,
        demands(d@, seq!['-', '-', 'R', 'F', 'F']),
        behaves(d@, true, false, false),
        switched_on(d@, true, false, false, false, false, false),
        d@.key_pattern == None::<Seq<char>>,
{
}

/// The type `APRV`: the fields that it demands and forbids, who gets it, and what makes two actions of it the
/// same one.
pub proof fn law_type_aprv(d: ActionDefinition)
    requires
        call_ensures(definitions::aprv_definition, (), d),
    ensures
        d@.typ == "APRV"@,
        demands(d@, seq!['F', 'R', '-', 'F', 'R']),
        behaves(d@, true, false, false),
        switched_on(d@, false, false, false, false, false, false),
        d@.key_pattern == None::<Seq<char>>,
{
}

/// The type `STAT`: the fields that it demands and forbids, who gets it, and what makes two actions of it the
/// same one.
pub proof fn law_type_stat(d: ActionDefinition)
    requires
        call_ensures(definitions::stat_definition, (), d),
    ensures
        d@.typ == "STAT"@,
        demands(d@, seq!['R', '-', 'R', 'F', '-']),
        behaves(d@, true, false, false),
        switched_on(d@, false, false, false, false, false, false),
        d@.key_pattern == Some("{type}:{parent}"@),
{
}

/// The type `IDP:REG`: the fields that it demands and forbids, who gets it, and what makes two actions of it the
/// same one.
pub proof fn law_type_idp_reg(d: ActionDefinition)
    requires
        call_ensures(definitions::idp_reg_definition, (), d),
    ensures
        d@.schema is Some && d@.schema->0.content_type == ContentType::Object,
        d@.schema->0.required == Some(seq!["id_tag"@]),
        d@.typ == "IDP:REG"@,
        demands(d@, seq!['R', 'R', 'F', 'F', 'F']),
        behaves(d@, false, true, false),
        switched_on(d@, false, false, false, false, false, false),
        d@.key_pattern == Some("{type}:{issuer}:{audience}:{content.id_tag}"@),
{
}

/// The type `FSHR`: the fields that it demands and forbids, who gets it, and what makes two actions of it the
/// same one.
pub proof fn law_type_fileshare(d: ActionDefinition)
    requires
        call_ensures(definitions::fileshare_definition, (), d),
    ensures
        d@.schema is Some && d@.schema->0.content_type == ContentType::Object,
        d@.schema->0.required == Some(seq!["contentType"@, "fileName"@, "fileTp"@]),
        d@.typ == "FSHR"@,
        demands(d@, seq!['R', 'R', 'F', 'F', 'R']),
        behaves(d@, false, false, true),
        switched_on(d@, false, false, false, false, false, false),
        d@.key_pattern == Some("{type}:{subject}:{audience}"@),
{
}

/// The type `PRES`: the fields that it demands and forbids, who gets it, and what makes two actions of it the
/// same one.
pub proof fn law_type_pres(d: ActionDefinition)
    requires
        call_ensures(definitions::pres_definition, (), d),
    ensures
        d@.typ == "PRES"@,
        demands(d@, seq!['-', '-', '-', 'F', 'R']),
        behaves(d@, false, true, false),
        switched_on(d@, false, false, true, false, false, false),
        d@.key_pattern == None::<Seq<char>>,
        d@.behavior.ttl == Some(30u32),
{
}

/// The type `SUBS`: the fields that it demands and forbids, who gets it, and what makes two actions of it the
/// same one.
pub proof fn law_type_subs(d: ActionDefinition)
    requires
        call_ensures(definitions::subs_definition, (), d),
    ensures
        d@.typ == "SUBS"@,
        demands(d@, seq!['-', 'R', 'F', 'F', 'R']),
        behaves(d@, false, true, false),
        switched_on(d@, false, false, false, false, false, false),
        d@.key_pattern == Some("{type}:{subject}:{issuer}"@),
{
}

/// The type `CONV`: the fields that it demands and forbids, who gets it, and what makes two actions of it the
/// same one.
pub proof fn law_type_conv(d: ActionDefinition)
    requires
        call_ensures(definitions::conv_definition, (), d),
    ensures
        d@.schema is Some && d@.schema->0.content_type == ContentType::Object,
        d@.schema->0.required == Some(seq!["name"@]),
        d@.typ == "CONV"@,
        demands(d@, seq!['R', '-', 'F', '-', 'F']),
        behaves(d@, false, false, false),
        switched_on(d@, false, false, false, true, false, false),
        d@.key_pattern == None::<Seq<char>>,
        d@.behavior.default_flags == Some("rco"@),
{
}

/// The type `INVT`: the fields that it demands and forbids, who gets it, and what makes two actions of it the
/// same one.
pub proof fn law_type_invt(d: ActionDefinition)
    requires
        call_ensures(definitions::invt_definition, (), d),
    ensures
        d@.typ == "INVT"@,
        demands(d@, seq!['-', 'R', 'F', 'F', 'R']),
        behaves(d@, false, false, false),
        switched_on(d@, false, false, false, false, true, true),
        d@.key_pattern == Some("{type}:{subject}:{audience}"@),
{
}

/// The type `PRINVT`: the fields that it demands and forbids, who gets it, and what makes two actions of it the
/// same one.
pub proof fn law_type_prinvt(d: ActionDefinition)
    requires
        call_ensures(definitions::prinvt_definition, (), d),
    ensures
        d@.schema is Some && d@.schema->0.content_type == ContentType::Object,
        d@.schema->0.required == Some(seq!["refId"@]),
        d@.typ == "PRINVT"@,
        demands(d@, seq!['R', 'R', 'F', 'F', 'F']),
        behaves(d@, false, false, false),
        switched_on(d@, false, false, false, false, false, false),
        d@.key_pattern == Some("{type}:{issuer}:{audience}"@),
{
}

/// The built-in types are there, each once.
pub proof fn law_built_in_types(r: Vec<ActionDefinition>)
    requires
        call_ensures(definitions::get_definitions, (), r),
    ensures
        r@.len() == 16,
        r@[0]@.typ == "CONN"@,
        r@[1]@.typ == "FLLW"@,
        r@[2]@.typ == "POST"@,
        r@[3]@.typ == "REACT"@,
        r@[4]@.typ == "CMNT"@,
        r@[5]@.typ == "MSG"@,
        r@[6]@.typ == "REPOST"@,
        r@[7]@.typ == "APRV"@,
        r@[8]@.typ == "STAT"@,
        r@[9]@.typ == "IDP:REG"@,
        r@[10]@.typ == "FSHR"@,
        r@[11]@.typ == "PRES"@,
        r@[12]@.typ == "SUBS"@,
        r@[13]@.typ == "CONV"@,
        r@[14]@.typ == "INVT"@,
        r@[15]@.typ == "PRINVT"@,
{
    let all = Seq::new(r@.len(), |k: int| r@[k]@);
    assert(all == definitions::built_in_definitions());
    assert forall|k: int| 0 <= k < 16 implies #[trigger] all[k] == r@[k]@ by {}
    assert(all[0].typ == "CONN"@);
    assert(all[1].typ == "FLLW"@);
    assert(all[2].typ == "POST"@);
    assert(all[3].typ == "REACT"@);
    assert(all[4].typ == "CMNT"@);
    assert(all[5].typ == "MSG"@);
    assert(all[6].typ == "REPOST"@);
    assert(all[7].typ == "APRV"@);
    assert(all[8].typ == "STAT"@);
    assert(all[9].typ == "IDP:REG"@);
    assert(all[10].typ == "FSHR"@);
    assert(all[11].typ == "PRES"@);
    assert(all[12].typ == "SUBS"@);
    assert(all[13].typ == "CONV"@);
    assert(all[14].typ == "INVT"@);
    assert(all[15].typ == "PRINVT"@);
}

/// The properties of an object are judged each by its own schema: a text by its length and by the values that are
/// allowed, numbers and booleans by their sort, the items of an array each; one that is not there is not judged.
pub proof fn law_properties_are_judged(
    value: &Json,
    schema: &ContentSchema,
    path: &str,
    r: Result<(), Error>,
    i: int,
)
    requires
        call_ensures(validate_value_against_schema, (value, schema, path), r),
        schema.content_type == ContentType::Object,
        value@ is Object,
        schema.properties is Some,
        0 <= i < schema.properties->0@.len(),
    ensures
        ({
            let f = schema.properties->0@[i].1;
            let v = value@.member(schema.properties->0@[i].0@);
            &&& v is Some && f.field_type == FieldType::Text && !(v->0 is Text) ==> r is Err
            &&& (v is Some && f.field_type == FieldType::Text && v->0 is Text && f.max_length is Some
                && text::byte_length(v->0->Text_0) > f.max_length->0) ==> r is Err
            &&& (v is Some && f.field_type == FieldType::Text && v->0 is Text && f.min_length is Some
                && text::byte_length(v->0->Text_0) < f.min_length->0) ==> r is Err
            &&& v is Some && f.field_type == FieldType::Boolean && !(v->0 is Bool) ==> r is Err
            &&& (v is Some && f.field_type == FieldType::Number && !(v->0 is Unsigned || v->0 is Negative
                || v->0 is Real)) ==> r is Err
            &&& v is Some && f.field_type == FieldType::Array && !(v->0 is Array) ==> r is Err
            &&& (v is Some && f.field_type == FieldType::Text && v->0 is Text && f.allowed is Some
                && (forall|k: int|
                0 <= k < f.allowed->0@.len() ==> (#[trigger] f.allowed->0@[k])@ != v->0)) ==> r is Err
            &&& (schema.properties->0@.len() == 1 && schema.required is None && v is None) ==> r is Ok
            &&& (schema.properties->0@.len() == 1 && schema.required is None && v is Some
                && f.field_type == FieldType::Boolean && v->0 is Bool) ==> r is Ok
            &&& (schema.properties->0@.len() == 1 && schema.required is None && v is Some
                && f.field_type == FieldType::Text && v->0 is Text && f.max_length is None
                && f.min_length is None && f.allowed is None) ==> r is Ok
        }),
{
    let s = schema@;
    let props = s.properties->0;
    let p = schema.properties->0@[i];
    assert(props[i] == (p.0@, p.1@));
    assert(p.1@.field_type == p.1.field_type);
    if p.1.allowed is Some {
        assert(p.1@.allowed == Some(all_json(p.1.allowed->0@)));
        let a = all_json(p.1.allowed->0@);
        let v = value@.member(p.0@);
        if v is Some && (forall|k: int|
            0 <= k < p.1.allowed->0@.len() ==> (#[trigger] p.1.allowed->0@[k])@ != v->0)
            && a.contains(v->0) {
            let k = choose|k: int| 0 <= k < a.len() && a[k] == v->0;
            assert(p.1.allowed->0@[k]@ == v->0);
        }
    }
}

/// A type that is made known is found as it was defined, and a hook that is registered as it was; the others stay.
pub proof fn law_what_is_registered_is_found(
    m: Map<Seq<char>, ActionDefinition>,
    d: ActionDefinition,
    h: Map<Seq<char>, ActionTypeHooks>,
    name: Seq<char>,
    hooks: ActionTypeHooks,
    t: HookType,
    f: HookFunction,
    other: Seq<char>,
)
    ensures
        with_definition(m, d).dom().contains(d.typ@) && with_definition(m, d)[d.typ@] == d,
        other != d.typ@ ==> (with_definition(m, d).dom().contains(other) <==> m.dom().contains(other))
            && (m.dom().contains(other) ==> with_definition(m, d)[other] == m[other]),
        with_hooks(h, name, hooks).dom().contains(name) && with_hooks(h, name, hooks)[name] == hooks,
        other != name ==> (with_hooks(h, name, hooks).dom().contains(other) <==> h.dom().contains(
            other,
        )) && (h.dom().contains(other) ==> with_hooks(h, name, hooks)[other] == h[other]),
        t == HookType::OnCreate ==> with_hook(h, name, t, f)[name].on_create == Some(f),
        t == HookType::OnReceive ==> with_hook(h, name, t, f)[name].on_receive == Some(f),
        t == HookType::OnAccept ==> with_hook(h, name, t, f)[name].on_accept == Some(f),
        t == HookType::OnReject ==> with_hook(h, name, t, f)[name].on_reject == Some(f),
        t != HookType::OnCreate && h.dom().contains(name) ==> with_hook(h, name, t, f)[name].on_create
            == h[name].on_create,
        t != HookType::OnReceive && h.dom().contains(name) ==> with_hook(h, name, t, f)[name].on_receive
            == h[name].on_receive,
        t != HookType::OnAccept && h.dom().contains(name) ==> with_hook(h, name, t, f)[name].on_accept
            == h[name].on_accept,
{
}

} // verus!
