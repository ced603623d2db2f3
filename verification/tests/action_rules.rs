use cloudillo::action::delivery::{
    delivery_retry, inbox_payload, schedule_deliveries, ActionDeliveryTask,
};
use cloudillo::action::dsl::definitions::get_definitions;
use cloudillo::action::dsl::engine::{
    validate_text, validate_value_against_schema, DefinitionProblem, DslEngine,
};
use cloudillo::action::dsl::types::{ContentSchema, ContentType, FieldType, SchemaField};
use cloudillo::action::fanout::{
    backfill_roster_to_joiner, fanout_recipients, maybe_relay_child_to_subscribers,
    related_action_id, relay_approval, schedule_subscriber_fanout, walk_step, FanOut, Relay,
    RelayCandidate, WalkStep,
};
use cloudillo::action::filter::{
    container_ids, filter_actions_by_visibility, is_subscribable,
    subject_has_peer_relation_to_tenant, view_audience, view_question, ProfileRelation, Reader,
};
use cloudillo::action::forward::{
    build_action_message, forward_action, forward_inbound_action, forward_outbound_action,
    DeliveryResult, ForwardActionParams,
};
use cloudillo::action::handler::{
    answer_context, cancel_scheduled, inbox_steps, list_actions, page_size, patch_action,
    post_action, post_action_accept, post_action_dismiss, post_action_reject, post_inbox,
    publish_draft, still_scheduled, Inbox, InboxStep, PatchActionRequest,
};
use cloudillo::action::helpers::{
    broadcast_recipient_tags, inherit_visibility, resolve_parent_audience, resolve_root_id,
    SubscriptionRole,
};
use cloudillo::action::history_sync::{ingest_steps, HistoryFetchTask, IngestStep, OutboxItem};
use cloudillo::action::hooks::{
    advance, begin_run, operation_event, run_result, HookContext, HookEvent, HookFunction,
    HookImplementation, HookPhase, HookRegistry, HookResult, HookType,
};
use cloudillo::action::key_cache::{FailureEntry, FailureType, KeyFetchCache};
use cloudillo::action::native_hooks::plan::{
    created_action, find_referred, ConnectionStatus, Effect, HookPlan, NewAction, Party, Referred,
};
use cloudillo::action::native_hooks::registration::{
    register_bookkeeping_hooks, register_native_hooks, FSHR_ON_CREATE, FSHR_ON_RECEIVE,
    STAT_ON_RECEIVE,
};
use cloudillo::action::native_hooks::{
    cmnt, conn, fllw, fshr, idp, invt, msg, prinvt, react, repost, stat, stat_emit,
    stat_emit_task, subs,
};
use cloudillo::action::post_store::{
    broadcast_recipients, hook_context, hook_outcome, process_after_store,
    schedule_delivery, try_auto_approve, AfterStore, DeliveryPlan, HookTenant, ProcessingContext,
    StoredAction,
};
use cloudillo::action::settings::{register_settings, SettingValue};
use cloudillo::action::task::{
    approval, attachment_reference, attachments_to_wait, create_action, create_ephemeral_action,
    determine_recipients, effective_audience, placeholder, resolve_subject, resolve_visibility, resolved_key,
    retries_with_new_key, subject_to_wait, token_flags, validate_new_action, ActionCreatorTask,
    ActionVerifierTask, CreateAction, CreateFacts, Creation, Reference,
};
use cloudillo::action::task;
use cloudillo::json::Json;
use cloudillo::str_map::StrMap;
use cloudillo::types::{ActionView, Error, Patch, ProfileInfo, Timestamp, TnId};

fn text(s: &str) -> Json {
    Json::Text(s.to_string())
}

fn object(members: &[(&str, Json)]) -> Json {
    Json::Object(members.iter().map(|(k, v)| (k.to_string(), v.duplicate())).collect())
}

fn engine() -> DslEngine {
    let mut e = DslEngine::new();
    for d in get_definitions() {
        e.load_definition(d);
    }
    e
}

/// The known types, with the gates and the relay that a type can ask for.
fn gated_engine() -> DslEngine {
    let mut e = DslEngine::new();
    for mut d in get_definitions() {
        if d.typ == "CMNT" {
            d.behavior.gated_by_parent_flag = Some('C');
        } else if d.typ == "REACT" {
            d.behavior.gated_by_subject_flag = Some('R');
        } else if d.typ == "CONV" {
            d.behavior.relay_children = Some(true);
        }
        e.load_definition(d);
    }
    e
}

fn profile(tag: &str) -> ProfileInfo {
    ProfileInfo { id_tag: tag.to_string(), name: tag.to_string() }
}

fn view(id: &str, typ: &str, issuer: &str) -> ActionView {
    ActionView {
        action_id: id.to_string(),
        typ: typ.to_string(),
        sub_typ: None,
        parent_id: None,
        root_id: None,
        issuer: profile(issuer),
        audience: None,
        content: None,
        subject: None,
        created_at: Timestamp(100),
        expires_at: None,
        status: Some("A".to_string()),
        visibility: None,
        flags: None,
        x: None,
    }
}

fn ctx(typ: &str, subtype: Option<&str>, issuer: &str, tenant: &str) -> HookContext {
    HookContext::builder()
        .action_type(typ.to_string())
        .subtype(subtype.map(str::to_string))
        .issuer(issuer.to_string())
        .tenant(1, tenant.to_string(), "person".to_string())
        .build()
}

/// The counters of comments and reposts that a plan writes to the action referred to.
fn written(p: &HookPlan, to: Referred) -> Option<(&Patch<u32>, &Patch<u32>)> {
    p.steps.iter().find_map(|s| match &s.effect {
        Effect::UpdateCounters(t, u) if *t == to => Some((&u.comments, &u.reposts)),
        _ => None,
    })
}

fn effects(p: &HookPlan) -> Vec<&Effect> {
    p.steps.iter().map(|s| &s.effect).collect()
}

fn invalid<T>(r: Result<T, Error>) -> Option<String> {
    match r {
        Err(Error::ValidationError(m)) => Some(m),
        _ => None,
    }
}

// The engine

fn schema(content_type: ContentType) -> ContentSchema {
    ContentSchema {
        content_type,
        min_length: None,
        max_length: None,
        pattern: None,
        allowed: None,
        properties: None,
        required: None,
        description: None,
    }
}

#[test]
fn texts_are_held_against_their_schema() {
    let mut s = schema(ContentType::Text);
    s.min_length = Some(2);
    s.max_length = Some(4);
    s.pattern = Some("^[a-z]+$".to_string());
    let check = |v: &Json, s: &ContentSchema| invalid(validate_value_against_schema(v, s, "content"));
    assert_eq!(check(&text("abc"), &s), None);
    assert_eq!(check(&text("a"), &s).as_deref(), Some("content: string too short (min 2)"));
    assert_eq!(check(&text("abcde"), &s).as_deref(), Some("content: string too long (max 4)"));
    // Length counts bytes.
    assert_eq!(
        check(&text("\u{e9}\u{e9}\u{e9}"), &s).as_deref(),
        Some("content: string too long (max 4)")
    );
    assert_eq!(
        check(&text("ab1"), &s).as_deref(),
        Some("content: string does not match pattern")
    );
    assert_eq!(check(&Json::Null, &s).as_deref(), Some("content: expected string"));
    s.pattern = Some("(".to_string());
    assert!(check(&text("abc"), &s).unwrap().starts_with("content: invalid pattern: "));
    s.pattern = None;
    s.allowed = Some(vec![text("abc")]);
    assert_eq!(check(&text("abc"), &s), None);
    assert_eq!(check(&text("abd"), &s).as_deref(), Some("content: value not in allowed enum"));
    let mut p = schema(ContentType::Text);
    p.pattern = Some("x".to_string());
    assert!(validate_text("y", &p, Ok(true), "c").is_ok());
    assert!(validate_text("y", &p, Ok(false), "c").is_err());
    assert_eq!(
        invalid(validate_text("y", &p, Err("bad".to_string()), "c")).as_deref(),
        Some("c: invalid pattern: bad")
    );
}

#[test]
fn objects_are_held_against_their_schema() {
    let field = |t: FieldType| SchemaField {
        field_type: t,
        min_length: None,
        max_length: None,
        allowed: None,
        items: None,
    };
    let mut list = field(FieldType::Array);
    list.items = Some(Box::new(field(FieldType::Number)));
    let mut kind = field(FieldType::Text);
    kind.allowed = Some(vec![text("a")]);
    let mut s = schema(ContentType::Object);
    s.required = Some(vec!["kind".to_string()]);
    s.properties = Some(vec![
        ("kind".to_string(), kind),
        ("list".to_string(), list),
        ("flag".to_string(), field(FieldType::Boolean)),
    ]);
    let check = |v: Json| invalid(validate_value_against_schema(&v, &s, "content"));
    assert_eq!(
        check(object(&[])).as_deref(),
        Some("content: missing required property 'kind'")
    );
    assert_eq!(check(object(&[("kind", text("a")), ("other", Json::Null)])), None);
    assert_eq!(
        check(object(&[("kind", text("b"))])).as_deref(),
        Some("content.kind: value 'b' not in allowed enum")
    );
    let items = Json::Array(vec![Json::Unsigned(1), text("x")]);
    assert_eq!(
        check(object(&[("kind", text("a")), ("list", items)])).as_deref(),
        Some("content.list[1]: expected number")
    );
    assert_eq!(
        check(object(&[("kind", text("a")), ("list", Json::Null)])).as_deref(),
        Some("content.list: expected array")
    );
    assert_eq!(
        check(object(&[("kind", text("a")), ("flag", Json::Null)])).as_deref(),
        Some("content.flag: expected boolean")
    );
    assert_eq!(check(Json::Null).as_deref(), Some("content: expected object"));
    let mut n = schema(ContentType::Number);
    n.allowed = Some(vec![Json::Negative(-1)]);
    assert!(validate_value_against_schema(&Json::Negative(-1), &n, "c").is_ok());
    assert!(validate_value_against_schema(&Json::Unsigned(1), &n, "c").is_err());
    assert!(validate_value_against_schema(&Json::Bool(true), &schema(ContentType::Boolean), "c").is_ok());
    assert!(validate_value_against_schema(&Json::Null, &schema(ContentType::Json), "c").is_ok());
}

#[test]
fn definitions_are_looked_up() {
    let e = engine();
    let n = get_definitions().len();
    assert_eq!(e.stats().total_definitions, n);
    assert_eq!(e.list_action_types().len(), n);
    assert!(e.has_definition("POST"));
    assert!(!e.has_definition("NONE"));
    assert_eq!(e.get_definition("POST").unwrap().typ, "POST");
    assert_eq!(e.resolve_action_type("POST", Some("TEXT")).as_deref(), Some("POST"));
    assert_eq!(e.resolve_action_type("NONE", None), None);
    assert!(e.get_key_pattern("REACT").is_some());
    assert!(e.get_behavior("CONV").is_some());
    assert!(e.get_field_constraints("CMNT").is_some());
    assert_eq!(
        invalid(e.validate_content("NONE", None)).as_deref(),
        Some("Unknown action type: NONE")
    );
    let mut strict = DslEngine::new();
    let mut all = get_definitions();
    let problem =
        vec![DefinitionProblem { path: "type".to_string(), message: "wrong".to_string() }];
    assert!(strict.load_checked_definition(all.remove(0), &problem).is_err());
    assert!(strict.load_checked_definition(all.remove(0), &Vec::new()).is_ok());
    assert_eq!(strict.stats().total_definitions, 1);
}

#[test]
fn hooks_run_step_by_step() {
    let native = HookFunction(7);
    // Operations first, then the native function.
    let hybrid = HookImplementation::Hybrid { dsl: vec![Json::Null, Json::Null], native };
    let run = begin_run(&hybrid, Some(native));
    assert!(matches!(run.phase, HookPhase::Operation(0)));
    let run = advance(run, HookEvent::OperationDone);
    assert!(matches!(run.phase, HookPhase::Operation(1)));
    let run = advance(run, HookEvent::OperationReturned);
    assert!(matches!(run.phase, HookPhase::Native(f) if f == native));
    let mut result = HookResult::default();
    result.continue_processing = false;
    let run = advance(run, HookEvent::NativeDone(result));
    assert!(!run_result(run, StrMap::new()).unwrap().continue_processing);

    let run = begin_run(&HookImplementation::Dsl(vec![Json::Null]), Some(native));
    let run = advance(run, HookEvent::OperationDone);
    let mut vars = StrMap::new();
    vars.insert("x".to_string(), Json::Unsigned(1));
    let done = run_result(run, vars).unwrap();
    assert!(done.continue_processing);
    assert!(done.vars.contains_key("x"));

    let run = begin_run(&HookImplementation::Dsl(vec![Json::Null]), None);
    let run = advance(run, HookEvent::TimedOut);
    assert!(matches!(run_result(run, StrMap::new()), Err(Error::Timeout)));
    let run = begin_run(&HookImplementation::Native(native), Some(native));
    let run = advance(run, HookEvent::NativeFailed(Error::DbError));
    assert!(matches!(run_result(run, StrMap::new()), Err(Error::DbError)));
    // Nothing to do.
    let run = begin_run(&HookImplementation::Absent, None);
    assert!(run_result(run, StrMap::new()).unwrap().continue_processing);

    let marker = "__return__";
    assert!(matches!(operation_event(Ok(()), marker), HookEvent::OperationDone));
    assert!(matches!(
        operation_event(Err(Error::ValidationError(marker.to_string())), marker),
        HookEvent::OperationReturned
    ));
    assert!(matches!(
        operation_event(Err(Error::NotFound), marker),
        HookEvent::OperationFailed(Error::NotFound)
    ));

    let mut registry = HookRegistry::new();
    register_native_hooks(&mut registry);
    assert!(registry.has_hook("CONN", HookType::OnReject));
    assert!(!registry.has_hook("POST", HookType::OnReject));
    let e = engine();
    assert!(e.execute_hook(&registry, "CONN", HookType::OnCreate).unwrap().native.is_some());
    assert_eq!(
        invalid(e.execute_hook(&registry, "NONE", HookType::OnCreate)).as_deref(),
        Some("Action definition not found: NONE")
    );
    assert!(!registry.has_hook("STAT", HookType::OnReceive));
    register_bookkeeping_hooks(&mut registry);
    let hook = |name: &str, t| registry.get_hook(name, t).map(|f| f.0);
    assert_eq!(hook("STAT", HookType::OnReceive), Some(STAT_ON_RECEIVE));
    assert_eq!(hook("FSHR", HookType::OnCreate), Some(FSHR_ON_CREATE));
    assert_eq!(hook("FSHR", HookType::OnReceive), Some(FSHR_ON_RECEIVE));
    assert!(registry.has_hook("CONN", HookType::OnReject));
}

// Failures of key fetches

#[test]
fn failures_are_remembered_for_a_while() {
    let t = Timestamp(1000);
    let e = FailureEntry::new_at(FailureType::NetworkError, t);
    assert!(!e.is_expired_at(Timestamp(1299)));
    assert!(e.is_expired_at(Timestamp(1300)));
    assert_eq!(e.seconds_until_retry_at(Timestamp(1000)), 300);
    assert_eq!(e.seconds_until_retry_at(Timestamp(9999)), 0);

    let mut cache = KeyFetchCache::new(2);
    cache.record_failure_at("a", "k", &Error::NotFound, t);
    assert!(cache.check_failure_at("a", "k", Timestamp(4599)).is_some());
    // An expired entry is dropped when it is asked for.
    assert!(cache.check_failure_at("a", "k", Timestamp(4600)).is_none());
    assert!(cache.is_empty());
    cache.record_failure_at("a", "k", &Error::NotFound, t);
    cache.record_failure_at("b", "k", &Error::NotFound, t);
    // Asking for an entry makes it the most recent one.
    assert!(cache.check_failure_at("a", "k", t).is_some());
    cache.record_failure_at("c", "k", &Error::NotFound, t);
    assert!(cache.check_failure_at("a", "k", t).is_some());
    assert!(cache.check_failure_at("b", "k", t).is_none());
    cache.clear();
    assert_eq!(cache.len(), 0);
}

// Creating actions

fn facts<'a>() -> CreateFacts<'a> {
    CreateFacts {
        has_relationship: true,
        target: None,
        subscribed: false,
        root_subscribed: false,
        parent: None,
        subject_action: None,
        default_visibility: Some("F"),
    }
}

fn create(typ: &str) -> CreateAction {
    CreateAction { typ: typ.to_string(), ..Default::default() }
}

#[test]
fn new_actions_are_admitted() {
    let e = gated_engine();
    let mut a = create("MSG");
    a.audience_tag = Some("bob".to_string());
    let mut f = facts();
    assert!(validate_new_action(&e, "us", &a, &f).is_ok());
    f.has_relationship = false;
    assert_eq!(
        invalid(validate_new_action(&e, "us", &a, &f)).as_deref(),
        Some("Cannot send MSG to unknown recipient bob")
    );
    a.audience_tag = Some("us".to_string());
    assert!(validate_new_action(&e, "us", &a, &f).is_ok());

    let mut a = create("MSG");
    a.parent_id = Some("a1~conv".to_string());
    let conv = view("a1~conv", "CONV", "owner");
    let mut f = facts();
    f.target = Some(&conv);
    assert_eq!(
        invalid(validate_new_action(&e, "us", &a, &f)).as_deref(),
        Some("Cannot send MSG without subscription to a1~conv")
    );
    assert!(validate_new_action(&e, "owner", &a, &f).is_ok());
    f.subscribed = true;
    assert!(validate_new_action(&e, "us", &a, &f).is_ok());

    let mut closed = view("a1~post", "POST", "owner");
    closed.flags = Some("rc".to_string());
    let mut a = create("CMNT");
    a.parent_id = Some("a1~post".to_string());
    let mut f = facts();
    f.parent = Some(&closed);
    assert_eq!(
        invalid(validate_new_action(&e, "us", &a, &f)).as_deref(),
        Some("CMNT is disabled on the parent action")
    );
    let mut a = create("REACT");
    a.subject = Some("a1~post".to_string());
    let mut f = facts();
    f.subject_action = Some(&closed);
    assert_eq!(
        invalid(validate_new_action(&e, "us", &a, &f)).as_deref(),
        Some("REACT is disabled on the subject action")
    );
}

#[test]
fn new_actions_take_their_place() {
    let e = engine();
    let mut parent = view("a1~p", "POST", "owner");
    parent.visibility = Some('C');
    parent.root_id = Some("a1~root".to_string());
    parent.audience = Some(profile("club"));
    let mut a = create("CMNT");
    a.parent_id = Some("a1~p".to_string());
    a.content = Some(text("hi"));
    a.attachments = Some(vec!["f1~x".to_string(), "@7".to_string()]);
    let mut f = facts();
    f.parent = Some(&parent);
    match create_action(&e, TnId(3), "us", &a, &f).unwrap() {
        Creation::Pending(p) => {
            assert_eq!(p.visibility, Some('C'));
            assert_eq!(p.root_id.as_deref(), Some("a1~root"));
            assert_eq!(p.content.as_deref(), Some("\"hi\""));
            assert_eq!(p.attachments_to_wait, vec!["3,7".to_string()]);
            assert_eq!(p.subject_to_wait, None);
        },
        Creation::Ephemeral => panic!("not ephemeral"),
    }
    assert!(matches!(
        create_action(&e, TnId(3), "us", &create("PRES"), &facts()),
        Ok(Creation::Ephemeral)
    ));
    assert_eq!(effective_audience(&a, Some(&parent)).as_deref(), Some("club"));
    assert_eq!(resolve_parent_audience(Some(&parent)).as_deref(), Some("club"));
    assert_eq!(resolve_root_id(Some("a1~p"), Some(&parent)).as_deref(), Some("a1~root"));
    assert_eq!(inherit_visibility(None, Some(&parent), None, None), Some('C'));
    assert_eq!(inherit_visibility(Some('P'), Some(&parent), None, None), Some('P'));
    assert_eq!(resolve_visibility(&create("POST"), &facts()), Some('F'));
    let mut open = create("CONV");
    open.flags = Some("O".to_string());
    open.visibility = Some('S');
    assert_eq!(resolve_visibility(&open, &facts()), Some('S'));
    assert_eq!(attachments_to_wait(TnId(1), &vec!["@2".to_string()]), vec!["1,2".to_string()]);
    assert_eq!(subject_to_wait(TnId(1), Some("@2")).as_deref(), Some("1,2"));
    assert_eq!(subject_to_wait(TnId(1), Some("a1~x")), None);
    assert_eq!(determine_recipients("us", Some("bob")), vec!["bob".to_string()]);
    assert!(determine_recipients("us", Some("us")).is_empty());
    assert_eq!(token_flags(&e, &create("CONV")).as_deref(), Some("rco"));
    assert_eq!(token_flags(&e, &open).as_deref(), Some("O"));
    assert_eq!(token_flags(&e, &create("POST")), None);
    assert!(retries_with_new_key(&Error::DbError));
    assert!(!retries_with_new_key(&Error::NotFound));
    let mut react = create("REACT");
    react.subject = Some("a1~x".to_string());
    // A key is made anew only where the subject was a reference.
    assert_eq!(resolved_key(&e, "us", &react, None, Some("a1~x")), None);
    react.subject = Some("@7".to_string());
    assert!(resolved_key(&e, "us", &react, None, Some("a1~x")).unwrap().contains("us"));
}

#[test]
fn references_are_resolved() {
    assert_eq!(placeholder(42), "@42");
    assert!(matches!(attachment_reference("@42"), Ok(Reference::Pending(42))));
    assert!(matches!(attachment_reference("f1~x"), Ok(Reference::Known(s)) if s == "f1~x"));
    assert!(matches!(attachment_reference("@x"), Err(Error::Parse)));
    assert!(matches!(resolve_subject("@42"), Ok(Reference::Pending(42))));
    assert!(matches!(resolve_subject("@club.org"), Ok(Reference::Known(s)) if s == "@club.org"));
    assert!(matches!(resolve_subject("@"), Err(Error::Parse)));
}

#[test]
fn tasks_survive_their_storage() {
    let t = ActionDeliveryTask::new_with_related(
        TnId(5),
        "a1~x".into(),
        "peer.org".into(),
        "bob.peer.org".into(),
        Some("a1~y".into()),
    );
    assert_eq!(t.kind_of(), "action.delivery");
    let back = ActionDeliveryTask::build(&t.serialize()).unwrap();
    assert_eq!(back.tn_id, TnId(5));
    assert_eq!(back.target_id_tag, "bob.peer.org");
    assert_eq!(back.related_action_id.as_deref(), Some("a1~y"));
    let plain = ActionDeliveryTask::new(TnId(5), "a".into(), "b".into(), "c".into());
    assert_eq!(
        plain.serialize(),
        "{\"action_id\":\"a\",\"target_id_tag\":\"c\",\"target_instance\":\"b\",\"tn_id\":5}"
    );
    assert!(ActionDeliveryTask::build(&plain.serialize()).unwrap().related_action_id.is_none());
    assert!(matches!(ActionDeliveryTask::build("{}"), Err(Error::Parse)));
    // The fields may stand in their order without their names.
    let bare = ActionDeliveryTask::build("[5,\"a\",\"b\",\"c\"]").unwrap();
    assert_eq!((bare.tn_id, bare.target_id_tag.as_str()), (TnId(5), "c"));
    assert!(bare.related_action_id.is_none());
    assert!(ActionDeliveryTask::build("[5,\"a\",\"b\",\"c\",null,1]").is_err());
    assert!(ActionDeliveryTask::build("[5,\"a\",\"b\"]").is_err());
    assert_eq!(HistoryFetchTask::build("[2,\"p\"]").unwrap().peer_id_tag, "p");
    // A field that is named twice is an error; another name is not looked at.
    let doubled = "{\"tn_id\":1,\"peer_id_tag\":\"x\",\"peer_id_tag\":\"y\"}";
    assert!(HistoryFetchTask::build(doubled).is_err());
    let other = "{\"tn_id\":1,\"peer_id_tag\":\"x\",\"z\":1,\"z\":2}";
    assert_eq!(HistoryFetchTask::build(other).unwrap().peer_id_tag, "x");
    assert!(matches!(ActionDeliveryTask::build("nonsense"), Err(Error::Parse)));
    assert_eq!(t.duplicate().action_id, "a1~x");

    let h = HistoryFetchTask::new(TnId(2), "peer.org".into());
    assert_eq!(h.kind_of(), "action.history_sync");
    assert_eq!(h.key(), "history_sync:2:peer.org");
    let back = HistoryFetchTask::build(&h.serialize()).unwrap();
    assert_eq!(back.peer_id_tag, "peer.org");
    assert!(HistoryFetchTask::build("{\"tn_id\":-1,\"peer_id_tag\":\"x\"}").is_err());
    assert_eq!(
        h.outbox_path(None, None, 10_000_000).as_deref(),
        Some("/outbox?since=7408000&limit=10")
    );
    assert_eq!(h.outbox_path(None, Some(-3), 0), None);
    assert!(HistoryFetchTask::gives_up(&Error::PermissionDenied));
    assert!(!HistoryFetchTask::gives_up(&Error::Timeout));

    let v = ActionVerifierTask::new(TnId(9), "tok".into(), Some("1.2.3.4".into()));
    assert_eq!(v.serialize(), "9,tok,1.2.3.4");
    let back = ActionVerifierTask::build("9,tok,1.2.3.4").unwrap();
    assert_eq!(back.client_address.as_deref(), Some("1.2.3.4"));
    assert!(matches!(ActionVerifierTask::build("9"), Err(Error::Internal(_))));
    assert!(matches!(ActionVerifierTask::build("x,tok"), Err(Error::Parse)));
    let c = ActionCreatorTask::new(TnId(3), "us".into(), 8, create("POST"));
    assert_eq!(c.key(), "3,8");
}

#[test]
fn history_is_taken_in_with_what_it_depends_on() {
    let items = vec![
        OutboxItem { token: "p1".into(), related: vec!["r1".into(), "r2".into()] },
        OutboxItem { token: "p2".into(), related: vec![] },
    ];
    let steps: Vec<String> = ingest_steps(&items)
        .iter()
        .map(|s| match s {
            IngestStep::PreStore { token, primary } => format!("{token}>{primary}"),
            IngestStep::Process { token } => token.clone(),
        })
        .collect();
    assert_eq!(steps, vec!["r1>p1", "r2>p1", "p1", "p2"]);
}

// Delivery

#[test]
fn deliveries_are_prepared() {
    let t = ActionDeliveryTask::new_with_related(
        TnId(5),
        "a1~x".into(),
        "peer.org".into(),
        "bob".into(),
        Some("a1~y".into()),
    );
    assert!(matches!(t.prepare(false, None, None), Ok(None)));
    assert!(matches!(t.prepare(true, None, None), Err(Error::Internal(_))));
    let p = t.prepare(true, Some("tok"), Some("rel")).unwrap().unwrap();
    assert_eq!(p.get_text("token"), Some("tok"));
    assert_eq!(p.get("related"), Some(&Json::Array(vec![text("rel")])));
    assert_eq!(inbox_payload("tok", None), object(&[("token", text("tok"))]));
}

#[test]
fn subscribers_get_what_belongs_to_their_container() {
    let e = gated_engine();
    assert!(is_subscribable(&e, "CONV"));
    assert!(!is_subscribable(&e, "CMNT"));
    let conv = view("a1~conv", "CONV", "owner");
    assert!(matches!(walk_step(&e, Some(&conv)), WalkStep::Found));
    let mut m = view("a1~msg", "MSG", "bob");
    m.parent_id = Some("a1~conv".to_string());
    assert!(matches!(walk_step(&e, Some(&m)), WalkStep::Next(id) if id == "a1~conv"));
    assert!(matches!(walk_step(&e, None), WalkStep::End));
    let subs = vec![
        view("s1", "SUBS", "bob"),
        view("s2", "SUBS", "owner"),
        view("s3", "SUBS", "carol"),
    ];
    assert_eq!(fanout_recipients(&conv, &subs, "owner", "bob"), vec!["carol".to_string()]);
    assert!(fanout_recipients(&conv, &subs, "other", "bob").is_empty());
    let sent = FanOut {
        action_id: "a1~invt",
        typ: Some("INVT"),
        subject: Some("a1~msg"),
        issuer_tag: "bob",
    };
    let tasks = schedule_subscriber_fanout(&e, TnId(4), &sent, Some(&conv), &subs, "owner");
    assert_eq!(tasks.len(), 1);
    assert_eq!(tasks[0].key, "fanout:a1~invt:carol");
    assert_eq!(tasks[0].task.tn_id, TnId(4));
    assert_eq!(tasks[0].task.action_id, "a1~invt");
    assert_eq!(tasks[0].task.target_instance, "carol");
    assert_eq!(tasks[0].task.target_id_tag, "carol");
    assert_eq!(tasks[0].task.related_action_id.as_deref(), Some("a1~msg"));
    let unknown = FanOut { typ: None, ..sent };
    let tasks = schedule_subscriber_fanout(&e, TnId(4), &unknown, Some(&conv), &subs, "owner");
    assert_eq!(tasks[0].task.related_action_id, None);
    assert!(schedule_subscriber_fanout(&e, TnId(4), &unknown, Some(&conv), &subs, "x").is_empty());
    assert!(schedule_subscriber_fanout(&e, TnId(4), &unknown, None, &subs, "owner").is_empty());
    assert_eq!(related_action_id(Some("a1~x"), true).as_deref(), Some("a1~x"));
    assert_eq!(related_action_id(Some("@club"), true), None);
    assert_eq!(related_action_id(Some("a1~x"), false), None);

    let child = |typ: &'static str, issuer: &'static str| RelayCandidate {
        typ,
        sub_typ: None,
        issuer_tag: issuer,
        parent_id: Some("a1~conv"),
        subject: None,
    };
    let relay = |c: &RelayCandidate, us: &str| maybe_relay_child_to_subscribers(&e, c, Some(&conv), us);
    assert_eq!(relay(&child("MSG", "bob"), "owner"), Relay::Vouch);
    assert_eq!(relay(&child("SUBS", "bob"), "owner"), Relay::VouchAndBackfill);
    assert_eq!(relay(&child("MSG", "owner"), "owner"), Relay::No);
    assert_eq!(relay(&child("MSG", "bob"), "carol"), Relay::No);
    let vouch = relay_approval("a1~msg", "a1~conv");
    assert_eq!(vouch.typ, "APRV");
    assert_eq!(vouch.subject.as_deref(), Some("a1~msg"));
    assert_eq!(vouch.parent_id.as_deref(), Some("a1~conv"));
    assert_eq!(vouch.visibility, Some('F'));
    assert_eq!(vouch.audience_tag, None);
    // The joiner knows their own subscription, and nobody has vouched for dave yet.
    let members = vec![
        view("s1", "SUBS", "bob"),
        view("s2", "SUBS", "owner"),
        view("s3", "SUBS", "carol"),
        view("s4", "SUBS", "dave"),
    ];
    let vouchers = vec![None, None, Some("v3".to_string()), None];
    let roster = backfill_roster_to_joiner(TnId(4), "owner", "bob", &members, &vouchers);
    let told: Vec<(&str, &str, Option<&str>)> = roster
        .iter()
        .map(|d| {
            let t = &d.task;
            (d.key.as_str(), t.action_id.as_str(), t.related_action_id.as_deref())
        })
        .collect();
    assert_eq!(
        told,
        vec![("backfill:bob:s2", "s2", None), ("backfill:bob:s3", "v3", Some("s3"))]
    );
    assert!(roster.iter().all(|d| d.task.target_id_tag == "bob"));
}

#[test]
fn readers_see_what_they_may() {
    let e = engine();
    let mut m = view("m", "MSG", "bob");
    m.root_id = Some("a1~conv".to_string());
    m.visibility = Some('S');
    let kept = filter_actions_by_visibility(
        vec![view("a", "POST", "x"), view("b", "POST", "x"), view("c", "POST", "x")],
        &vec![true, false, true],
    );
    let ids: Vec<&str> = kept.iter().map(|a| a.action_id.as_str()).collect();
    assert_eq!(ids, vec!["a", "c"]);
    assert!(subject_has_peer_relation_to_tenant("us", "us", false));
    assert!(subject_has_peer_relation_to_tenant("bob", "us", true));
    assert!(!subject_has_peer_relation_to_tenant("bob", "us", false));
    let mut subscribers = StrMap::new();
    subscribers.insert("a1~conv".to_string(), vec!["carol".to_string()]);
    assert!(view_audience(&m, &subscribers, "carol").contains(&"carol".to_string()));
    assert!(!view_audience(&m, &subscribers, "dave").contains(&"dave".to_string()));
    let carol = Reader { id_tag: "carol".into(), is_authenticated: true, relation: None };
    let q = view_question(&m, &carol, "us", &subscribers);
    assert_eq!((q.subject_id_tag.as_str(), q.item_owner_id_tag.as_str()), ("carol", "bob"));
    assert_eq!((q.tenant_id_tag.as_str(), q.visibility), ("us", Some('S')));
    assert!(q.is_authenticated && !q.subject_is_follower && !q.subject_connected_to_owner);
    assert_eq!(q.audience_tags, Some(vec!["carol".to_string()]));
    let _ = container_ids(&e, &vec![m]);
}

#[test]
fn a_follower_only_action_admits_our_follower_not_someone_we_follow() {
    let mut action = view("a", "POST", "bob.example");
    action.visibility = Some('F');
    let asked = |rel: ProfileRelation| {
        let reader = Reader {
            id_tag: "carol.example".into(),
            is_authenticated: true,
            relation: Some(rel),
        };
        view_question(&action, &reader, "alice.example", &StrMap::new())
    };
    let we_follow_them = ProfileRelation { following: true, follower: false, connected: false };
    let they_follow_us = ProfileRelation { following: false, follower: true, connected: false };
    assert!(
        !asked(we_follow_them).subject_is_follower,
        "our own follow confers nothing on a reader"
    );
    assert!(asked(they_follow_us).subject_is_follower);
}

#[test]
fn stored_actions_go_on() {
    let outbound = ProcessingContext::Outbound { temp_id: Some("t".into()) };
    let inbound = ProcessingContext::Inbound { client_address: Some("1.2.3.4".into()), is_sync: false };
    let sync = ProcessingContext::Inbound { client_address: None, is_sync: true };
    assert_eq!(outbound.temp_id(), Some("t"));
    assert_eq!(inbound.client_address(), Some("1.2.3.4"));
    assert_eq!(process_after_store(&outbound).len(), 4);
    assert_eq!(process_after_store(&inbound).last(), Some(&AfterStore::AutoApprove));
    assert_eq!(process_after_store(&sync).len(), 4);

    let stored = |typ: &str, issuer: &str| StoredAction {
        action_id: "a1~x".into(),
        typ: typ.into(),
        sub_typ: None,
        issuer_tag: issuer.into(),
        parent_id: None,
        root_id: None,
        audience_tag: None,
        content: Some("{\"a\":1}".into()),
        attachments: None,
        subject: None,
        created_at: Timestamp(7),
        expires_at: None,
        visibility: None,
        flags: None,
        x: None,
    };
    let tenant = HookTenant { tenant_id: 1, tenant_tag: "us" };
    let (kind, c) = hook_context(&stored("POST:TEXT", "us"), &outbound, &tenant);
    assert_eq!(kind, HookType::OnCreate);
    assert_eq!(c.typ, "POST");
    assert_eq!(c.subtype.as_deref(), Some("TEXT"));
    assert_eq!(c.content, Some(object(&[("a", Json::Unsigned(1))])));
    assert_eq!(c.tenant_tag, "us");
    assert_eq!(c.tenant_type, "person");
    assert!(c.is_outbound);
    let (kind, _) = hook_context(&stored("POST", "bob"), &inbound, &tenant);
    assert_eq!(kind, HookType::OnReceive);
    let mut result = HookResult::default();
    result.return_value = Some(text("v"));
    assert_eq!(hook_outcome(&sync, Ok(result)).unwrap().hook_result, Some(text("v")));
    assert!(matches!(hook_outcome(&sync, Err(Error::DbError)), Err(Error::DbError)));
    assert!(hook_outcome(&inbound, Err(Error::DbError)).unwrap().hook_result.is_none());

    let e = engine();
    assert!(matches!(
        schedule_delivery(&e, &stored("POST", "us"), None, &outbound),
        DeliveryPlan::Broadcast { .. }
    ));
    let mut yes = stored("APRV", "us");
    yes.subject = Some("a1~p".into());
    yes.audience_tag = Some("bob".into());
    match schedule_delivery(&e, &yes, Some(&view("a1~p", "POST", "bob")), &outbound) {
        DeliveryPlan::Broadcast { related, author } => {
            assert_eq!((related.as_deref(), author), (Some("a1~p"), None));
        },
        other => panic!("{other:?}"),
    }
    let mut direct = stored("MSG", "us");
    direct.audience_tag = Some("bob".into());
    match schedule_delivery(&e, &direct, None, &outbound) {
        DeliveryPlan::Direct { recipients, .. } => assert_eq!(recipients, vec!["bob".to_string()]),
        other => panic!("{other:?}"),
    }
    assert!(matches!(
        schedule_delivery(&e, &stored("POST", "bob"), None, &inbound),
        DeliveryPlan::Nowhere
    ));
    let to = vec!["bob".to_string(), "carol".to_string()];
    let tasks = schedule_deliveries("delivery:", TnId(1), "a1~x", &to, Some("a1~y"));
    assert_eq!(tasks.len(), 2);
    assert_eq!(tasks[1].key, "delivery:a1~x:carol");
    assert_eq!(tasks[1].task.related_action_id.as_deref(), Some("a1~y"));
    let retry = delivery_retry();
    assert_eq!((retry.shortest_wait_secs, retry.longest_wait_secs, retry.attempts), (10, 43200, 50));
    let followers = vec![view("f1", "FLLW", "bob"), view("f2", "FLLW", "us")];
    assert_eq!(broadcast_recipients(&followers, "us", None), vec!["bob".to_string()]);
    assert_eq!(
        broadcast_recipient_tags(&vec!["a".to_string(), "b".to_string()], "a"),
        vec!["b".to_string()]
    );
    let mut post = stored("POST", "bob");
    post.audience_tag = Some("us".into());
    assert!(try_auto_approve(&e, &post, "us", true, true));
    assert!(!try_auto_approve(&e, &post, "us", false, true));
    assert!(!try_auto_approve(&e, &post, "us", true, false));
}

#[test]
fn forwarding_reports_what_happened() {
    let r = forward_action(Some("bob"), DeliveryResult::Delivered(2));
    assert!(r.delivered && r.connection_count == 2 && !r.user_offline);
    assert!(forward_action(Some("bob"), DeliveryResult::UserOffline).user_offline);
    assert!(!forward_action(None, DeliveryResult::Delivered(2)).delivered);
    assert!(forward_inbound_action(0).user_offline);
    assert_eq!(forward_outbound_action(Some("bob"), DeliveryResult::Delivered(1)).connection_count, 1);
    let message = build_action_message(&ForwardActionParams {
        action_id: "a1~x",
        temp_id: Some("t"),
        issuer_tag: "bob",
        audience_tag: None,
        action_type: "POST",
        sub_type: None,
        parent_id: None,
        content: None,
        attachments: None,
        subject: None,
        created_at: "7",
        status: None,
        visibility: None,
        flags: None,
        x: None,
    });
    assert_eq!(message.get_text("tempId"), Some("t"));
}

// Requests

#[test]
fn lists_are_paged() {
    assert_eq!(page_size(None), 20);
    assert_eq!(page_size(Some(5)), 5);
    let two = || vec![view("a", "POST", "x"), view("b", "POST", "x")];
    let page = list_actions(two(), 1, None);
    assert!(page.has_more);
    let c = page.cursor.unwrap();
    assert_eq!((c.sort_field.as_str(), c.id.as_str()), ("created", "a"));
    assert_eq!(c.sort_value, Json::Unsigned(100));
    assert_eq!(list_actions(two(), 1, Some("seen")).cursor.unwrap().sort_field, "seen");
    let page = list_actions(vec![view("a", "POST", "x")], 1, None);
    assert!(!page.has_more && page.cursor.is_none());
}

#[test]
fn requests_are_gated() {
    assert!(matches!(post_action(Some("apkg:publish"), "POST"), Err(Error::PermissionDenied)));
    assert!(post_action(Some("apkg:publish"), "APKG").is_ok());
    assert!(post_action(None, "POST").is_ok());
    let work = || Err("too easy".to_string());
    assert!(matches!(
        post_inbox(Some("CONN"), work()),
        Err(Error::PreconditionRequired(m)) if m == "Proof of work required: too easy"
    ));
    assert!(post_inbox(Some("POST"), work()).is_ok());
    assert!(post_inbox(None, work()).is_ok());
    let inbox = Inbox { token: "t".into(), related: Some(vec!["r1".into(), "r2".into()]) };
    let steps = inbox_steps(TnId(4), &inbox, "a1~t", "1.2.3.4");
    assert_eq!(steps.len(), 3);
    assert!(matches!(
        &steps[0],
        InboxStep::StoreRelated { token, waits_for } if token == "r1" && waits_for == "a1~t"
    ));
    assert!(matches!(&steps[1], InboxStep::StoreRelated { token, .. } if token == "r2"));
    assert!(matches!(&steps[2], InboxStep::Verify(v) if v.serialize() == "4,t,1.2.3.4"));
    let alone = Inbox { token: "t".into(), related: None };
    assert_eq!(inbox_steps(TnId(4), &alone, "a1~t", "1.2.3.4").len(), 1);

    let e = engine();
    let mut a = view("a1~x", "POST", "bob");
    a.audience = Some(profile("us"));
    let ok = post_action_accept(&e, Some(&a), "us", "us", false).unwrap();
    assert_eq!(ok.status, 'A');
    let yes = ok.approval.unwrap();
    assert_eq!(yes.typ, "APRV");
    assert_eq!(yes.subject, Some(a.action_id.clone()));
    assert_eq!(yes.audience_tag, Some(a.issuer.id_tag.clone()));
    assert_eq!(yes.visibility, Some('F'));
    assert!(post_action_reject(&e, Some(&a), "us", "us", false).unwrap().approval.is_none());
    let seen = answer_context(&a, Some(vec!["f1~x".to_string()]), 3, "us");
    assert_eq!(seen.action_id, a.action_id);
    assert_eq!(seen.created_at, "100");
    assert_eq!(seen.attachments, Some(vec!["f1~x".to_string()]));
    assert_eq!((seen.tenant_id, seen.tenant_tag.as_str()), (3, "us"));
    assert!(seen.is_inbound && !seen.is_outbound);
    assert_eq!(post_action_reject(&e, Some(&a), "us", "us", false).unwrap().status, 'D');
    assert!(matches!(
        post_action_accept(&e, Some(&a), "us", "stranger", false),
        Err(Error::PermissionDenied)
    ));
    assert!(matches!(post_action_reject(&e, None, "us", "us", true), Err(Error::NotFound)));
    a.status = Some("N".to_string());
    assert_eq!(post_action_dismiss(Some(&a)).unwrap(), Some('A'));
    a.status = Some("C".to_string());
    assert!(matches!(post_action_dismiss(Some(&a)), Err(Error::ValidationError(_))));
    a.status = Some("A".to_string());
    assert_eq!(post_action_dismiss(Some(&a)).unwrap(), None);
    assert!(matches!(post_action_dismiss(None), Err(Error::NotFound)));
}

#[test]
fn drafts_belong_to_their_author() {
    let mut d = view("@7", "POST", "us");
    d.status = Some("R".to_string());
    let change = || PatchActionRequest {
        content: Some(text("new")),
        attachments: Some(vec!["a".into(), "b".into()]),
        visibility: None,
        flags: None,
        x: None,
    };
    let u = patch_action("@7", Some(&d), "us", change()).unwrap();
    assert_eq!(u.content, Patch::Value("\"new\"".to_string()));
    assert_eq!(u.attachments, Patch::Value("a,b".to_string()));
    assert_eq!(u.visibility, Patch::Undefined);
    assert_eq!(
        invalid(patch_action("a1~x", Some(&d), "us", change())).as_deref(),
        Some("Only draft actions can be updated")
    );
    assert!(matches!(
        patch_action("@7", Some(&d), "bob", change()),
        Err(Error::PermissionDenied)
    ));
    assert!(matches!(patch_action("@7", None, "us", change()), Err(Error::NotFound)));
    let now = Timestamp(50);
    let files = || Some(vec!["f1~x".to_string()]);
    let p = publish_draft(TnId(3), "@7", Some(&d), files(), "us", None, now).unwrap();
    assert_eq!((p.a_id, p.status, p.created_at), (7, 'P', now));
    assert_eq!(p.task_key, "3,7");
    assert_eq!(p.action.typ, d.typ);
    assert_eq!(p.action.attachments, files());
    let p = publish_draft(TnId(3), "@7", Some(&d), files(), "us", Some(Timestamp(90)), now).unwrap();
    assert_eq!((p.status, p.created_at), ('S', Timestamp(90)));
    assert_eq!(p.task_key, "draft:3,7");
    assert_eq!(
        invalid(cancel_scheduled("@7", Some(&d), "us")).as_deref(),
        Some("Only scheduled drafts can be cancelled")
    );
    assert!(!still_scheduled(Some(&d)));
    d.status = Some("S".to_string());
    assert!(still_scheduled(Some(&d)));
    assert_eq!(cancel_scheduled("@7", Some(&d), "us").unwrap(), 'R');
}

// Native hooks

#[test]
fn connections_come_about() {
    let mut c = ctx("CONN", None, "bob", "us");
    c.audience = Some("us".into());
    let facts = |asked: bool, mode: Option<&str>, invited: bool| conn::ConnFacts {
        our_request: if asked { Some(None) } else { None },
        connection_mode: mode.map(str::to_string),
        has_pending_invitation: invited,
    };
    let connects = |p: &HookPlan| {
        p.steps.iter().any(|s| match &s.effect {
            Effect::UpsertProfile(Party::Issuer, u) => {
                u.connected == Patch::Value(ConnectionStatus::Connected)
            },
            _ => false,
        })
    };
    assert!(connects(&conn::on_receive(&c, &facts(true, None, false))));
    assert!(connects(&conn::on_receive(&c, &facts(false, Some("A"), false))));
    assert!(connects(&conn::on_receive(&c, &facts(false, Some("I"), true))));
    let refused = conn::on_receive(&c, &facts(false, Some("I"), false));
    assert!(!refused.continue_processing);
    assert_eq!(refused.status, Some('D'));
    assert_eq!(conn::on_receive(&c, &facts(false, None, false)).status, Some('C'));
    c.subtype = Some("ACC".into());
    assert!(connects(&conn::on_receive(&c, &facts(true, None, false))));
    assert_eq!(conn::on_receive(&c, &facts(false, None, false)).status, Some('D'));
    c.subtype = Some("DEL".into());
    assert_eq!(conn::on_receive(&c, &facts(false, None, false)).status, Some('N'));
    assert_eq!(conn::on_create(&c, false).steps.len(), 1);
    assert_eq!(conn::connection_key("a", "b"), "CONN:a:b");
    assert_eq!(conn::community_subject("club"), "@club");
    assert_eq!(
        effects(&conn::on_accept())[0],
        &Effect::Create(NewAction::ConnectionAcceptance, Party::Issuer)
    );
    assert_eq!(conn::on_reject().steps.len(), 1);
    assert_eq!(fllw::on_create(&ctx("FLLW", None, "us", "us")).steps.len(), 0);
    assert_eq!(
        effects(&fllw::on_receive(&ctx("FLLW", None, "bob", "us"), false)),
        vec![&Effect::SetStatus('D')]
    );
}

#[test]
fn subscriptions_are_admitted() {
    let mut c = ctx("SUBS", None, "bob", "owner");
    c.subject = Some("a1~conv".into());
    let closed = view("a1~conv", "CONV", "owner");
    let mut open = view("a1~conv", "CONV", "owner");
    open.flags = Some("O".into());
    let facts = |target, invited| subs::SubsFacts {
        target,
        invited,
        subscribed: false,
        subscription: None,
    };
    assert_eq!(subs::on_receive(&c, &facts(Some(&closed), false)).status, Some('D'));
    assert_eq!(subs::on_receive(&c, &facts(Some(&closed), true)).status, None);
    assert_eq!(subs::on_receive(&c, &facts(Some(&open), false)).status, None);
    assert!(!subs::on_receive(&c, &facts(None, false)).continue_processing);
    c.pre_approved = true;
    assert_eq!(subs::on_receive(&c, &facts(Some(&closed), false)).status, None);
    c.subtype = Some("UPD".into());
    assert!(!subs::on_receive(&c, &facts(Some(&open), true)).continue_processing);
    c.subtype = Some("DEL".into());
    assert!(subs::on_receive(&c, &facts(Some(&closed), false)).continue_processing);
    assert!(!subs::on_create(&c, false).continue_processing);
    assert_eq!(subs::invitation_key("s", "i"), "INVT:s:i");
    assert_eq!(subs::subscription_key("s", "i"), "SUBS:s:i");
    assert!(SubscriptionRole::named("Moderator").at_least(SubscriptionRole::Member));
}

#[test]
fn invitations_need_standing() {
    let mut c = ctx("INVT", None, "mod", "owner");
    c.subject = Some("a1~conv".into());
    c.audience = Some("bob".into());
    let conv = view("a1~conv", "CONV", "owner");
    let admin = object(&[("role", text("admin"))]);
    assert!(invt::on_create(&c, Some(&conv), Some(Some(&admin))).continue_processing);
    assert!(!invt::on_create(&c, Some(&conv), Some(None)).continue_processing);
    assert!(!invt::on_create(&c, Some(&conv), None).continue_processing);
    assert!(!invt::on_create(&c, None, None).continue_processing);
    let check = |sub, actor, moderator, original| {
        invt::check_community_authority(
            "club",
            ("INVT", sub),
            Some("@club"),
            actor,
            moderator,
            original,
        )
    };
    assert!(check(None, "club", false, None).is_ok());
    assert!(check(None, "bob", true, None).is_ok());
    assert!(matches!(check(None, "bob", false, None), Err(Error::PermissionDenied)));
    assert!(check(Some("DEL"), "bob", false, Some("bob")).is_ok());
    assert!(check(Some("XYZ"), "bob", true, None).is_err());
    assert_eq!(invt::community_id_tag_from_subject("@club"), Some("club"));
    assert_eq!(invt::community_id_tag_from_subject("a1~x"), None);
    c.tenant_tag = "bob".into();
    assert_eq!(invt::on_receive(&c, Some("bob"), Some("owner")).status, Some('C'));
    assert_eq!(
        effects(&invt::on_accept(&c, true)),
        vec![&Effect::Create(NewAction::Membership, Party::SubjectIssuer)]
    );
    assert_eq!(prinvt::on_receive().status, Some('C'));
}

#[test]
fn counters_have_one_writer() {
    let mut c = ctx("CMNT", None, "bob", "owner");
    c.parent = Some("a1~p".into());
    let parent = view("a1~p", "POST", "owner");
    let p = cmnt::on_receive(&c, Some(&parent), (3, 70));
    assert_eq!(written(&p, Referred::Parent), Some((&Patch::Value(3), &Patch::Undefined)));
    assert!(effects(&p).contains(&&Effect::EmitStat(Referred::Parent)));
    assert_eq!(find_referred(&c, Referred::Parent), Some("a1~p"));
    assert_eq!(find_referred(&c, Referred::Subject), None);
    c.tenant_tag = "bob".into();
    assert!(!cmnt::recounts(&c, Some(&parent)));
    let rows = vec![(None, 3), (Some("DEL".to_string()), 1)];
    assert_eq!(cmnt::count_live(&rows), 3);
    assert_eq!(cmnt::recompute_comment_stats(&rows, Some(Timestamp(9))), (3, 9));
    assert_eq!(stat_emit_task::count_reposts(&rows), 3);
    // What is no 32-bit number is held at the largest one.
    assert_eq!(cmnt::recompute_comment_stats(&vec![(None, -1)], None), (u32::MAX, 0));
    assert_eq!(stat_emit_task::count_reposts(&vec![(None, -1)]), -1);

    let group = |sub: &str, key, count| react::ReactionGroup {
        sub_type: Some(sub.to_string()),
        key,
        count,
    };
    let (counts, total) = react::count_reactions(&vec![
        group("LIKE", Some('L'), 2),
        group("DEL", None, 5),
        group("LOVE", Some('V'), 1),
    ]);
    assert_eq!(counts, vec![('L', 2), ('V', 1)]);
    assert_eq!(total, 3);

    let mut r = ctx("REPOST", None, "bob", "owner");
    r.subject = Some("a1~p".into());
    let p = repost::on_receive(&r, Some(&parent), 4);
    assert_eq!(written(&p, Referred::Subject), Some((&Patch::Undefined, &Patch::Value(4))));
    let mut m = ctx("MSG", None, "bob", "owner");
    m.parent = Some("a1~p".into());
    let conv = view("a1~p", "CONV", "owner");
    assert!(msg::recounts(&m, Some(&conv)));
    let mut x = ctx("REACT", Some("LIKE"), "bob", "owner");
    x.subject = Some("a1~p".into());
    assert!(react::recounts(&x, Some(&parent)));
    assert_eq!(
        effects(&react::on_receive(&x, Some(&parent), "1,L1".into())),
        vec![
            &Effect::UpdateReactions(Referred::Subject, "1,L1".into()),
            &Effect::EmitStat(Referred::Subject),
            &Effect::AutoTrackRoot(Referred::Subject),
        ]
    );
}

#[test]
fn statistics_are_mirrored_forward_only() {
    let mut c = ctx("STAT", None, "owner", "us");
    c.parent = Some("a1~p".into());
    c.created_at = "100".into();
    c.content = Some(stat_emit_task::stat_content("L2", 3, 90, 1));
    let parent = view("a1~p", "POST", "owner");
    let u = stat::mirror_update(&c, Some(&parent), Some(99)).unwrap();
    assert_eq!(u.comments, Some(3));
    assert_eq!(u.reactions.as_deref(), Some("L2"));
    assert_eq!(u.comments_ts, Patch::Value(Timestamp(90)));
    assert_eq!(u.reposts, Some(1));
    assert_eq!(u.stat_at, 100);
    c.content = Some(stat_emit_task::stat_content("", 0, 0, 0));
    let u = stat::mirror_update(&c, Some(&parent), None).unwrap();
    assert_eq!((u.reactions.as_deref(), u.comments, u.reposts), (Some(""), Some(0), Some(0)));
    assert_eq!(u.comments_ts, Patch::Null);
    c.content = Some(object(&[("x", Json::Null)]));
    assert!(stat::mirror_update(&c, Some(&parent), None).is_none());
    c.content = Some(stat_emit_task::stat_content("L2", 3, 90, 1));
    assert!(stat::mirror_update(&c, Some(&parent), Some(100)).is_none());
    let plan = stat::on_receive(&c, Some(&parent), None, "L2");
    assert!(plan.mirror.is_some() && plan.content.is_none());
    let plan = stat::on_receive(&c, Some(&parent), Some(100), "2,L2");
    assert!(plan.mirror.is_none());
    assert!(plan.content.unwrap().contains("\"r\":\"2,L2\""));
    let orphan = HookContext { parent: None, ..ctx("STAT", None, "owner", "us") };
    assert!(stat::on_receive(&orphan, Some(&parent), None, "").content.is_none());
    c.issuer = "mallory".into();
    assert!(stat::mirror_update(&c, Some(&parent), None).is_none());
    assert_eq!(stat::normalized_total(&vec![('L', 2), ('V', 3)], 4), 5);
    assert_eq!(stat::normalized_total(&vec![('L', 2)], 4), 4);
    let content = object(&[("r", text("x")), ("c", Json::Unsigned(1))]);
    let n = stat::normalized_content(&content, "y").unwrap();
    assert_eq!(n.get_text("r"), Some("y"));
    assert!(stat::normalized_content(&content, "x").is_none());
    assert_eq!(
        stat::normalized_content_text(&content, "y").as_deref(),
        Some("{\"c\":1,\"r\":\"y\"}")
    );
    let told = stat_emit_task::StatEmitTask {
        tn_id: TnId(1),
        subject_id: "a1~p".into(),
        tenant_tag: "us".into(),
        first_scheduled_at: 0,
    }
    .statistics("1,L1", 2, 7, 3);
    assert_eq!((told.typ.as_str(), told.parent_id.as_deref()), ("STAT", Some("a1~p")));
    assert_eq!(told.content, Some(stat_emit_task::stat_content("1,L1", 2, 7, 3)));
    assert!(stat_emit_task::counters_changed("a", 1, "a", 2));
    assert!(!stat_emit_task::counters_changed("a", 1, "a", 1));
    // A burst of requests waits, but never longer than the longest wait.
    assert_eq!(stat_emit::read_coalesce_window(None, Some(30)), (10, 30));
    assert_eq!(stat_emit::emit_schedule(None, 100, 10, 60), (100, 110));
    assert_eq!(stat_emit::emit_schedule(Some(100), 155, 10, 60), (100, 160));
    assert_eq!(stat_emit::emit_key(TnId(2), "s"), "stat.emit:2:s");
}

#[test]
fn shares_are_granted_and_ended() {
    let mut c = ctx("FSHR", Some("WRITE"), "us", "us");
    c.subject = Some("f1~x".into());
    c.audience = Some("bob".into());
    assert!(matches!(fshr::share_change(&c), fshr::ShareChange::Grant('W')));
    assert!(fshr::authorize_share_change(fshr::ShareChange::Grant('W'), true, true).is_ok());
    assert!(matches!(
        fshr::authorize_share_change(fshr::ShareChange::Grant('W'), true, false),
        Err(Error::PermissionDenied)
    ));
    assert!(fshr::authorize_share_change(fshr::ShareChange::Renounce, false, false).is_ok());
    let entry = |id, user: &str, permission| fshr::ShareEntry {
        id,
        subject_type: 'U',
        subject_id: user.to_string(),
        permission,
        expires_at: Some(Timestamp(9)),
    };
    let entries = vec![entry(1, "bob", 'R'), entry(2, "carol", 'W')];
    assert_eq!(fshr::shares_to_delete(&entries, "bob"), vec![1]);
    assert_eq!(fshr::share_to_write(&entries, "bob", 'W'), Some(Some(Timestamp(9))));
    assert_eq!(fshr::share_to_write(&entries, "bob", 'R'), None);
    assert_eq!(fshr::share_to_write(&entries, "dave", 'R'), Some(None));
    let may = |manages, within_ceiling| Ok(fshr::ShareAuthority { manages, within_ceiling });
    assert!(matches!(
        fshr::on_create(&c, may(true, true), &entries),
        Ok(fshr::ShareWork::Write { permission: 'W', expires_at: Some(Timestamp(9)) })
    ));
    assert!(matches!(
        fshr::on_create(&c, may(true, false), &entries),
        Err(Error::PermissionDenied)
    ));
    assert!(matches!(
        fshr::on_create(&c, may(false, true), &entries),
        Err(Error::PermissionDenied)
    ));
    assert!(matches!(
        fshr::on_create(&c, Err(Error::NotFound), &entries),
        Err(Error::NotFound)
    ));
    let mut end = ctx("FSHR", Some("DEL"), "us", "us");
    end.subject = Some("f1~x".into());
    end.audience = Some("bob".into());
    assert!(matches!(
        fshr::on_create(&end, may(true, false), &entries),
        Ok(fshr::ShareWork::Delete(ids)) if ids == vec![1]
    ));
    end.issuer = "bob".into();
    assert!(matches!(
        fshr::on_create(&end, may(false, false), &entries),
        Ok(fshr::ShareWork::Delete(ids)) if ids == vec![1]
    ));
    end.audience = None;
    assert!(matches!(
        fshr::on_create(&end, may(false, false), &entries),
        Ok(fshr::ShareWork::Nothing)
    ));
    let mut got = ctx("FSHR", Some("COMMENT"), "bob", "us");
    got.subject = Some("f1~x".into());
    got.audience = Some("us".into());
    assert_eq!(fshr::on_receive(&got, None).unwrap().status, Some('C'));
    assert!(matches!(
        fshr::on_receive(&got, Some(Some("carol"))),
        Err(Error::PermissionDenied)
    ));
    got.content = Some(object(&[
        ("contentType", text("text/plain")),
        ("fileName", text("n")),
        ("fileTp", text("BLOB")),
    ]));
    let f = fshr::on_accept(&got).unwrap();
    assert_eq!((f.file_id.as_str(), f.owner_tag.as_str(), f.permission), ("f1~x", "bob", 'C'));
}

#[test]
fn hooks_create_actions() {
    let mut c = ctx("INVT", None, "alice", "bob");
    c.audience = Some("bob.invited".into());
    c.subject = Some("a1~conv".into());
    let (issuer, a) = created_action(NewAction::Membership, &c, "owner");
    assert_eq!(issuer, "bob.invited");
    assert_eq!((a.typ.as_str(), a.sub_typ.as_deref()), ("SUBS", None));
    assert_eq!(a.audience_tag.as_deref(), Some("owner"));
    assert_eq!(a.subject.as_deref(), Some("a1~conv"));
    assert_eq!(a.x, Some(object(&[("role", text("member"))])));
    let (issuer, a) = created_action(NewAction::ConnectionAcceptance, &c, "alice");
    assert_eq!(issuer, "bob");
    assert_eq!((a.typ.as_str(), a.sub_typ.as_deref()), ("CONN", Some("ACC")));
    assert!(a.subject.is_none() && a.x.is_none());
    let (issuer, a) = created_action(NewAction::ConnectionRequest, &c, "club");
    assert_eq!(issuer, "bob.invited");
    assert_eq!((a.typ.as_str(), a.sub_typ.as_deref()), ("CONN", None));
    assert_eq!(a.audience_tag.as_deref(), Some("club"));
}

#[test]
fn pending_actions_are_completed() {
    let e = engine();
    let mut a = create("REACT");
    a.subject = Some("@9".to_string());
    a.content = Some(text("hi"));
    a.x = Some(Json::Bool(true));
    let pending = ActionCreatorTask::new(TnId(2), "us".to_string(), 5, a);
    let mut parent = view("a1~p", "POST", "bob");
    parent.audience = Some(profile("club"));
    let files = vec!["f1~a".to_string()];
    let done = pending.complete(&e, Some(&files), Some("a1~s"), Some(&parent));
    assert_eq!(done.temp_id, "@5");
    assert_eq!(done.signed.audience_tag.as_deref(), Some("club"));
    assert_eq!(done.signed.subject.as_deref(), Some("a1~s"));
    assert_eq!(done.signed.attachments, Some(files));
    assert_eq!(done.signed.content, Some(text("hi")));
    assert!(done.signed.x.is_none());
    assert!(done.key.is_some());
    let stored = pending.stored("a1~new", &done, Timestamp(11));
    assert_eq!(stored.x, Some(Json::Bool(true)));
    assert_eq!(stored.read_content(), Some(text("hi")));
    assert_eq!(stored.action_id, "a1~new");
    assert_eq!(stored.issuer_tag, "us");
    assert_eq!(stored.content.as_deref(), Some("\"hi\""));
    assert_eq!(stored.created_at, Timestamp(11));
    let mut odd = create("REACT");
    odd.content = Some(object(&[("k", text("{content.k}"))]));
    let pending = ActionCreatorTask::new(TnId(2), "us".to_string(), 5, odd);
    assert!(pending.complete(&e, None, None, None).key.is_none());

    let mut seen = create("PRES");
    seen.attachments = Some(vec!["@1".to_string()]);
    seen.audience_tag = Some("bob".to_string());
    assert!(create_ephemeral_action(&e, &seen).attachments.is_none());
    let fanout = vec!["carol".to_string(), "bob".to_string()];
    match task::schedule_delivery(&e, "us", &seen, None, &fanout) {
        DeliveryPlan::Direct { recipients, .. } => {
            assert_eq!(recipients, vec!["bob".to_string(), "carol".to_string()]);
        },
        other => panic!("{other:?}"),
    }
    let post = view("a1~post", "POST", "bob");
    let yes = approval("a1~post", "bob", None);
    assert_eq!(yes.typ, "APRV");
    match task::schedule_delivery(&e, "us", &yes, Some(&post), &Vec::new()) {
        DeliveryPlan::Broadcast { related, author } => {
            assert_eq!(related.as_deref(), Some("a1~post"));
            assert_eq!(author.as_deref(), Some("bob"));
        },
        other => panic!("{other:?}"),
    }
}

#[test]
fn registrations_are_admitted() {
    let mut c = ctx("IDP", Some("REG"), "bob", "idp");
    assert_eq!(
        invalid(idp::idp_reg_on_receive(&c, None)).as_deref(),
        Some("IDP:REG action missing content field")
    );
    c.content = Some(Json::Null);
    assert_eq!(
        invalid(idp::idp_reg_on_receive(&c, None)).as_deref(),
        Some("IDP:REG action missing audience (target IdP)")
    );
    match idp::idp_reg_on_receive(&c, Some("no name")) {
        Err(Error::Internal(m)) => assert_eq!(m, "IDP:REG content parsing failed: no name"),
        other => panic!("{other:?}"),
    }
    c.audience = Some("idp".into());
    assert!(idp::idp_reg_on_receive(&c, None).is_ok());
    let r = idp::registration_result("5", text("ref"), text("key"), text("answer"));
    assert_eq!(r.vars.len(), 3);
    assert_eq!(r.return_value, Some(text("answer")));
}

#[test]
fn settings_are_registered() {
    let mut all = Vec::new();
    register_settings(&mut all);
    assert!(!all.is_empty());
    assert!(all.iter().any(|s| matches!(s.default, SettingValue::Int(_))));
}
