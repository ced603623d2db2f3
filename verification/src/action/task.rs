//! Creating actions, and the tasks that do it.
use crate::action::dsl::engine::DslEngine;
use crate::action::dsl::types::{ActionDefinition, BehaviorFlags};
use crate::action::helpers;
use crate::action::post_store::{
    broadcasting, broadcasts, direct_tags, find_direct_tags, find_related_subject, related_subject,
    DeliveryPlan, DeliveryView, StoredAction,
};
use crate::action::subject_ref::{self, SubjectRef, SubjectView};
use crate::decimal;
use crate::json::{self, Json, JsonView};
use crate::text;
use crate::types::{ActionView, Error, ErrorView, Timestamp, TnId};
use vstd::prelude::*;

verus! {

/// A request to create an action.
#[derive(Debug)]
pub struct CreateAction {
    pub typ: String,
    pub sub_typ: Option<String>,
    pub parent_id: Option<String>,
    pub audience_tag: Option<String>,
    pub content: Option<Json>,
    pub attachments: Option<Vec<String>>,
    pub subject: Option<String>,
    pub expires_at: Option<Timestamp>,
    pub visibility: Option<char>,
    pub flags: Option<String>,
    pub x: Option<Json>,
}

impl Default for CreateAction {
    fn default() -> (r: Self)
        ensures
            r.typ@ == ""@,
            r.sub_typ is None,
            r.parent_id is None,
            r.audience_tag is None,
            r.content is None,
            r.attachments is None,
            r.subject is None,
            r.expires_at is None,
            r.visibility is None,
            r.flags is None,
            r.x is None,
    {
        CreateAction {
            typ: text::owned(""),
            sub_typ: None,
            parent_id: None,
            audience_tag: None,
            content: None,
            attachments: None,
            subject: None,
            expires_at: None,
            visibility: None,
            flags: None,
            x: None,
        }
    }
}

/// Whether a request says nothing but a type, a parent, an audience, a subject and a visibility.
pub open spec fn is_bare_action(
    a: CreateAction,
    typ: Seq<char>,
    parent_id: Option<Seq<char>>,
    audience_tag: Option<Seq<char>>,
    subject: Option<Seq<char>>,
    visibility: Option<char>,
) -> bool {
    &&& a.typ@ == typ
    &&& a.sub_typ is None
    &&& a.parent_id.deep_view() == parent_id
    &&& a.audience_tag.deep_view() == audience_tag
    &&& a.content is None
    &&& a.attachments is None
    &&& a.subject.deep_view() == subject
    &&& a.expires_at is None
    &&& a.visibility == visibility
    &&& a.flags is None
    &&& a.x is None
}

/// The approval of an action, addressed to its issuer.
pub fn approval(action_id: &str, issuer: &str, visibility: Option<char>) -> (r: CreateAction)
    ensures
        is_bare_action(r, "APRV"@, None, Some(issuer@), Some(action_id@), visibility),
{
    CreateAction {
        typ: text::owned("APRV"),
        audience_tag: Some(text::owned(issuer)),
        subject: Some(text::owned(action_id)),
        visibility,
        ..CreateAction::default()
    }
}

/// What the store and the settings say when an action is created.
pub struct CreateFacts<'a> {
    /// Whether the tenant follows the audience or is connected to them.
    pub has_relationship: bool,
    /// The action on record under the subject, or else the parent.
    pub target: Option<&'a ActionView>,
    /// Whether the tenant subscribes to that action.
    pub subscribed: bool,
    /// Whether the tenant subscribes to the root of that action's thread.
    pub root_subscribed: bool,
    /// The parent on record.
    pub parent: Option<&'a ActionView>,
    /// The action on record under the subject.
    pub subject_action: Option<&'a ActionView>,
    /// The tenant's default visibility, where it could be read.
    pub default_visibility: Option<&'a str>,
}

/// Whether a flag of a type's behaviour is on.
pub open spec fn flag_on(flag: Option<bool>) -> bool {
    flag == Some(true)
}

pub open spec fn behavior_of(m: Map<Seq<char>, ActionDefinition>, typ: Seq<char>) -> Option<
    BehaviorFlags,
> {
    if m.dom().contains(typ) {
        Some(m[typ].behavior)
    } else {
        None
    }
}

/// Whether a reference stands for something created in the same request.
pub open spec fn is_temporary(s: Seq<char>) -> bool {
    s.len() > 0 && s[0] == '@'
}

pub open spec fn is_ephemeral(m: Map<Seq<char>, ActionDefinition>, typ: Seq<char>) -> bool {
    behavior_of(m, typ) matches Some(b) && flag_on(b.ephemeral)
}

/// Whether the audience is somebody else whom the tenant has no relationship with, though the
/// type asks for one.
pub open spec fn unknown_recipient(
    m: Map<Seq<char>, ActionDefinition>,
    id_tag: Seq<char>,
    a: CreateAction,
    f: CreateFacts,
) -> bool {
    &&& !(behavior_of(m, a.typ@) matches Some(b) && flag_on(b.allow_unknown))
    &&& a.audience_tag is Some && a.audience_tag->0@ != id_tag
    &&& !f.has_relationship
}

/// What an action refers to: its subject, else its parent.
pub open spec fn reference_of(a: CreateAction) -> Option<Seq<char>> {
    if a.subject is Some {
        Some(a.subject->0@)
    } else {
        a.parent_id.deep_view()
    }
}

/// Whether the type asks for a subscription to what the action refers to, and the tenant neither
/// subscribes to it, or to its root, nor issued it.
pub open spec fn lacks_subscription(
    m: Map<Seq<char>, ActionDefinition>,
    id_tag: Seq<char>,
    a: CreateAction,
    f: CreateFacts,
) -> bool {
    &&& behavior_of(m, a.typ@) matches Some(b) && flag_on(b.requires_subscription)
    &&& reference_of(a) matches Some(t) && !is_temporary(t)
    &&& f.target is Some && f.target->0.issuer.id_tag@ != id_tag
    &&& !f.subscribed && !(f.target->0.root_id is Some && f.root_subscribed)
}

/// Whether a type names a deletion.
pub open spec fn type_deletes(typ: Seq<char>) -> bool {
    helpers::sub_type(typ) == Some("DEL"@)
}

/// Whether what an action refers to has the capability switched off by which its type is gated.
pub open spec fn switched_off(
    gate: Option<char>,
    reference: Option<String>,
    found: Option<&ActionView>,
) -> bool {
    gate is Some && reference is Some && !is_temporary(reference->0@) && found is Some
        && !helpers::capability_enabled(found->0.flags.deep_view(), gate->0)
}

pub open spec fn parent_gate(m: Map<Seq<char>, ActionDefinition>, typ: Seq<char>) -> Option<char> {
    match behavior_of(m, typ) {
        Some(b) => b.gated_by_parent_flag,
        None => None,
    }
}

pub open spec fn subject_gate(m: Map<Seq<char>, ActionDefinition>, typ: Seq<char>) -> Option<char> {
    match behavior_of(m, typ) {
        Some(b) => b.gated_by_subject_flag,
        None => None,
    }
}

/// Why an action is not created; nothing where it is.
pub open spec fn refusal(
    m: Map<Seq<char>, ActionDefinition>,
    id_tag: Seq<char>,
    a: CreateAction,
    f: CreateFacts,
) -> Option<Seq<char>> {
    if unknown_recipient(m, id_tag, a, f) {
        Some("Cannot send "@ + a.typ@ + " to unknown recipient "@ + a.audience_tag->0@)
    } else if lacks_subscription(m, id_tag, a, f) {
        Some("Cannot send "@ + a.typ@ + " without subscription to "@ + reference_of(a)->0)
    } else if !type_deletes(a.typ@) && switched_off(parent_gate(m, a.typ@), a.parent_id, f.parent) {
        Some(a.typ@ + " is disabled on the parent action"@)
    } else if !type_deletes(a.typ@) && switched_off(
        subject_gate(m, a.typ@),
        a.subject,
        f.subject_action,
    ) {
        Some(a.typ@ + " is disabled on the subject action"@)
    } else {
        None
    }
}

fn starts_with_at(s: &str) -> (r: bool)
    ensures
        r == is_temporary(s@),
{
    !s.is_empty() && s.get_char(0) == '@'
}

fn gate_closed(gate: Option<char>, reference: &Option<String>, found: Option<&ActionView>) -> (r:
    bool)
    ensures
        r == switched_off(gate, *reference, found),
{
    match (gate, reference, found) {
        (Some(flag), Some(id), Some(a)) => !starts_with_at(id.as_str())
            && !helpers::is_capability_enabled(text::as_opt(&a.flags), flag),
        _ => false,
    }
}

fn sentence(a: &str, b: &str, c: &str, d: &str) -> (r: String)
    ensures
        r@ == a@ + b@ + c@ + d@,
{
    let mut m = text::owned(a);
    m.append(b);
    m.append(c);
    m.append(d);
    m
}

fn is_on(flag: Option<bool>) -> (r: bool)
    ensures
        r == flag_on(flag),
{
    match flag {
        Some(b) => b,
        None => false,
    }
}

/// Admits an action that a tenant creates.
pub fn validate_new_action(
    engine: &DslEngine,
    id_tag: &str,
    action: &CreateAction,
    facts: &CreateFacts,
) -> (r: Result<(), Error>)
    ensures
        r is Ok <==> refusal(engine@, id_tag@, *action, *facts) is None,
        r matches Err(e) ==> (e matches Error::ValidationError(m) && Some(m@) == refusal(
            engine@,
            id_tag@,
            *action,
            *facts,
        )),
{
    let behavior = engine.get_behavior(action.typ.as_str());
    let allow_unknown = match behavior {
        Some(b) => is_on(b.allow_unknown),
        None => false,
    };
    if !allow_unknown && !facts.has_relationship {
        if let Some(audience) = &action.audience_tag {
            if !text::same(audience.as_str(), id_tag) {
                return Err(
                    Error::ValidationError(
                        sentence(
                            "Cannot send ",
                            action.typ.as_str(),
                            " to unknown recipient ",
                            audience.as_str(),
                        ),
                    ),
                );
            }
        }
    }
    let requires_subscription = match behavior {
        Some(b) => is_on(b.requires_subscription),
        None => false,
    };
    if requires_subscription {
        let reference: Option<&String> = match &action.subject {
            Some(s) => Some(s),
            None => action.parent_id.as_ref(),
        };
        if let Some(target_id) = reference {
            if !starts_with_at(target_id.as_str()) {
                if let Some(target) = facts.target {
                    let subscribed = facts.subscribed || (target.root_id.is_some()
                        && facts.root_subscribed);
                    if !text::same(target.issuer.id_tag.as_str(), id_tag) && !subscribed {
                        return Err(
                            Error::ValidationError(
                                sentence(
                                    "Cannot send ",
                                    action.typ.as_str(),
                                    " without subscription to ",
                                    target_id.as_str(),
                                ),
                            ),
                        );
                    }
                }
            }
        }
    }
    let parts = helpers::extract_type_and_subtype(action.typ.as_str());
    if !text::is_text(text::as_opt(&parts.1), "DEL") {
        let gate: Option<char> = match behavior {
            Some(b) => b.gated_by_parent_flag,
            None => None,
        };
        if gate_closed(gate, &action.parent_id, facts.parent) {
            let mut m = action.typ.clone();
            m.append(" is disabled on the parent action");
            return Err(Error::ValidationError(m));
        }
        let gate: Option<char> = match behavior {
            Some(b) => b.gated_by_subject_flag,
            None => None,
        };
        if gate_closed(gate, &action.subject, facts.subject_action) {
            let mut m = action.typ.clone();
            m.append(" is disabled on the subject action");
            return Err(Error::ValidationError(m));
        }
    }
    Ok(())
}

/// The visibility that an action takes over, where it has none of its own.
pub open spec fn inherited(a: CreateAction, f: CreateFacts) -> Option<char> {
    if a.visibility is Some {
        a.visibility
    } else if f.parent is Some {
        f.parent->0.visibility
    } else if a.subject is Some && f.subject_action is Some && (subject_ref::subject_of(
        a.subject->0@,
    ) matches Some(SubjectView::Action(_))) {
        f.subject_action->0.visibility
    } else {
        None
    }
}

/// The visibility of a new action: its own, else that of what it refers to, else the tenant's
/// default, else that of followers; an open action is then opened to connections, but for one
/// that is for subscribers only.
pub open spec fn visibility_of(a: CreateAction, f: CreateFacts) -> Option<char> {
    let resolved = if inherited(a, f) is Some {
        inherited(a, f)
    } else {
        match f.default_visibility {
            Some(s) => if s@.len() > 0 {
                Some(s@[0])
            } else {
                None
            },
            None => Some('F'),
        }
    };
    helpers::open_visibility(a.flags.deep_view(), resolved)
}

/// Resolves the visibility of a new action.
pub fn resolve_visibility(action: &CreateAction, facts: &CreateFacts) -> (r: Option<char>)
    ensures
        r == visibility_of(*action, *facts),
{
    let taken = helpers::inherit_visibility(
        action.visibility,
        facts.parent,
        text::as_opt(&action.subject),
        facts.subject_action,
    );
    let resolved: Option<char> = if taken.is_some() {
        taken
    } else {
        match facts.default_visibility {
            Some(s) => {
                if s.is_empty() {
                    None
                } else {
                    Some(s.get_char(0))
                }
            },
            None => Some('F'),
        }
    };
    helpers::apply_open_flag_visibility(text::as_opt(&action.flags), resolved)
}

/// A tenant and a number, as tasks are keyed.
pub open spec fn task_key_text(tn_id: TnId, rest: Seq<char>) -> Seq<char> {
    decimal::decimal_text(tn_id.0 as nat) + ","@ + rest
}

fn task_key(tn_id: TnId, rest: &str) -> (r: String)
    ensures
        r@ == task_key_text(tn_id, rest@),
{
    let mut k = decimal::unsigned_to_text(tn_id.0 as u64);
    k.append(",");
    k.append(rest);
    k
}

/// The keys of the tasks that produce the attachments still to come.
pub open spec fn awaited(tn_id: TnId, attachments: Seq<Seq<char>>) -> Seq<Seq<char>>
    decreases attachments.len(),
{
    if attachments.len() == 0 {
        Seq::empty()
    } else {
        let rest = awaited(tn_id, attachments.drop_last());
        let a = attachments.last();
        if is_temporary(a) {
            rest.push(task_key_text(tn_id, a.skip(1)))
        } else {
            rest
        }
    }
}

fn after_at<'a>(s: &'a str) -> (r: &'a str)
    requires
        is_temporary(s@),
    ensures
        r@ == s@.skip(1),
{
    let n: usize = s.unicode_len();
    let t = s.substring_char(1, n);
    assert(t@ =~= s@.skip(1));
    t
}

/// The keys of the tasks that produce the attachments still to come.
pub fn attachments_to_wait(tn_id: TnId, attachments: &Vec<String>) -> (r: Vec<String>)
    ensures
        r.deep_view() == awaited(tn_id, attachments.deep_view()),
{
    let mut out: Vec<String> = Vec::new();
    let ghost all = attachments.deep_view();
    let mut i: usize = 0;
    assert(out.deep_view() =~= awaited(tn_id, all.take(0)));
    while i < attachments.len()
        invariant
            all == attachments.deep_view(),
            i <= attachments@.len(),
            out.deep_view() == awaited(tn_id, all.take(i as int)),
        decreases attachments@.len() - i,
    {
        let ghost before = out.deep_view();
        let a = attachments[i].as_str();
        proof {
            assert(all.take(i + 1).drop_last() =~= all.take(i as int));
            assert(all.take(i + 1).last() == a@);
        }
        if starts_with_at(a) {
            let key = task_key(tn_id, after_at(a));
            out.push(key);
            assert(out.deep_view() =~= before.push(key@));
        }
        i = i + 1;
    }
    assert(all.take(i as int) =~= all);
    out
}

/// The key of the task that produces a subject still to come.
pub fn subject_to_wait(tn_id: TnId, subject: Option<&str>) -> (r: Option<String>)
    ensures
        r.deep_view() == (match subject {
            Some(s) => if is_temporary(s@) {
                Some(task_key_text(tn_id, s@.skip(1)))
            } else {
                None
            },
            None => None,
        }),
{
    match subject {
        Some(s) => {
            if starts_with_at(s) {
                Some(task_key(tn_id, after_at(s)))
            } else {
                None
            }
        },
        None => None,
    }
}

/// The pattern for the key of an action of a type.
pub open spec fn pattern_of(m: Map<Seq<char>, ActionDefinition>, typ: Seq<char>) -> Option<
    Seq<char>,
> {
    if m.dom().contains(typ) {
        m[typ].key_pattern.deep_view()
    } else {
        None
    }
}

pub open spec fn content_of(a: CreateAction) -> Option<JsonView> {
    match a.content {
        Some(c) => Some(c@),
        None => None,
    }
}

/// The key of an action with the given audience and subject: there is one where its type has a
/// pattern for it.
pub open spec fn key_of(
    m: Map<Seq<char>, ActionDefinition>,
    id_tag: Seq<char>,
    a: CreateAction,
    audience: Option<Seq<char>>,
    subject: Option<Seq<char>>,
) -> Option<Seq<char>> {
    match pattern_of(m, a.typ@) {
        Some(p) => Some(
            helpers::key_text(
                p,
                a.typ@,
                id_tag,
                audience,
                a.parent_id.deep_view(),
                subject,
                content_of(a),
            ),
        ),
        None => None,
    }
}

/// The key of an action, under which a later one replaces it.
pub fn action_key(
    engine: &DslEngine,
    id_tag: &str,
    action: &CreateAction,
    audience: Option<&str>,
    subject: Option<&str>,
) -> (r: Option<String>)
    ensures
        r.deep_view() == key_of(
            engine@,
            id_tag@,
            *action,
            audience.deep_view(),
            subject.deep_view(),
        ),
{
    match engine.get_key_pattern(action.typ.as_str()) {
        Some(pattern) => {
            let content = action.content.as_ref();
            assert(json::opt_json(content) == content_of(*action));
            let key = helpers::apply_key_pattern(
                pattern,
                action.typ.as_str(),
                id_tag,
                audience,
                text::as_opt(&action.parent_id),
                subject,
                content,
            );
            Some(key)
        },
        None => None,
    }
}

/// A new action as it is first stored, before its attachments and its subject are there.
#[derive(Debug)]
pub struct PendingAction {
    pub visibility: Option<char>,
    pub root_id: Option<String>,
    /// The content in JSON notation.
    pub content: Option<String>,
    pub key: Option<String>,
    /// The keys of the tasks to wait for.
    pub attachments_to_wait: Vec<String>,
    pub subject_to_wait: Option<String>,
}

/// How an action is created.
#[derive(Debug)]
pub enum Creation {
    /// It is forwarded and delivered, but not stored.
    Ephemeral,
    /// It is stored and completed later.
    Pending(PendingAction),
}

/// Whether a result is how an action comes into being: an ephemeral one is always admitted, and
/// any other one where there is no reason against it.
pub open spec fn is_creation(
    r: Result<Creation, Error>,
    m: Map<Seq<char>, ActionDefinition>,
    tn_id: TnId,
    id_tag: Seq<char>,
    a: CreateAction,
    f: CreateFacts,
) -> bool {
    if is_ephemeral(m, a.typ@) {
        r matches Ok(c) && c is Ephemeral
    } else {
        match refusal(m, id_tag, a, f) {
            Some(why) => r matches Err(e) && e.deep_view() == ErrorView::ValidationError(why),
            None => r matches Ok(Creation::Pending(p)) && is_pending(p, m, tn_id, id_tag, a, f),
        }
    }
}

/// Whether a stored action is what a request asks for.
pub open spec fn is_pending(
    p: PendingAction,
    m: Map<Seq<char>, ActionDefinition>,
    tn_id: TnId,
    id_tag: Seq<char>,
    a: CreateAction,
    f: CreateFacts,
) -> bool {
    &&& p.visibility == visibility_of(a, f)
    &&& p.root_id.deep_view() == helpers::thread_root(
        a.parent_id.deep_view(),
        helpers::opt_action(f.parent),
    )
    &&& p.content.deep_view() == (match content_of(a) {
        Some(v) => Some(json::compact_notation(v)),
        None => None,
    })
    &&& p.key.deep_view() == key_of(
        m,
        id_tag,
        a,
        a.audience_tag.deep_view(),
        a.subject.deep_view(),
    )
    &&& p.attachments_to_wait.deep_view() == (match a.attachments {
        Some(list) => awaited(tn_id, list.deep_view()),
        None => Seq::empty(),
    })
    &&& p.subject_to_wait.deep_view() == (match a.subject {
        Some(s) => if is_temporary(s@) {
            Some(task_key_text(tn_id, s@.skip(1)))
        } else {
            None
        },
        None => None,
    })
}

/// Decides how an action that a tenant creates comes into being.
pub fn create_action(
    engine: &DslEngine,
    tn_id: TnId,
    id_tag: &str,
    action: &CreateAction,
    facts: &CreateFacts,
) -> (r: Result<Creation, Error>)
    ensures
        is_creation(r, engine@, tn_id, id_tag@, *action, *facts),
{
    let ephemeral = match engine.get_behavior(action.typ.as_str()) {
        Some(b) => is_on(b.ephemeral),
        None => false,
    };
    if ephemeral {
        return Ok(Creation::Ephemeral);
    }
    match validate_new_action(engine, id_tag, action, facts) {
        Ok(()) => {},
        Err(e) => {
            return Err(e);
        },
    }
    let content = helpers::serialize_content(action.content.as_ref());
    let visibility = resolve_visibility(action, facts);
    let root_id = helpers::resolve_root_id(text::as_opt(&action.parent_id), facts.parent);
    let audience = text::as_opt(&action.audience_tag);
    let subject = text::as_opt(&action.subject);
    let key = action_key(engine, id_tag, action, audience, subject);
    let waits: Vec<String> = match &action.attachments {
        Some(a) => attachments_to_wait(tn_id, a),
        None => {
            let none: Vec<String> = Vec::new();
            assert(none.deep_view() =~= Seq::<Seq<char>>::empty());
            none
        },
    };
    let subject_wait = subject_to_wait(tn_id, subject);
    Ok(
        Creation::Pending(
            PendingAction {
                visibility,
                root_id,
                content,
                key,
                attachments_to_wait: waits,
                subject_to_wait: subject_wait,
            },
        ),
    )
}

/// An action of an ephemeral type is never stored, refused or given a key, whatever its content
/// is, and what is signed of it carries neither attachments nor what is only kept here.
pub proof fn law_ephemeral_actions_leave_nothing(
    r: Result<Creation, Error>,
    signed: CreateAction,
    m: Map<Seq<char>, ActionDefinition>,
    tn_id: TnId,
    id_tag: Seq<char>,
    a: CreateAction,
    f: CreateFacts,
)
    requires
        is_ephemeral(m, a.typ@),
        is_creation(r, m, tn_id, id_tag, a, f),
        is_signed_form(
            signed,
            m,
            a,
            a.audience_tag.deep_view(),
            None,
            a.subject.deep_view(),
        ),
    ensures
        r matches Ok(Creation::Ephemeral),
        signed.attachments is None,
        signed.x is None,
{
}

/// The reference to an action that is still pending.
pub fn placeholder(a_id: u64) -> (r: String)
    ensures
        r@ == seq!['@'] + decimal::decimal_text(a_id as nat),
{
    let mut s = String::new();
    s.push('@');
    s.append(decimal::unsigned_to_text(a_id).as_str());
    assert(s@ =~= seq!['@'] + decimal::decimal_text(a_id as nat));
    s
}

/// The reference to a pending action, used as a subject, is read as that action's number.
pub proof fn law_placeholder_reads_back(a_id: u64)
    ensures
        subject_ref::subject_of(seq!['@'] + decimal::decimal_text(a_id as nat)) == Some(
            SubjectView::Placeholder(a_id),
        ),
{
    decimal::law_decimal_round_trip(a_id as nat);
    decimal::law_decimal_reads_back(a_id as nat, u64::MAX as int);
    let s = seq!['@'] + decimal::decimal_text(a_id as nat);
    assert(s.skip(1) =~= decimal::decimal_text(a_id as nat));
}

// ---------------------------------------------------------------------------------------------
// Completing a pending action
// ---------------------------------------------------------------------------------------------

/// What a reference in an action stands for.
#[derive(Debug)]
pub enum Reference {
    /// Something known under this id.
    Known(String),
    /// What was created under this number.
    Pending(u64),
}

/// What an attachment stands for: a number after an `@` is a file still to be named, and
/// anything else after an `@` is an error.
pub fn attachment_reference(a: &str) -> (r: Result<Reference, Error>)
    ensures
        r is Err <==> is_temporary(a@) && decimal::unsigned_of(a@.skip(1), u64::MAX as int) is None,
        r matches Err(e) ==> e is Parse,
        r matches Ok(Reference::Known(s)) ==> !is_temporary(a@) && s@ == a@,
        r matches Ok(Reference::Pending(n)) ==> is_temporary(a@) && decimal::unsigned_of(
            a@.skip(1),
            u64::MAX as int,
        ) == Some(n as int),
{
    if starts_with_at(a) {
        match decimal::parse_unsigned(after_at(a), u64::MAX) {
            Some(n) => Ok(Reference::Pending(n)),
            None => Err(Error::Parse),
        }
    } else {
        Ok(Reference::Known(text::owned(a)))
    }
}

/// What a subject stands for: a placeholder is an action still to be named; an action id or an
/// identity stands for itself.
pub fn resolve_subject(subject: &str) -> (r: Result<Reference, Error>)
    ensures
        match subject_ref::subject_of(subject@) {
            Some(SubjectView::Placeholder(n)) => r == Ok::<Reference, Error>(Reference::Pending(n)),
            Some(_) => r matches Ok(Reference::Known(s)) && s@ == subject@,
            None => if subject@.len() == 0 {
                r matches Ok(Reference::Known(s)) && s@ == subject@
            } else {
                r matches Err(e) && e is Parse
            },
        },
{
    match subject_ref::parse_subject_ref(subject) {
        Some(SubjectRef::Placeholder(n)) => Ok(Reference::Pending(n)),
        Some(_) => Ok(Reference::Known(text::owned(subject))),
        None => {
            if subject.is_empty() {
                Ok(Reference::Known(text::owned(subject)))
            } else {
                Err(Error::Parse)
            }
        },
    }
}

/// The audience of an action: its own, else that of the parent's home.
pub open spec fn audience_for(a: CreateAction, parent: Option<ActionView>) -> Option<Seq<char>> {
    if a.audience_tag is Some {
        Some(a.audience_tag->0@)
    } else {
        match parent {
            Some(p) => Some(
                match p.audience {
                    Some(x) => x.id_tag@,
                    None => p.issuer.id_tag@,
                },
            ),
            None => None,
        }
    }
}

pub fn effective_audience(action: &CreateAction, parent: Option<&ActionView>) -> (r: Option<String>)
    ensures
        r.deep_view() == audience_for(*action, helpers::opt_action(parent)),
{
    match &action.audience_tag {
        Some(a) => Some(a.clone()),
        None => helpers::resolve_parent_audience(parent),
    }
}

/// The key that an action gets once its subject is known: there is one only where the subject
/// was a reference.
pub open spec fn new_key_of(
    m: Map<Seq<char>, ActionDefinition>,
    id_tag: Seq<char>,
    a: CreateAction,
    audience: Option<Seq<char>>,
    subject: Option<Seq<char>>,
) -> Option<Seq<char>> {
    if subject is Some && a.subject is Some && is_temporary(a.subject->0@) {
        key_of(m, id_tag, a, audience, subject)
    } else {
        None
    }
}

/// The key of an action once its subject is known: made anew where the subject was a reference.
pub fn resolved_key(
    engine: &DslEngine,
    id_tag: &str,
    action: &CreateAction,
    audience: Option<&str>,
    subject: Option<&str>,
) -> (r: Option<String>)
    ensures
        r.deep_view() == new_key_of(
            engine@,
            id_tag@,
            *action,
            audience.deep_view(),
            subject.deep_view(),
        ),
{
    let was_reference = match &action.subject {
        Some(s) => starts_with_at(s.as_str()),
        None => false,
    };
    if subject.is_some() && was_reference {
        action_key(engine, id_tag, action, audience, subject)
    } else {
        None
    }
}

/// The flags of an action: its own, else the defaults of its type.
pub open spec fn flags_of(m: Map<Seq<char>, ActionDefinition>, a: CreateAction) -> Option<
    Seq<char>,
> {
    if a.flags is Some {
        Some(a.flags->0@)
    } else {
        match behavior_of(m, a.typ@) {
            Some(b) => b.default_flags.deep_view(),
            None => None,
        }
    }
}

/// The flags that an action is signed with.
pub fn token_flags(engine: &DslEngine, action: &CreateAction) -> (r: Option<String>)
    ensures
        r.deep_view() == flags_of(engine@, *action),
{
    match &action.flags {
        Some(f) => Some(f.clone()),
        None => match engine.get_behavior(action.typ.as_str()) {
            Some(b) => text::owned_opt(text::as_opt(&b.default_flags)),
            None => None,
        },
    }
}

/// Whether `r` is what is signed of an action: the action itself with the given audience,
/// attachments and subject and with its flags resolved, and without what is only kept here.
pub open spec fn is_signed_form(
    r: CreateAction,
    m: Map<Seq<char>, ActionDefinition>,
    a: CreateAction,
    audience: Option<Seq<char>>,
    attachments: Option<Seq<Seq<char>>>,
    subject: Option<Seq<char>>,
) -> bool {
    &&& r.typ@ == a.typ@
    &&& r.sub_typ.deep_view() == a.sub_typ.deep_view()
    &&& r.parent_id.deep_view() == a.parent_id.deep_view()
    &&& r.audience_tag.deep_view() == audience
    &&& content_of(r) == content_of(a)
    &&& r.attachments.deep_view() == attachments
    &&& r.subject.deep_view() == subject
    &&& r.expires_at == a.expires_at
    &&& r.visibility == a.visibility
    &&& r.flags.deep_view() == flags_of(m, a)
    &&& r.x is None
}

fn signed_form(
    engine: &DslEngine,
    action: &CreateAction,
    audience: Option<&str>,
    attachments: Option<&Vec<String>>,
    subject: Option<&str>,
) -> (r: CreateAction)
    ensures
        is_signed_form(
            r,
            engine@,
            *action,
            audience.deep_view(),
            attachments.deep_view(),
            subject.deep_view(),
        ),
{
    let content: Option<Json> = match &action.content {
        Some(c) => Some(c.duplicate()),
        None => None,
    };
    CreateAction {
        typ: action.typ.clone(),
        sub_typ: text::owned_opt(text::as_opt(&action.sub_typ)),
        parent_id: text::owned_opt(text::as_opt(&action.parent_id)),
        audience_tag: text::owned_opt(audience),
        content,
        attachments: text::owned_list_opt(attachments),
        subject: text::owned_opt(subject),
        expires_at: action.expires_at,
        visibility: action.visibility,
        flags: token_flags(engine, action),
        x: None,
    }
}

/// What is signed of an ephemeral action, which carries no attachments.
pub fn create_ephemeral_action(engine: &DslEngine, action: &CreateAction) -> (r: CreateAction)
    ensures
        is_signed_form(
            r,
            engine@,
            *action,
            action.audience_tag.deep_view(),
            None,
            action.subject.deep_view(),
        ),
{
    signed_form(
        engine,
        action,
        text::as_opt(&action.audience_tag),
        None,
        text::as_opt(&action.subject),
    )
}

/// Whether signing is tried again after the signing key has been made.
pub fn retries_with_new_key(error: &Error) -> (r: bool)
    ensures
        r == (error is DbError),
{
    match error {
        Error::DbError => true,
        _ => false,
    }
}

/// The recipient of a direct delivery: the audience, unless that is the issuer.
pub fn determine_recipients(id_tag: &str, audience_tag: Option<&str>) -> (r: Vec<String>)
    ensures
        r.deep_view() == (match audience_tag {
            Some(a) => if a@ == id_tag@ {
                Seq::empty()
            } else {
                seq![a@]
            },
            None => Seq::empty(),
        }),
{
    let mut out: Vec<String> = Vec::new();
    assert(out.deep_view() =~= Seq::<Seq<char>>::empty());
    if let Some(a) = audience_tag {
        if !text::same(a, id_tag) {
            out.push(text::owned(a));
            assert(out.deep_view() =~= seq![a@]);
        }
    }
    out
}

/// A list with those entries of another one added that it does not hold yet, in order.
pub open spec fn with_others(list: Seq<Seq<char>>, others: Seq<Seq<char>>) -> Seq<Seq<char>>
    decreases others.len(),
{
    if others.len() == 0 {
        list
    } else {
        let rest = with_others(list, others.drop_last());
        if rest.contains(others.last()) {
            rest
        } else {
            rest.push(others.last())
        }
    }
}

/// How an action is delivered that is not stored: the approval of an action that its type
/// broadcasts goes to the followers, together with it; everything else goes to its audience, to
/// the owner of its subject where the type asks for it, and to the subscribers of its container.
pub open spec fn sending_of(
    m: Map<Seq<char>, ActionDefinition>,
    id_tag: Seq<char>,
    a: CreateAction,
    subject_action: Option<ActionView>,
    fanout: Seq<Seq<char>>,
) -> DeliveryView {
    if a.typ@ == "APRV"@ && a.subject is Some && subject_action is Some && broadcasts(
        m,
        subject_action->0.typ@,
    ) {
        DeliveryView::Broadcast {
            related: Some(a.subject->0@),
            author: a.audience_tag.deep_view(),
        }
    } else {
        DeliveryView::Direct {
            recipients: with_others(
                direct_tags(
                    m,
                    a.typ@,
                    id_tag,
                    a.audience_tag.deep_view(),
                    a.subject is Some,
                    subject_action,
                ),
                fanout,
            ),
            related: related_subject(m, a.typ@, a.subject.deep_view()),
        }
    }
}

/// Decides how an action is delivered that is not stored; `subject_action` is the action on
/// record under the subject, and `fanout` are the subscribers of its container.
pub fn schedule_delivery(
    engine: &DslEngine,
    id_tag: &str,
    action: &CreateAction,
    subject_action: Option<&ActionView>,
    fanout: &Vec<String>,
) -> (r: DeliveryPlan)
    ensures
        r@ == sending_of(
            engine@,
            id_tag@,
            *action,
            helpers::opt_action(subject_action),
            fanout.deep_view(),
        ),
{
    let subject = text::as_opt(&action.subject);
    let audience = text::as_opt(&action.audience_tag);
    if text::same(action.typ.as_str(), "APRV") {
        if let (Some(s), Some(found)) = (subject, subject_action) {
            if broadcasting(engine, found.typ.as_str()) {
                return DeliveryPlan::Broadcast {
                    related: Some(text::owned(s)),
                    author: text::owned_opt(audience),
                };
            }
        }
    }
    let mut recipients = find_direct_tags(
        engine,
        action.typ.as_str(),
        id_tag,
        audience,
        subject.is_some(),
        subject_action,
    );
    let ghost direct = recipients.deep_view();
    let ghost others = fanout.deep_view();
    let mut i: usize = 0;
    assert(others.take(0) =~= Seq::<Seq<char>>::empty());
    while i < fanout.len()
        invariant
            others == fanout.deep_view(),
            i <= fanout@.len(),
            recipients.deep_view() == with_others(direct, others.take(i as int)),
        decreases fanout@.len() - i,
    {
        let ghost before = recipients.deep_view();
        let tag = fanout[i].as_str();
        proof {
            assert(others.take(i + 1).drop_last() =~= others.take(i as int));
            assert(others.take(i + 1).last() == tag@);
        }
        if !helpers::contains_tag(&recipients, tag) {
            recipients.push(text::owned(tag));
            assert(recipients.deep_view() =~= before.push(tag@));
        }
        i = i + 1;
    }
    assert(others.take(i as int) =~= others);
    DeliveryPlan::Direct {
        recipients,
        related: find_related_subject(engine, action.typ.as_str(), subject),
    }
}

/// Adding others to a list without repetitions gives one without repetitions, which holds exactly
/// what was in either: nobody is sent an action twice.
pub proof fn law_nobody_is_sent_an_action_twice(list: Seq<Seq<char>>, others: Seq<Seq<char>>)
    requires
        list.no_duplicates(),
    ensures
        with_others(list, others).no_duplicates(),
        forall|t: Seq<char>| #[trigger]
            with_others(list, others).contains(t) <==> list.contains(t) || others.contains(t),
    decreases others.len(),
{
    if others.len() > 0 {
        let rest = others.drop_last();
        let before = with_others(list, rest);
        law_nobody_is_sent_an_action_twice(list, rest);
        assert(others =~= rest.push(others.last()));
        assert forall|t: Seq<char>| #[trigger]
            with_others(list, others).contains(t) <==> list.contains(t) || others.contains(t) by {
            assert(before.contains(t) <==> list.contains(t) || rest.contains(t));
            helpers::lemma_push_contains(before, others.last(), t);
            helpers::lemma_push_contains(rest, others.last(), t);
        }
    }
}

/// The task that completes a pending action.
#[derive(Debug)]
pub struct ActionCreatorTask {
    pub tn_id: TnId,
    pub id_tag: String,
    pub a_id: u64,
    pub action: CreateAction,
}

impl ActionCreatorTask {
    pub fn new(tn_id: TnId, id_tag: String, a_id: u64, action: CreateAction) -> (r: ActionCreatorTask)
        ensures
            r == (ActionCreatorTask { tn_id, id_tag, a_id, action }),
    {
        ActionCreatorTask { tn_id, id_tag, a_id, action }
    }

    pub fn kind() -> (r: &'static str)
        ensures
            r@ == "action.create"@,
    {
        "action.create"
    }

    /// The key of the task.
    pub fn key(&self) -> (r: String)
        ensures
            r@ == task_key_text(self.tn_id, decimal::decimal_text(self.a_id as nat)),
    {
        let n = decimal::unsigned_to_text(self.a_id);
        task_key(self.tn_id, n.as_str())
    }

    /// Completes the action, now that what it refers to is known: what is signed of it, and its
    /// new key. `attachments` and `subject` are what its own ones stand for, and `parent` is the
    /// parent on record.
    pub fn complete(
        &self,
        engine: &DslEngine,
        attachments: Option<&Vec<String>>,
        subject: Option<&str>,
        parent: Option<&ActionView>,
    ) -> (r: Completion)
        ensures
            is_completion(r, engine@, *self, attachments.deep_view(), subject.deep_view(), parent),
    {
        let audience = effective_audience(&self.action, parent);
        let audience_tag = text::as_opt(&audience);
        let key = resolved_key(engine, self.id_tag.as_str(), &self.action, audience_tag, subject);
        let signed = signed_form(engine, &self.action, audience_tag, attachments, subject);
        let root_id = helpers::resolve_root_id(text::as_opt(&self.action.parent_id), parent);
        Completion { signed, key, root_id, temp_id: placeholder(self.a_id) }
    }

    /// The action as it is stored once it is completed and has its id. Its visibility and flags
    /// are the ones that it was created with.
    pub fn stored(&self, action_id: &str, done: &Completion, now: Timestamp) -> (r: StoredAction)
        ensures
            r.action_id@ == action_id@,
            r.typ@ == done.signed.typ@,
            r.sub_typ.deep_view() == done.signed.sub_typ.deep_view(),
            r.issuer_tag@ == self.id_tag@,
            r.parent_id.deep_view() == done.signed.parent_id.deep_view(),
            r.root_id.deep_view() == done.root_id.deep_view(),
            r.audience_tag.deep_view() == done.signed.audience_tag.deep_view(),
            r.content.deep_view() == (match content_of(done.signed) {
                Some(v) => Some(json::compact_notation(v)),
                None => None,
            }),
            r.attachments.deep_view() == done.signed.attachments.deep_view(),
            r.subject.deep_view() == done.signed.subject.deep_view(),
            r.created_at == now,
            r.expires_at == done.signed.expires_at,
            r.visibility == self.action.visibility,
            r.flags.deep_view() == self.action.flags.deep_view(),
            json::held(r.x) == json::held(self.action.x),
    {
        let signed = &done.signed;
        let x: Option<Json> = match &self.action.x {
            Some(v) => Some(v.duplicate()),
            None => None,
        };
        StoredAction {
            action_id: text::owned(action_id),
            typ: signed.typ.clone(),
            sub_typ: text::owned_opt(text::as_opt(&signed.sub_typ)),
            issuer_tag: self.id_tag.clone(),
            parent_id: text::owned_opt(text::as_opt(&signed.parent_id)),
            root_id: text::owned_opt(text::as_opt(&done.root_id)),
            audience_tag: text::owned_opt(text::as_opt(&signed.audience_tag)),
            content: helpers::serialize_content(signed.content.as_ref()),
            attachments: text::owned_list_opt(signed.attachments.as_ref()),
            subject: text::owned_opt(text::as_opt(&signed.subject)),
            created_at: now,
            expires_at: signed.expires_at,
            visibility: self.action.visibility,
            flags: text::owned_opt(text::as_opt(&self.action.flags)),
            x,
        }
    }
}

/// A pending action, completed.
#[derive(Debug)]
pub struct Completion {
    /// What is signed of it.
    pub signed: CreateAction,
    /// Its key, where it is a new one.
    pub key: Option<String>,
    pub root_id: Option<String>,
    /// The reference under which clients know it so far.
    pub temp_id: String,
}

/// Whether a completion is that of a pending action.
pub open spec fn is_completion(
    c: Completion,
    m: Map<Seq<char>, ActionDefinition>,
    t: ActionCreatorTask,
    attachments: Option<Seq<Seq<char>>>,
    subject: Option<Seq<char>>,
    parent: Option<&ActionView>,
) -> bool {
    let audience = audience_for(t.action, helpers::opt_action(parent));
    &&& is_signed_form(c.signed, m, t.action, audience, attachments, subject)
    &&& c.key.deep_view() == new_key_of(m, t.id_tag@, t.action, audience, subject)
    &&& c.root_id.deep_view() == helpers::thread_root(
        t.action.parent_id.deep_view(),
        helpers::opt_action(parent),
    )
    &&& c.temp_id@ == seq!['@'] + decimal::decimal_text(t.a_id as nat)
}

// ---------------------------------------------------------------------------------------------
// Verifying an action that arrived
// ---------------------------------------------------------------------------------------------

/// The task that verifies an action that arrived.
#[derive(Debug)]
pub struct ActionVerifierTask {
    pub tn_id: TnId,
    pub token: String,
    /// The address that it came from.
    pub client_address: Option<String>,
}

/// The stored form of a verification: tenant, token and, where it is known, address, with
/// commas between them.
pub open spec fn verifier_text(
    tn_id: TnId,
    token: Seq<char>,
    client_address: Option<Seq<char>>,
) -> Seq<char> {
    match client_address {
        Some(a) => task_key_text(tn_id, token + ","@ + a),
        None => task_key_text(tn_id, token),
    }
}

/// The part of a text before the first comma.
pub open spec fn head_part(s: Seq<char>) -> Seq<char> {
    s.take(text::before_char(s, ','))
}

/// The part of a text after the first comma.
pub open spec fn tail_part(s: Seq<char>) -> Option<Seq<char>> {
    let n = text::before_char(s, ',');
    if n < s.len() {
        Some(s.skip(n + 1))
    } else {
        None
    }
}

/// What a stored form says: the tenant, the token and the address.
pub open spec fn verifier_parts(s: Seq<char>) -> Option<(u32, Seq<char>, Option<Seq<char>>)> {
    match (tail_part(s), decimal::unsigned_of(head_part(s), u32::MAX as int)) {
        (Some(rest), Some(n)) => Some((n as u32, head_part(rest), tail_part(rest))),
        _ => None,
    }
}

fn cut_at_comma(s: &str) -> (r: (String, Option<String>))
    ensures
        r.0@ == head_part(s@),
        r.1.deep_view() == tail_part(s@),
{
    let n: usize = s.unicode_len();
    match text::find_char(s, ',') {
        Some(at) => {
            let head = s.substring_char(0, at);
            let tail = s.substring_char(at + 1, n);
            assert(head@ =~= head_part(s@));
            assert(tail@ =~= s@.skip(at + 1));
            (text::owned(head), Some(text::owned(tail)))
        },
        None => {
            assert(head_part(s@) =~= s@);
            (text::owned(s), None)
        },
    }
}

impl ActionVerifierTask {
    pub fn new(tn_id: TnId, token: String, client_address: Option<String>) -> (r: ActionVerifierTask)
        ensures
            r == (ActionVerifierTask { tn_id, token, client_address }),
    {
        ActionVerifierTask { tn_id, token, client_address }
    }

    pub fn kind() -> (r: &'static str)
        ensures
            r@ == "action.verify"@,
    {
        "action.verify"
    }

    pub fn serialize(&self) -> (r: String)
        ensures
            r@ == verifier_text(self.tn_id, self.token@, self.client_address.deep_view()),
    {
        let mut rest = self.token.clone();
        if let Some(a) = &self.client_address {
            rest.append(",");
            rest.append(a.as_str());
        }
        task_key(self.tn_id, rest.as_str())
    }

    /// Reads a verification from its stored form. Without a comma the form is invalid, and the
    /// tenant has to be a number.
    pub fn build(ctx: &str) -> (r: Result<ActionVerifierTask, Error>)
        ensures
            match r {
                Ok(t) => verifier_parts(ctx@) == Some(
                    (t.tn_id.0, t.token@, t.client_address.deep_view()),
                ),
                Err(e) => verifier_parts(ctx@) is None && (if tail_part(ctx@) is None {
                    e.deep_view() == ErrorView::Internal("invalid ActionVerifier context format"@)
                } else {
                    e is Parse
                }),
            },
    {
        let (first, rest) = cut_at_comma(ctx);
        match rest {
            None => Err(Error::Internal(text::owned("invalid ActionVerifier context format"))),
            Some(r) => {
                let (token, client_address) = cut_at_comma(r.as_str());
                match decimal::parse_unsigned(first.as_str(), 4294967295) {
                    Some(n) => Ok(
                        ActionVerifierTask { tn_id: TnId(n as u32), token, client_address },
                    ),
                    None => Err(Error::Parse),
                }
            },
        }
    }
}

/// A verification of a token without a comma is read back from its stored form as it was.
pub proof fn law_verifier_round_trip(
    tn_id: TnId,
    token: Seq<char>,
    client_address: Option<Seq<char>>,
)
    requires
        !token.contains(','),
    ensures
        verifier_parts(verifier_text(tn_id, token, client_address)) == Some(
            (tn_id.0, token, client_address),
        ),
{
    reveal_strlit(",");
    let d = decimal::decimal_text(tn_id.0 as nat);
    decimal::law_decimal_round_trip(tn_id.0 as nat);
    decimal::law_decimal_reads_back(tn_id.0 as nat, u32::MAX as int);
    let rest = match client_address {
        Some(a) => token + ","@ + a,
        None => token,
    };
    let s = verifier_text(tn_id, token, client_address);
    assert(s =~= d + ","@ + rest);
    assert forall|k: int| 0 <= k < d.len() implies s[k] != ',' by {
        assert(decimal::is_digit(d[k]));
        assert(s[k] == d[k]);
    }
    text::lemma_before_char(s, ',', d.len() as int);
    assert(s.take(d.len() as int) =~= d);
    assert(s.skip(d.len() as int + 1) =~= rest);
    assert forall|k: int| 0 <= k < token.len() implies rest[k] != ',' by {
        assert(rest[k] == token[k]);
        if token[k] == ',' {
            assert(token.contains(','));
        }
    }
    text::lemma_before_char(rest, ',', token.len() as int);
    assert(rest.take(token.len() as int) =~= token);
    if client_address is Some {
        assert(rest.skip(token.len() as int + 1) =~= client_address->0);
    }
}

/// A tenant can always address itself, whatever the type asks for.
pub proof fn law_self_addressed_is_known(
    m: Map<Seq<char>, ActionDefinition>,
    id_tag: Seq<char>,
    a: CreateAction,
    f: CreateFacts,
)
    requires
        a.audience_tag is Some && a.audience_tag->0@ == id_tag,
    ensures
        !unknown_recipient(m, id_tag, a, f),
{
}

/// The creator of an action never needs a subscription to it.
pub proof fn law_creator_needs_no_subscription(
    m: Map<Seq<char>, ActionDefinition>,
    id_tag: Seq<char>,
    a: CreateAction,
    f: CreateFacts,
)
    requires
        f.target is Some && f.target->0.issuer.id_tag@ == id_tag,
    ensures
        !lacks_subscription(m, id_tag, a, f),
{
}

/// The visibility for subscribers only, once inherited, is never widened by the open flag.
pub proof fn law_subscribers_only_is_kept(a: CreateAction, f: CreateFacts)
    requires
        inherited(a, f) == Some('S'),
    ensures
        visibility_of(a, f) == Some('S'),
{
}

} // verus!
