//! Rules shared by the parts of action processing.
use crate::action::subject_ref::{self, SubjectRef, SubjectView};
use crate::decimal;
use crate::json::{self, Json, JsonView};
use crate::text;
use crate::types::{ActionView, Error};
use vstd::prelude::*;

verus! {

/// The message for an identity that is not in canonical form.
pub open spec fn invalid_identity_text(field: Seq<char>, id_tag: Seq<char>) -> Seq<char> {
    "invalid "@ + field + " id_tag: "@ + id_tag
}

/// Admits an identity-valued field whose canonical form has been established; `canonical` is
/// the verdict of the identity rules on `id_tag`.
pub fn check_identity_field(field: &str, id_tag: &str, canonical: bool) -> (r: Result<(), Error>)
    ensures
        r is Ok <==> canonical,
        r matches Err(e) ==> (e matches Error::ValidationError(m) && m@ == invalid_identity_text(
            field@,
            id_tag@,
        )),
{
    if canonical {
        Ok(())
    } else {
        let mut m = text::owned("invalid ");
        m.append(field);
        m.append(" id_tag: ");
        m.append(id_tag);
        Err(Error::ValidationError(m))
    }
}

/// Admits a subject unless it names an identity that is not canonical. `canonical` is the
/// verdict of the identity rules on the named identity; it is not asked for other subjects.
pub fn check_subject_field(subject: &str, canonical: bool) -> (r: Result<(), Error>)
    ensures
        r is Err <==> subject_ref::identity_of(subject@) is Some && !canonical,
        r matches Err(e) ==> (e matches Error::ValidationError(m) && m@ == invalid_identity_text(
            "subject"@,
            subject_ref::identity_of(subject@)->0,
        )),
{
    match subject_ref::parse_subject_ref(subject) {
        Some(SubjectRef::Identity(id_tag)) => check_identity_field("subject", id_tag, canonical),
        _ => Ok(()),
    }
}

/// How many files one action may attach.
pub const MAX_ATTACHMENTS: usize = 32;

/// The message for an attachment list of `count` entries that is too long.
pub open spec fn too_many_attachments_text(count: nat) -> Seq<char> {
    "too many attachments ("@ + decimal::decimal_text(count) + ", max "@ + decimal::decimal_text(
        MAX_ATTACHMENTS as nat,
    ) + ")"@
}

/// Refuses an attachment list above the cap.
pub fn check_attachment_count(attachments: Option<&[String]>) -> (r: Result<(), Error>)
    ensures
        r is Err <==> (attachments is Some && attachments->0@.len() > MAX_ATTACHMENTS),
        r matches Err(e) ==> (e matches Error::ValidationError(m) && m@
            == too_many_attachments_text(attachments->0@.len())),
{
    let count: usize = match attachments {
        Some(a) => a.len(),
        None => 0,
    };
    if count > MAX_ATTACHMENTS {
        let mut m = text::owned("too many attachments (");
        m.append(decimal::unsigned_to_text(count as u64).as_str());
        m.append(", max ");
        m.append(decimal::unsigned_to_text(MAX_ATTACHMENTS as u64).as_str());
        m.append(")");
        return Err(Error::ValidationError(m));
    }
    Ok(())
}

/// The part of a type before its first colon.
pub open spec fn base_type(t: Seq<char>) -> Seq<char> {
    t.take(text::before_char(t, ':'))
}

/// The part of a type after its first colon; nothing where there is no colon.
pub open spec fn sub_type(t: Seq<char>) -> Option<Seq<char>> {
    let n = text::before_char(t, ':');
    if n < t.len() {
        Some(t.skip(n + 1))
    } else {
        None
    }
}

/// Splits a type such as `POST:TEXT` into the base type and the subtype.
pub fn extract_type_and_subtype(type_str: &str) -> (r: (String, Option<String>))
    ensures
        r.0@ == base_type(type_str@),
        r.1.deep_view() == sub_type(type_str@),
{
    let n: usize = type_str.unicode_len();
    match text::find_char(type_str, ':') {
        Some(at) => {
            let t = type_str.substring_char(0, at);
            let st = type_str.substring_char(at + 1, n);
            proof {
                assert(t@ =~= base_type(type_str@));
                assert(st@ =~= type_str@.skip(at + 1));
            }
            (text::owned(t), Some(text::owned(st)))
        },
        None => {
            proof {
                assert(base_type(type_str@) =~= type_str@);
            }
            (text::owned(type_str), None)
        },
    }
}

/// Joining a base type without a colon and a subtype with a colon, and splitting the result,
/// gives the two back.
pub proof fn law_type_round_trip(t: Seq<char>, st: Seq<char>)
    requires
        !t.contains(':'),
    ensures
        base_type(t + seq![':'] + st) == t,
        sub_type(t + seq![':'] + st) == Some(st),
        base_type(t) == t,
        sub_type(t) is None,
{
    let s = t + seq![':'] + st;
    assert forall|k: int| 0 <= k < t.len() implies s[k] != ':' by {
        if t[k] == ':' {
            assert(t.contains(':'));
        }
    }
    text::lemma_before_char(s, ':', t.len() as int);
    assert forall|k: int| 0 <= k < t.len() implies t[k] != ':' by {
        if t[k] == ':' {
            assert(t.contains(':'));
        }
    }
    text::lemma_before_char(t, ':', t.len() as int);
    assert(s.take(t.len() as int) =~= t);
    assert(s.skip(t.len() as int + 1) =~= st);
    assert(t.take(t.len() as int) =~= t);
}

// ---------------------------------------------------------------------------------------------
// Key patterns
// ---------------------------------------------------------------------------------------------

/// What a field of the content contributes to a key: a text as it stands, a number or a boolean
/// in JSON notation, and nothing for a field that is absent or of another kind.
pub open spec fn field_text(content: Option<JsonView>, field: Seq<char>) -> Seq<char> {
    match content {
        Some(c) => match c.member(field) {
            Some(JsonView::Text(s)) => s,
            Some(v) => if v.is_number() || v is Bool {
                json::compact_notation(v)
            } else {
                Seq::empty()
            },
            None => Seq::empty(),
        },
        None => Seq::empty(),
    }
}

pub open spec fn content_mark() -> Seq<char> {
    "{content."@
}

/// The rest of `s` behind `from`, with each `{content.<field>}` in it replaced by what the field
/// contributes. What is filled in is not looked at again, and a mark that is not closed stays.
pub open spec fn content_filled_from(
    s: Seq<char>,
    from: int,
    content: Option<JsonView>,
) -> Seq<char>
    decreases s.len() - from,
{
    if from < 0 || from > s.len() {
        Seq::empty()
    } else {
        match text::find_from(s, content_mark(), from) {
            Some(start) => {
                let end = start + text::before_char(s.skip(start), '}');
                if from <= start && start <= end < s.len() {
                    s.subrange(from, start) + field_text(content, s.subrange(start + 9, end))
                        + content_filled_from(s, end + 1, content)
                } else {
                    s.skip(from)
                }
            },
            None => s.skip(from),
        }
    }
}

/// A text with the fields of the content filled in.
pub open spec fn content_filled(s: Seq<char>, content: Option<JsonView>) -> Seq<char> {
    content_filled_from(s, 0, content)
}

pub open spec fn or_empty(s: Option<Seq<char>>) -> Seq<char> {
    match s {
        Some(x) => x,
        None => Seq::empty(),
    }
}

/// A key pattern with the action's own fields filled in.
pub open spec fn with_action_fields(
    pattern: Seq<char>,
    action_type: Seq<char>,
    issuer: Seq<char>,
    audience: Option<Seq<char>>,
    parent: Option<Seq<char>>,
    subject: Option<Seq<char>>,
) -> Seq<char> {
    let a = text::replace_all(pattern, "{type}"@, action_type);
    let b = text::replace_all(a, "{issuer}"@, issuer);
    let c = text::replace_all(b, "{audience}"@, or_empty(audience));
    let d = text::replace_all(c, "{parent}"@, or_empty(parent));
    text::replace_all(d, "{subject}"@, or_empty(subject))
}

fn or_blank<'a>(s: Option<&'a str>) -> (r: &'a str)
    ensures
        r@ == or_empty(s.deep_view()),
{
    match s {
        Some(x) => x,
        None => {
            proof {
                reveal_strlit("");
                assert(""@ =~= Seq::<char>::empty());
            }
            ""
        },
    }
}

fn field_value(content: Option<&Json>, field: &str) -> (r: String)
    ensures
        r@ == field_text(json::opt_json(content), field@),
{
    match content {
        Some(c) => match c.get(field) {
            Some(Json::Text(s)) => s.clone(),
            Some(v) => {
                let scalar = match v {
                    Json::Bool(_) | Json::Unsigned(_) | Json::Negative(_) | Json::Real(_) => true,
                    _ => false,
                };
                if scalar {
                    json::write_compact(v)
                } else {
                    String::new()
                }
            },
            None => String::new(),
        },
        None => String::new(),
    }
}

fn fill_content(s: &str, content: Option<&Json>) -> (r: String)
    ensures
        r@ == content_filled(s@, json::opt_json(content)),
{
    let v = text::to_chars(s);
    let mark = text::to_chars("{content.");
    let n: usize = v.len();
    let ghost cv = json::opt_json(content);
    let mut out = String::new();
    let mut from: usize = 0;
    proof {
        reveal_strlit("{content.");
        assert(out@ + content_filled_from(s@, 0, cv) =~= content_filled(s@, cv));
    }
    loop
        invariant
            v@ == s@,
            n == v@.len(),
            from <= n,
            mark@ == content_mark(),
            mark@.len() == 9,
            forall|k: int| 0 <= k < 9 ==> mark@[k] != '}',
            cv == json::opt_json(content),
            content_filled(s@, cv) == out@ + content_filled_from(s@, from as int, cv),
        ensures
            content_filled(s@, cv) == out@ + s@.skip(from as int),
            from <= n,
        decreases n - from,
    {
        let at: usize = match text::find_chars(&v, &mark, from) {
            Some(at) => at,
            None => {
                break ;
            },
        };
        let mut end: usize = at;
        let ghost tail = s@.skip(at as int);
        while end < n && v[end] != '}'
            invariant
                v@ == s@,
                n == v@.len(),
                at <= end <= n,
                tail == s@.skip(at as int),
                forall|k: int| 0 <= k < end - at ==> tail[k] != '}',
            decreases n - end,
        {
            end = end + 1;
        }
        proof {
            text::lemma_before_char(tail, '}', end - at);
        }
        if end == n {
            break ;
        }
        proof {
            // The closing brace stands behind the mark, which holds none.
            let m = s@.subrange(at as int, at + 9);
            assert(m == mark@);
            assert forall|k: int| 0 <= k < 9 implies tail[k] != '}' by {
                assert(tail[k] == m[k]);
            }
            if end - at < 9 {
                assert(tail[end - at] == '}');
            }
        }
        let before = text::from_chars(&v, from, at);
        let field = text::from_chars(&v, at + 9, end);
        let value = field_value(content, field.as_str());
        let ghost done = out@;
        out.append(before.as_str());
        out.append(value.as_str());
        proof {
            let rest = content_filled_from(s@, end + 1, cv);
            assert(done + (before@ + value@ + rest) =~= out@ + rest);
        }
        from = end + 1;
    }
    let rest = text::from_chars(&v, from, n);
    assert(rest@ =~= s@.skip(from as int));
    out.append(rest.as_str());
    out
}

/// The key that a pattern gives.
pub open spec fn key_text(
    pattern: Seq<char>,
    action_type: Seq<char>,
    issuer: Seq<char>,
    audience: Option<Seq<char>>,
    parent: Option<Seq<char>>,
    subject: Option<Seq<char>>,
    content: Option<JsonView>,
) -> Seq<char> {
    content_filled(
        with_action_fields(pattern, action_type, issuer, audience, parent, subject),
        content,
    )
}

/// Fills in a key pattern, which identifies actions that replace one another.
pub fn apply_key_pattern(
    pattern: &str,
    action_type: &str,
    issuer: &str,
    audience: Option<&str>,
    parent: Option<&str>,
    subject: Option<&str>,
    content: Option<&Json>,
) -> (r: String)
    ensures
        r@ == key_text(
            pattern@,
            action_type@,
            issuer@,
            audience.deep_view(),
            parent.deep_view(),
            subject.deep_view(),
            json::opt_json(content),
        ),
{
    proof {
        reveal_strlit("{type}");
        reveal_strlit("{issuer}");
        reveal_strlit("{audience}");
        reveal_strlit("{parent}");
        reveal_strlit("{subject}");
    }
    let a = text::replace(pattern, "{type}", action_type);
    let b = text::replace(a.as_str(), "{issuer}", issuer);
    let c = text::replace(b.as_str(), "{audience}", or_blank(audience));
    let d = text::replace(c.as_str(), "{parent}", or_blank(parent));
    let e = text::replace(d.as_str(), "{subject}", or_blank(subject));
    fill_content(e.as_str(), content)
}

proof fn lemma_replace_nothing(s: Seq<char>, p: Seq<char>, w: Seq<char>)
    requires
        p.len() >= 2,
        forall|i: int| 0 <= i < s.len() - 1 && #[trigger] s[i] == p[0] ==> s[i + 1] != p[1],
    ensures
        text::replace_all(s, p, w) == s,
    decreases s.len(),
{
    if s.len() > 0 {
        if p.is_prefix_of(s) {
            assert(s[0] == p[0] && s[1] == p[1]);
        }
        let t = s.skip(1);
        assert forall|i: int| 0 <= i < t.len() - 1 && #[trigger] t[i] == p[0] implies t[i + 1]
            != p[1] by {
            assert(s[i + 1] == t[i] && s[i + 2] == t[i + 1]);
        }
        lemma_replace_nothing(t, p, w);
        assert(seq![s[0]] + t =~= s);
    }
}

/// The mark of a content field.
pub open spec fn mark_of(field: Seq<char>) -> Seq<char> {
    content_mark() + field + seq!['}']
}

/// A key pattern that is the mark of a content field gives exactly what the field contributes,
/// whatever that holds: a value that looks like a mark is a value.
pub proof fn law_content_mark_gives_its_field(
    field: Seq<char>,
    action_type: Seq<char>,
    issuer: Seq<char>,
    audience: Option<Seq<char>>,
    parent: Option<Seq<char>>,
    subject: Option<Seq<char>>,
    content: Option<JsonView>,
)
    requires
        !field.contains('{'),
        !field.contains('}'),
    ensures
        key_text(mark_of(field), action_type, issuer, audience, parent, subject, content)
            == field_text(content, field),
{
    reveal_strlit("{content.");
    reveal_strlit("{type}");
    reveal_strlit("{issuer}");
    reveal_strlit("{audience}");
    reveal_strlit("{parent}");
    reveal_strlit("{subject}");
    let s = mark_of(field);
    let n = 9 + field.len() as int;
    assert forall|i: int| 1 <= i < s.len() implies s[i] != '{' by {
        if 9 <= i < n {
            assert(s[i] == field[i - 9]);
        }
    }
    assert(s[1] == 'c');
    lemma_replace_nothing(s, "{type}"@, action_type);
    lemma_replace_nothing(s, "{issuer}"@, issuer);
    lemma_replace_nothing(s, "{audience}"@, or_empty(audience));
    lemma_replace_nothing(s, "{parent}"@, or_empty(parent));
    lemma_replace_nothing(s, "{subject}"@, or_empty(subject));
    reveal_with_fuel(content_filled_from, 2);
    assert(s.subrange(0, 9) =~= content_mark());
    assert(text::find_from(s, content_mark(), 0) == Some(0int));
    assert forall|k: int| 0 <= k < n implies s[k] != '}' by {
        if 9 <= k {
            assert(s[k] == field[k - 9]);
        }
    }
    assert(s.skip(0) =~= s);
    text::lemma_before_char(s, '}', n);
    assert(s.subrange(9, n) =~= field);
    text::lemma_find_from(s, content_mark(), n + 1);
    assert(s.skip(n + 1) =~= Seq::<char>::empty());
    if let Some(at) = text::find_from(s, content_mark(), n + 1) {
        assert(text::occurs_at(s, content_mark(), at));
    }
    assert(s.subrange(0, 0) =~= Seq::<char>::empty());
    assert(content_filled(s, content) =~= field_text(content, field));
}

/// The JSON notation of the content, as it is stored.
pub fn serialize_content(content: Option<&Json>) -> (r: Option<String>)
    ensures
        r.deep_view() == (match json::opt_json(content) {
            Some(v) => Some(json::compact_notation(v)),
            None => None,
        }),
{
    match content {
        Some(v) => Some(json::write_compact(v)),
        None => None,
    }
}

// ---------------------------------------------------------------------------------------------
// Snippets
// ---------------------------------------------------------------------------------------------

/// The prose of an object: the first of `text`, `content` and `title` that is present counts,
/// and contributes its characters where it is a text.
pub open spec fn object_prose(v: JsonView) -> Seq<char> {
    let chosen = if v.member("text"@) is Some {
        v.member("text"@)
    } else if v.member("content"@) is Some {
        v.member("content"@)
    } else {
        v.member("title"@)
    };
    match chosen {
        Some(c) => or_empty(c.as_text()),
        None => Seq::empty(),
    }
}

pub open spec fn prose(content: Option<JsonView>) -> Seq<char> {
    match content {
        Some(JsonView::Text(s)) => s,
        Some(v) => if v is Object {
            object_prose(v)
        } else {
            json::compact_notation(v)
        },
        None => Seq::empty(),
    }
}

/// A text cut off after `n` characters.
pub open spec fn capped(s: Seq<char>, n: int) -> Seq<char> {
    if s.len() > n {
        s.take(n)
    } else {
        s
    }
}

/// The first 200 characters of the content's prose, for a notification.
pub fn content_snippet(content: Option<&Json>) -> (r: String)
    ensures
        r@ == capped(prose(json::opt_json(content)), 200),
{
    let raw: String = match content {
        Some(Json::Text(s)) => s.clone(),
        Some(v) => {
            let is_object = match v {
                Json::Object(_) => true,
                _ => false,
            };
            if is_object {
                let chosen = match v.get("text") {
                    Some(c) => Some(c),
                    None => match v.get("content") {
                        Some(c) => Some(c),
                        None => v.get("title"),
                    },
                };
                match chosen {
                    Some(c) => match c.as_str() {
                        Some(s) => text::owned(s),
                        None => String::new(),
                    },
                    None => String::new(),
                }
            } else {
                json::write_compact(v)
            }
        },
        None => String::new(),
    };
    let n: usize = raw.as_str().unicode_len();
    if n > 200 {
        let head = raw.as_str().substring_char(0, 200);
        proof {
            assert(raw@.subrange(0, 200) =~= raw@.take(200));
        }
        text::owned(head)
    } else {
        raw
    }
}

// ---------------------------------------------------------------------------------------------
// What an action takes over from the actions it refers to
// ---------------------------------------------------------------------------------------------

/// The visibility of an action: its own where it has one, else that of the parent that was
/// found, else that of the action found for a subject that names an action. `parent` and
/// `subject_action` are what the store holds under the action's `parent` and `subject`.
pub fn inherit_visibility(
    visibility: Option<char>,
    parent: Option<&ActionView>,
    subject: Option<&str>,
    subject_action: Option<&ActionView>,
) -> (r: Option<char>)
    ensures
        r == (if visibility is Some {
            visibility
        } else if parent is Some {
            parent->0.visibility
        } else if subject is Some && subject_action is Some && (subject_ref::subject_of(
            subject->0@,
        ) matches Some(SubjectView::Action(_))) {
            subject_action->0.visibility
        } else {
            None
        }),
{
    if visibility.is_some() {
        return visibility;
    }
    if let Some(p) = parent {
        return p.visibility;
    }
    match (subject, subject_action) {
        (Some(s), Some(a)) => {
            if subject_ref::is_action_subject(s) {
                a.visibility
            } else {
                None
            }
        },
        _ => None,
    }
}

/// The audience of an action under a parent: the parent's audience, else the parent's issuer;
/// nothing where no parent was found.
pub fn resolve_parent_audience(parent: Option<&ActionView>) -> (r: Option<String>)
    ensures
        r.deep_view() == (match parent {
            Some(p) => Some(
                match p.audience {
                    Some(a) => a.id_tag@,
                    None => p.issuer.id_tag@,
                },
            ),
            None => None,
        }),
{
    match parent {
        Some(p) => match &p.audience {
            Some(a) => Some(a.id_tag.clone()),
            None => Some(p.issuer.id_tag.clone()),
        },
        None => None,
    }
}

/// The root of the thread that an action under a parent belongs to: the parent's root, else the
/// parent itself; nothing where no parent was found.
pub open spec fn thread_root(
    parent_id: Option<Seq<char>>,
    parent: Option<ActionView>,
) -> Option<Seq<char>> {
    match (parent_id, parent) {
        (Some(id), Some(p)) => match p.root_id {
            Some(root) => Some(root@),
            None => Some(id),
        },
        _ => None,
    }
}

pub open spec fn opt_action(a: Option<&ActionView>) -> Option<ActionView> {
    match a {
        Some(x) => Some(*x),
        None => None,
    }
}

pub fn resolve_root_id(parent_id: Option<&str>, parent: Option<&ActionView>) -> (r: Option<String>)
    ensures
        r.deep_view() == thread_root(parent_id.deep_view(), opt_action(parent)),
{
    match (parent_id, parent) {
        (Some(id), Some(p)) => match &p.root_id {
            Some(root) => Some(root.clone()),
            None => Some(text::owned(id)),
        },
        _ => None,
    }
}

/// All replies in one thread share one root: a reply to an action that itself has a root gets
/// the same root, and a reply to a root gets that root.
pub proof fn law_thread_root_propagates(parent_id: Seq<char>, parent: ActionView)
    ensures
        parent.root_id matches Some(root) ==> thread_root(Some(parent_id), Some(parent)) == Some(
            root@,
        ),
        parent.root_id is None ==> thread_root(Some(parent_id), Some(parent)) == Some(parent_id),
{
}

// ---------------------------------------------------------------------------------------------
// Flags
// ---------------------------------------------------------------------------------------------

fn lower(c: char) -> (r: char)
    ensures
        r == text::ascii_lower(c),
{
    if 'A' <= c && c <= 'Z' {
        ((c as u8) + 32u8) as char
    } else {
        c
    }
}

/// A capability is on unless the flags hold its lower-case letter.
pub open spec fn capability_enabled(flags: Option<Seq<char>>, capability: char) -> bool {
    !(flags is Some && flags->0.contains(text::ascii_lower(capability)))
}

pub fn is_capability_enabled(flags: Option<&str>, capability: char) -> (r: bool)
    ensures
        r == capability_enabled(flags.deep_view(), capability),
{
    match flags {
        Some(f) => !text::contains_char(f, lower(capability)),
        None => true,
    }
}

/// An action is open, so that anyone may subscribe, where its flags hold an `O`.
pub open spec fn open_flag(flags: Option<Seq<char>>) -> bool {
    flags is Some && flags->0.contains('O')
}

pub fn is_open(flags: Option<&str>) -> (r: bool)
    ensures
        r == open_flag(flags.deep_view()),
{
    match flags {
        Some(f) => text::contains_char(f, 'O'),
        None => false,
    }
}

/// The visibility of a new action once its open flag is taken into account.
pub open spec fn open_visibility(flags: Option<Seq<char>>, visibility: Option<char>) -> Option<
    char,
> {
    if open_flag(flags) && visibility != Some('S') {
        Some('C')
    } else {
        visibility
    }
}

/// Open actions become visible to connections, except that subscribers-only is never widened.
pub fn apply_open_flag_visibility(flags: Option<&str>, visibility: Option<char>) -> (r: Option<
    char,
>)
    ensures
        r == open_visibility(flags.deep_view(), visibility),
{
    let subscribed = match visibility {
        Some(c) => c == 'S',
        None => false,
    };
    if is_open(flags) && !subscribed {
        Some('C')
    } else {
        visibility
    }
}

/// The open flag never widens subscribers-only visibility, and taking it into account twice is
/// the same as once.
pub proof fn law_open_flag_visibility(flags: Option<Seq<char>>, visibility: Option<char>)
    ensures
        open_visibility(flags, Some('S')) == Some('S'),
        open_visibility(flags, open_visibility(flags, visibility)) == open_visibility(
            flags,
            visibility,
        ),
        !open_flag(flags) ==> open_visibility(flags, visibility) == visibility,
{
}

// ---------------------------------------------------------------------------------------------
// Roles
// ---------------------------------------------------------------------------------------------

/// The role of a subscriber, from the least to the most authority.
#[derive(Debug, Clone, Copy, PartialEq, Eq, PartialOrd, Ord, Structural)]
pub enum SubscriptionRole {
    Observer,
    Member,
    Moderator,
    Admin,
}

/// The role that a name stands for; an unknown name is an observer.
pub open spec fn role_named(name: Seq<char>) -> SubscriptionRole {
    let n = text::lowercase_of(name);
    if n == "admin"@ {
        SubscriptionRole::Admin
    } else if n == "moderator"@ {
        SubscriptionRole::Moderator
    } else if n == "member"@ {
        SubscriptionRole::Member
    } else {
        SubscriptionRole::Observer
    }
}

/// The role that a lower-case name stands for.
pub fn role_of_lowercase(n: &str) -> (r: SubscriptionRole)
    ensures
        r == (if n@ == "admin"@ {
            SubscriptionRole::Admin
        } else if n@ == "moderator"@ {
            SubscriptionRole::Moderator
        } else if n@ == "member"@ {
            SubscriptionRole::Member
        } else {
            SubscriptionRole::Observer
        }),
{
    if text::same(n, "admin") {
        SubscriptionRole::Admin
    } else if text::same(n, "moderator") {
        SubscriptionRole::Moderator
    } else if text::same(n, "member") {
        SubscriptionRole::Member
    } else {
        SubscriptionRole::Observer
    }
}

/// The least role that an action of the given type and subtype asks for.
pub open spec fn required_role(action_type: Seq<char>, subtype: Option<Seq<char>>) -> SubscriptionRole {
    if (action_type == "SUBS"@ || action_type == "CONV"@) && subtype == Some("UPD"@) {
        SubscriptionRole::Admin
    } else if action_type == "SUBS"@ && subtype == Some("DEL"@) {
        SubscriptionRole::Moderator
    } else if action_type == "INVT"@ {
        SubscriptionRole::Moderator
    } else if action_type == "SUBS"@ && subtype is None {
        SubscriptionRole::Observer
    } else {
        SubscriptionRole::Member
    }
}

impl SubscriptionRole {
    /// The position of the role in the order of authority.
    pub open spec fn rank(self) -> int {
        match self {
            SubscriptionRole::Observer => 0,
            SubscriptionRole::Member => 1,
            SubscriptionRole::Moderator => 2,
            SubscriptionRole::Admin => 3,
        }
    }

    /// The role with the given name, whatever its case.
    pub fn named(name: &str) -> (r: SubscriptionRole)
        ensures
            r == role_named(name@),
    {
        let n = text::to_lowercase(name);
        role_of_lowercase(n.as_str())
    }

    /// Whether this role has at least the authority of `other`.
    pub fn at_least(self, other: SubscriptionRole) -> (r: bool)
        ensures
            r == (self.rank() >= other.rank()),
    {
        match (self, other) {
            (SubscriptionRole::Admin, _) => true,
            (_, SubscriptionRole::Observer) => true,
            (SubscriptionRole::Moderator, SubscriptionRole::Admin) => false,
            (SubscriptionRole::Moderator, _) => true,
            (SubscriptionRole::Member, SubscriptionRole::Member) => true,
            _ => false,
        }
    }

    pub fn required_for_action(action_type: &str, subtype: Option<&str>) -> (r: SubscriptionRole)
        ensures
            r == required_role(action_type@, subtype.deep_view()),
    {
        let subs = text::same(action_type, "SUBS");
        if (subs || text::same(action_type, "CONV")) && text::is_text(subtype, "UPD") {
            SubscriptionRole::Admin
        } else if subs && text::is_text(subtype, "DEL") {
            SubscriptionRole::Moderator
        } else if text::same(action_type, "INVT") {
            SubscriptionRole::Moderator
        } else if subs && subtype.is_none() {
            SubscriptionRole::Observer
        } else {
            SubscriptionRole::Member
        }
    }
}

impl std::str::FromStr for SubscriptionRole {
    type Err = std::convert::Infallible;

    fn from_str(s: &str) -> (r: Result<Self, Self::Err>)
        ensures
            r == Ok::<SubscriptionRole, std::convert::Infallible>(role_named(s@)),
    {
        Ok(SubscriptionRole::named(s))
    }
}

/// The role recorded in a subscription's server-side metadata: a member where none is recorded,
/// an observer where it is not a known one.
pub fn get_subscription_role(x: Option<&Json>) -> (r: SubscriptionRole)
    ensures
        r == (match json::opt_json(x) {
            Some(v) => match v.member("role"@) {
                Some(JsonView::Text(name)) => role_named(name),
                Some(_) => SubscriptionRole::Observer,
                None => SubscriptionRole::Member,
            },
            None => SubscriptionRole::Member,
        }),
{
    match x {
        Some(v) => match v.get("role") {
            Some(Json::Text(name)) => SubscriptionRole::named(name.as_str()),
            Some(_) => SubscriptionRole::Observer,
            None => SubscriptionRole::Member,
        },
        None => SubscriptionRole::Member,
    }
}

/// Every follower but the excluded identity, each once, in the order of first occurrence.
pub fn broadcast_recipient_tags(followers: &Vec<String>, exclude_id_tag: &str) -> (r: Vec<String>)
    ensures
        r.deep_view().no_duplicates(),
        forall|t: Seq<char>| #[trigger]
            r.deep_view().contains(t) <==> followers.deep_view().contains(t) && t
                != exclude_id_tag@,
{
    let mut out: Vec<String> = Vec::new();
    let mut i: usize = 0;
    while i < followers.len()
        invariant
            i <= followers@.len(),
            out.deep_view().no_duplicates(),
            forall|t: Seq<char>| #[trigger]
                out.deep_view().contains(t) <==> followers.deep_view().take(i as int).contains(t)
                    && t != exclude_id_tag@,
        decreases followers@.len() - i,
    {
        let ghost before = out.deep_view();
        let ghost all = followers.deep_view();
        let tag = followers[i].as_str();
        assert(all[i as int] == tag@);
        if !text::same(tag, exclude_id_tag) && !contains_tag(&out, tag) {
            out.push(text::owned(tag));
            assert(out.deep_view() =~= before.push(tag@));
        }
        proof {
            let prev = all.take(i as int);
            let next = all.take(i + 1);
            assert(next =~= prev.push(tag@));
            assert forall|t: Seq<char>|
                #[trigger] out.deep_view().contains(t) <==> next.contains(t) && t
                    != exclude_id_tag@ by {
                lemma_push_contains(prev, tag@, t);
                lemma_push_contains(before, tag@, t);
                assert(before.contains(t) <==> prev.contains(t) && t != exclude_id_tag@);
            }
        }
        i = i + 1;
    }
    assert(followers.deep_view().take(i as int) =~= followers.deep_view());
    out
}

pub proof fn lemma_push_contains<A>(s: Seq<A>, a: A, t: A)
    ensures
        s.push(a).contains(t) <==> s.contains(t) || t == a,
{
    if s.contains(t) {
        let i = choose|i: int| 0 <= i < s.len() && s[i] == t;
        assert(s.push(a)[i] == t);
    }
    if t == a {
        assert(s.push(a)[s.len() as int] == t);
    }
    if s.push(a).contains(t) {
        let i = choose|i: int| 0 <= i < s.push(a).len() && s.push(a)[i] == t;
        if i < s.len() {
            assert(s[i] == t);
        }
    }
}

/// Whether a tag occurs in a list of tags.
pub fn contains_tag(tags: &Vec<String>, tag: &str) -> (r: bool)
    ensures
        r == tags.deep_view().contains(tag@),
{
    let mut i: usize = 0;
    while i < tags.len()
        invariant
            i <= tags@.len(),
            forall|k: int| 0 <= k < i ==> tags.deep_view()[k] != tag@,
        decreases tags@.len() - i,
    {
        if text::same(tags[i].as_str(), tag) {
            assert(tags.deep_view()[i as int] == tag@);
            return true;
        }
        i = i + 1;
    }
    false
}

} // verus!
