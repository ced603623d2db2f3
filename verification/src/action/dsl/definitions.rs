//! The built-in action types.
use crate::action::dsl::types::{
    pair_views, property_views, ActionDefinition, ActionHooks, ActionMetadata, BehaviorFlags,
    BehaviorView, ContentSchema, ContentSchemaWrapper, ContentType, DefinitionView,
    FieldConstraint, FieldConstraints, FieldType, FieldView, HookView, HooksView, PermissionRules,
    SchemaField, SchemaView,
};
use crate::action::hooks::HookImplementation;
use crate::json::{Json, JsonView};
use crate::text;
use vstd::prelude::*;

verus! {

fn list_of_1(a: &str) -> (r: Vec<String>)
    ensures
        r.deep_view() == seq![a@],
{
    let mut v: Vec<String> = Vec::new();
    v.push(text::owned(a));
    assert(v.deep_view() =~= seq![a@]);
    v
}

fn list_of_2(a: &str, b: &str) -> (r: Vec<String>)
    ensures
        r.deep_view() == seq![a@, b@],
{
    let mut v: Vec<String> = Vec::new();
    v.push(text::owned(a));
    v.push(text::owned(b));
    assert(v.deep_view() =~= seq![a@, b@]);
    v
}

fn list_of_3(a: &str, b: &str, c: &str) -> (r: Vec<String>)
    ensures
        r.deep_view() == seq![a@, b@, c@],
{
    let mut v: Vec<String> = Vec::new();
    v.push(text::owned(a));
    v.push(text::owned(b));
    v.push(text::owned(c));
    assert(v.deep_view() =~= seq![a@, b@, c@]);
    v
}

fn list_of_4(a: &str, b: &str, c: &str, d: &str) -> (r: Vec<String>)
    ensures
        r.deep_view() == seq![a@, b@, c@, d@],
{
    let mut v: Vec<String> = Vec::new();
    v.push(text::owned(a));
    v.push(text::owned(b));
    v.push(text::owned(c));
    v.push(text::owned(d));
    assert(v.deep_view() =~= seq![a@, b@, c@, d@]);
    v
}

fn pairs_of_1(a: (&str, &str)) -> (r: Vec<(String, String)>)
    ensures
        pair_views(r@) == seq![(a.0@, a.1@)],
{
    let mut v: Vec<(String, String)> = Vec::new();
    v.push((text::owned(a.0), text::owned(a.1)));
    assert(pair_views(v@) =~= seq![(a.0@, a.1@)]);
    v
}

fn pairs_of_2(a: (&str, &str), b: (&str, &str)) -> (r: Vec<(String, String)>)
    ensures
        pair_views(r@) == seq![(a.0@, a.1@), (b.0@, b.1@)],
{
    let mut v: Vec<(String, String)> = Vec::new();
    v.push((text::owned(a.0), text::owned(a.1)));
    v.push((text::owned(b.0), text::owned(b.1)));
    assert(pair_views(v@) =~= seq![(a.0@, a.1@), (b.0@, b.1@)]);
    v
}

fn pairs_of_4(
    a: (&str, &str),
    b: (&str, &str),
    c: (&str, &str),
    d: (&str, &str),
) -> (r: Vec<(String, String)>)
    ensures
        pair_views(r@) == seq![(a.0@, a.1@), (b.0@, b.1@), (c.0@, c.1@), (d.0@, d.1@)],
{
    let mut v: Vec<(String, String)> = Vec::new();
    v.push((text::owned(a.0), text::owned(a.1)));
    v.push((text::owned(b.0), text::owned(b.1)));
    v.push((text::owned(c.0), text::owned(c.1)));
    v.push((text::owned(d.0), text::owned(d.1)));
    assert(pair_views(v@) =~= seq![(a.0@, a.1@), (b.0@, b.1@), (c.0@, c.1@), (d.0@, d.1@)]);
    v
}

fn pairs_of_7(
    a: (&str, &str),
    b: (&str, &str),
    c: (&str, &str),
    d: (&str, &str),
    e: (&str, &str),
    f: (&str, &str),
    g: (&str, &str),
) -> (r: Vec<(String, String)>)
    ensures
        pair_views(r@) == seq![
            (a.0@, a.1@),
            (b.0@, b.1@),
            (c.0@, c.1@),
            (d.0@, d.1@),
            (e.0@, e.1@),
            (f.0@, f.1@),
            (g.0@, g.1@),
        ],
{
    let mut v: Vec<(String, String)> = Vec::new();
    v.push((text::owned(a.0), text::owned(a.1)));
    v.push((text::owned(b.0), text::owned(b.1)));
    v.push((text::owned(c.0), text::owned(c.1)));
    v.push((text::owned(d.0), text::owned(d.1)));
    v.push((text::owned(e.0), text::owned(e.1)));
    v.push((text::owned(f.0), text::owned(f.1)));
    v.push((text::owned(g.0), text::owned(g.1)));
    assert(
        pair_views(v@) =~= seq![
            (a.0@, a.1@),
            (b.0@, b.1@),
            (c.0@, c.1@),
            (d.0@, d.1@),
            (e.0@, e.1@),
            (f.0@, f.1@),
            (g.0@, g.1@),
        ]
    );
    v
}

fn properties_of_2(
    a: (&str, SchemaField),
    b: (&str, SchemaField),
) -> (r: Vec<(String, SchemaField)>)
    ensures
        property_views(r@) == seq![(a.0@, a.1@), (b.0@, b.1@)],
{
    let mut v: Vec<(String, SchemaField)> = Vec::new();
    v.push((text::owned(a.0), a.1));
    v.push((text::owned(b.0), b.1));
    assert(property_views(v@) =~= seq![(a.0@, a.1@), (b.0@, b.1@)]);
    v
}

fn properties_of_3(
    a: (&str, SchemaField),
    b: (&str, SchemaField),
    c: (&str, SchemaField),
) -> (r: Vec<(String, SchemaField)>)
    ensures
        property_views(r@) == seq![(a.0@, a.1@), (b.0@, b.1@), (c.0@, c.1@)],
{
    let mut v: Vec<(String, SchemaField)> = Vec::new();
    v.push((text::owned(a.0), a.1));
    v.push((text::owned(b.0), b.1));
    v.push((text::owned(c.0), c.1));
    assert(property_views(v@) =~= seq![(a.0@, a.1@), (b.0@, b.1@), (c.0@, c.1@)]);
    v
}

fn properties_of_5(
    a: (&str, SchemaField),
    b: (&str, SchemaField),
    c: (&str, SchemaField),
    d: (&str, SchemaField),
    e: (&str, SchemaField),
) -> (r: Vec<(String, SchemaField)>)
    ensures
        property_views(r@) == seq![
            (a.0@, a.1@),
            (b.0@, b.1@),
            (c.0@, c.1@),
            (d.0@, d.1@),
            (e.0@, e.1@),
        ],
{
    let mut v: Vec<(String, SchemaField)> = Vec::new();
    v.push((text::owned(a.0), a.1));
    v.push((text::owned(b.0), b.1));
    v.push((text::owned(c.0), c.1));
    v.push((text::owned(d.0), d.1));
    v.push((text::owned(e.0), e.1));
    assert(
        property_views(v@) =~= seq![
            (a.0@, a.1@),
            (b.0@, b.1@),
            (c.0@, c.1@),
            (d.0@, d.1@),
            (e.0@, e.1@),
        ]
    );
    v
}

/// The schema of a text property.
pub open spec fn text_property(min: Option<usize>, max: Option<usize>) -> FieldView {
    FieldView {
        field_type: FieldType::Text,
        min_length: min,
        max_length: max,
        allowed: None,
        items: None,
    }
}

fn text_field(min: Option<usize>, max: Option<usize>) -> (r: SchemaField)
    ensures
        r@ == text_property(min, max),
{
    SchemaField {
        field_type: FieldType::Text,
        min_length: min,
        max_length: max,
        allowed: None,
        items: None,
    }
}

/// The schema of a property that is one of a few texts.
pub open spec fn choice_property(
    min: Option<usize>,
    max: Option<usize>,
    allowed: Seq<Seq<char>>,
) -> FieldView {
    FieldView {
        allowed: Some(Seq::new(allowed.len(), |i: int| JsonView::Text(allowed[i]))),
        ..text_property(min, max)
    }
}

fn choice_field(min: Option<usize>, max: Option<usize>, allowed: Vec<String>) -> (r: SchemaField)
    ensures
        r@ == choice_property(min, max, allowed.deep_view()),
{
    let mut v: Vec<Json> = Vec::new();
    let mut i: usize = 0;
    while i < allowed.len()
        invariant
            i <= allowed@.len(),
            v@.len() == i,
            forall|k: int|
                0 <= k < i ==> (#[trigger] v@[k])@ == JsonView::Text(allowed.deep_view()[k]),
        decreases allowed@.len() - i,
    {
        v.push(Json::Text(allowed[i].clone()));
        i = i + 1;
    }
    proof {
        assert(crate::action::dsl::types::all_json(v@) =~= Seq::new(
            allowed.deep_view().len(),
            |i: int| JsonView::Text(allowed.deep_view()[i]),
        ));
    }
    SchemaField {
        field_type: FieldType::Text,
        min_length: min,
        max_length: max,
        allowed: Some(v),
        items: None,
    }
}

/// The schema of a number property.
pub open spec fn number_property() -> FieldView {
    FieldView {
        field_type: FieldType::Number,
        min_length: None,
        max_length: None,
        allowed: None,
        items: None,
    }
}

fn number_field() -> (r: SchemaField)
    ensures
        r@ == number_property(),
{
    SchemaField {
        field_type: FieldType::Number,
        min_length: None,
        max_length: None,
        allowed: None,
        items: None,
    }
}

/// A schema for content that is a text.
pub open spec fn text_schema(
    min: Option<usize>,
    max: Option<usize>,
    description: Seq<char>,
) -> SchemaView {
    SchemaView {
        content_type: ContentType::Text,
        min_length: min,
        max_length: max,
        pattern: None,
        allowed: None,
        properties: None,
        required: None,
        description: Some(description),
    }
}

fn text_content(min: Option<usize>, max: Option<usize>, description: &str) -> (r: ContentSchema)
    ensures
        r@ == text_schema(min, max, description@),
{
    ContentSchema {
        content_type: ContentType::Text,
        min_length: min,
        max_length: max,
        pattern: None,
        allowed: None,
        properties: None,
        required: None,
        description: Some(text::owned(description)),
    }
}

/// A schema for content that is an object.
pub open spec fn object_schema(
    properties: Option<Seq<(Seq<char>, FieldView)>>,
    required: Option<Seq<Seq<char>>>,
    description: Seq<char>,
) -> SchemaView {
    SchemaView {
        content_type: ContentType::Object,
        min_length: None,
        max_length: None,
        pattern: None,
        allowed: None,
        properties,
        required,
        description: Some(description),
    }
}

fn object_content(
    properties: Option<Vec<(String, SchemaField)>>,
    required: Option<Vec<String>>,
    description: &str,
) -> (r: ContentSchema)
    ensures
        r@ == object_schema(
            match properties {
                Some(p) => Some(property_views(p@)),
                None => None,
            },
            match required {
                Some(v) => Some(v.deep_view()),
                None => None,
            },
            description@,
        ),
{
    ContentSchema {
        content_type: ContentType::Object,
        min_length: None,
        max_length: None,
        pattern: None,
        allowed: None,
        properties,
        required,
        description: Some(text::owned(description)),
    }
}

/// A behaviour with every flag absent.
pub open spec fn no_behavior() -> BehaviorView {
    BehaviorView {
        broadcast: None,
        allow_unknown: None,
        requires_acceptance: None,
        approvable: None,
        requires_subscription: None,
        ephemeral: None,
        ttl: None,
        default_flags: None,
        subscribable: None,
        deliver_subject: None,
        deliver_to_subject_owner: None,
        relay_children: None,
        gated_by_parent_flag: None,
        gated_by_subject_flag: None,
    }
}

impl Default for BehaviorFlags {
    fn default() -> (r: Self)
        ensures
            r@ == no_behavior(),
    {
        BehaviorFlags {
            broadcast: None,
            allow_unknown: None,
            requires_acceptance: None,
            approvable: None,
            requires_subscription: None,
            ephemeral: None,
            ttl: None,
            default_flags: None,
            subscribable: None,
            deliver_subject: None,
            deliver_to_subject_owner: None,
            relay_children: None,
            gated_by_parent_flag: None,
            gated_by_subject_flag: None,
        }
    }
}

/// The three flags that every built-in type sets.
pub open spec fn basic_behavior(
    broadcast: bool,
    allow_unknown: bool,
    acceptance: bool,
) -> BehaviorView {
    BehaviorView {
        broadcast: Some(broadcast),
        allow_unknown: Some(allow_unknown),
        requires_acceptance: Some(acceptance),
        ..no_behavior()
    }
}

fn behavior(broadcast: bool, allow_unknown: bool, acceptance: bool) -> (r: BehaviorFlags)
    ensures
        r@ == basic_behavior(broadcast, allow_unknown, acceptance),
{
    let mut b = BehaviorFlags::default();
    b.broadcast = Some(broadcast);
    b.allow_unknown = Some(allow_unknown);
    b.requires_acceptance = Some(acceptance);
    b
}

/// What the built-in types have in common: the first version, nothing of their hooks in the
/// definition, and creation by anybody who is signed in.
pub open spec fn built_in(
    typ: Seq<char>,
    description: Seq<char>,
    category: Seq<char>,
    tags: Seq<Seq<char>>,
    can_receive: Seq<char>,
    requires_connected: bool,
    fields: FieldConstraints,
    behavior: BehaviorView,
) -> DefinitionView {
    DefinitionView {
        typ,
        version: "1.0"@,
        description,
        metadata_given: true,
        category: Some(category),
        tags: Some(tags),
        deprecated: None,
        experimental: None,
        subtypes: None,
        fields,
        schema_given: false,
        schema: None,
        behavior,
        hooks: HooksView {
            on_create: HookView::Absent,
            on_receive: HookView::Absent,
            on_accept: HookView::Absent,
            on_reject: HookView::Absent,
        },
        permissions_given: true,
        can_create: Some("authenticated"@),
        can_receive: Some(can_receive),
        requires_following: Some(false),
        requires_connected: Some(requires_connected),
        key_pattern: None,
    }
}

fn define(
    typ: &str,
    description: &str,
    category: &str,
    tags: Vec<String>,
    can_receive: &str,
    requires_connected: bool,
    fields: FieldConstraints,
    behavior: BehaviorFlags,
) -> (r: ActionDefinition)
    ensures
        r@ == built_in(
            typ@,
            description@,
            category@,
            tags.deep_view(),
            can_receive@,
            requires_connected,
            fields,
            behavior@,
        ),
{
    ActionDefinition {
        typ: text::owned(typ),
        version: text::owned("1.0"),
        description: text::owned(description),
        metadata: Some(
            ActionMetadata {
                category: Some(text::owned(category)),
                tags: Some(tags),
                deprecated: None,
                experimental: None,
            },
        ),
        subtypes: None,
        fields,
        schema: None,
        behavior,
        hooks: ActionHooks {
            on_create: HookImplementation::Absent,
            on_receive: HookImplementation::Absent,
            on_accept: HookImplementation::Absent,
            on_reject: HookImplementation::Absent,
        },
        permissions: Some(
            PermissionRules {
                can_create: Some(text::owned("authenticated")),
                can_receive: Some(text::owned(can_receive)),
                requires_following: Some(false),
                requires_connected: Some(requires_connected),
            },
        ),
        key_pattern: None,
    }
}

/// `CONN`: Establish a connection in both directions.
pub open spec fn connection_type() -> DefinitionView {
    DefinitionView {
        subtypes: Some(seq![("DEL"@, "Remove existing connection"@)]),
        schema_given: true,
        schema: Some(text_schema(None, Some(500), "Optional connection message"@)),
        key_pattern: Some("{type}:{issuer}:{audience}"@),
        ..built_in(
            "CONN"@,
            "Establish bidirectional connection between users"@,
            "social"@,
            seq!["connection"@, "relationship"@],
            "any"@,
            false,
            FieldConstraints {
                content: None,
                audience: Some(FieldConstraint::Required),
                parent: Some(FieldConstraint::Forbidden),
                attachments: Some(FieldConstraint::Forbidden),
                subject: Some(FieldConstraint::Forbidden),
            },
            basic_behavior(false, true, false),
        )
    }
}

pub fn connection_definition() -> (r: ActionDefinition)
    ensures
        r@ == connection_type(),
{
    let mut d = define(
        "CONN",
        "Establish bidirectional connection between users",
        "social",
        list_of_2("connection", "relationship"),
        "any",
        false,
        FieldConstraints {
            content: None,
            audience: Some(FieldConstraint::Required),
            parent: Some(FieldConstraint::Forbidden),
            attachments: Some(FieldConstraint::Forbidden),
            subject: Some(FieldConstraint::Forbidden),
        },
        behavior(false, true, false),
    );
    d.subtypes = Some(pairs_of_1(("DEL", "Remove existing connection")));
    d.schema = Some(
        ContentSchemaWrapper {
            content: Some(text_content(None, Some(500), "Optional connection message")),
        },
    );
    d.key_pattern = Some(text::owned("{type}:{issuer}:{audience}"));
    d
}

/// `FLLW`: Follow in one direction.
pub open spec fn follow_type() -> DefinitionView {
    DefinitionView {
        subtypes: Some(seq![("DEL"@, "Unfollow"@)]),
        schema_given: true,
        schema: Some(text_schema(None, Some(500), "Optional follow message"@)),
        key_pattern: Some("{type}:{issuer}:{audience}"@),
        ..built_in(
            "FLLW"@,
            "One-way follow relationship"@,
            "social"@,
            seq!["follow"@, "subscription"@],
            "any"@,
            false,
            FieldConstraints {
                content: None,
                audience: Some(FieldConstraint::Required),
                parent: Some(FieldConstraint::Forbidden),
                attachments: Some(FieldConstraint::Forbidden),
                subject: Some(FieldConstraint::Forbidden),
            },
            basic_behavior(false, true, false),
        )
    }
}

pub fn follow_definition() -> (r: ActionDefinition)
    ensures
        r@ == follow_type(),
{
    let mut d = define(
        "FLLW",
        "One-way follow relationship",
        "social",
        list_of_2("follow", "subscription"),
        "any",
        false,
        FieldConstraints {
            content: None,
            audience: Some(FieldConstraint::Required),
            parent: Some(FieldConstraint::Forbidden),
            attachments: Some(FieldConstraint::Forbidden),
            subject: Some(FieldConstraint::Forbidden),
        },
        behavior(false, true, false),
    );
    d.subtypes = Some(pairs_of_1(("DEL", "Unfollow")));
    d.schema = Some(
        ContentSchemaWrapper {
            content: Some(text_content(None, Some(500), "Optional follow message")),
        },
    );
    d.key_pattern = Some(text::owned("{type}:{issuer}:{audience}"));
    d
}

/// `POST`: A post to the followers.
pub open spec fn post_type() -> DefinitionView {
    DefinitionView {
        subtypes: Some(
            seq![
                ("TEXT"@, "Text post"@),
                ("IMG"@, "Image post"@),
                ("VID"@, "Video post"@),
                ("DEL"@, "Delete post"@),
            ],
        ),
        schema_given: true,
        schema: Some(text_schema(Some(1), Some(50000), "Post content"@)),
        ..built_in(
            "POST"@,
            "Broadcast post to followers"@,
            "content"@,
            seq!["post"@, "broadcast"@, "content"@],
            "followers"@,
            false,
            FieldConstraints {
                content: Some(FieldConstraint::Required),
                audience: None,
                parent: None,
                attachments: None,
                subject: None,
            },
            BehaviorView { approvable: Some(true), ..basic_behavior(true, false, false) },
        )
    }
}

pub fn post_definition() -> (r: ActionDefinition)
    ensures
        r@ == post_type(),
{
    let mut flags = behavior(true, false, false);
    flags.approvable = Some(true);
    let mut d = define(
        "POST",
        "Broadcast post to followers",
        "content",
        list_of_3("post", "broadcast", "content"),
        "followers",
        false,
        FieldConstraints {
            content: Some(FieldConstraint::Required),
            audience: None,
            parent: None,
            attachments: None,
            subject: None,
        },
        flags,
    );
    d.subtypes = Some(
        pairs_of_4(
            ("TEXT", "Text post"),
            ("IMG", "Image post"),
            ("VID", "Video post"),
            ("DEL", "Delete post"),
        ),
    );
    d.schema = Some(
        ContentSchemaWrapper { content: Some(text_content(Some(1), Some(50000), "Post content")) },
    );
    d
}

/// `REACT`: A reaction; one per issuer and subject.
pub open spec fn react_type() -> DefinitionView {
    DefinitionView {
        subtypes: Some(
            seq![
                ("LIKE"@, "Like reaction"@),
                ("LOVE"@, "Love reaction"@),
                ("LAUGH"@, "Laugh reaction"@),
                ("WOW"@, "Wow reaction"@),
                ("SAD"@, "Sad reaction"@),
                ("ANGRY"@, "Angry reaction"@),
                ("DEL"@, "Remove reaction"@),
            ],
        ),
        key_pattern: Some("{type}:{subject}:{issuer}"@),
        ..built_in(
            "REACT"@,
            "React to posts and comments"@,
            "interaction"@,
            seq!["reaction"@, "like"@],
            "any"@,
            false,
            FieldConstraints {
                content: Some(FieldConstraint::Forbidden),
                audience: None,
                parent: Some(FieldConstraint::Forbidden),
                attachments: None,
                subject: Some(FieldConstraint::Required),
            },
            basic_behavior(false, true, false),
        )
    }
}

pub fn react_definition() -> (r: ActionDefinition)
    ensures
        r@ == react_type(),
{
    let mut d = define(
        "REACT",
        "React to posts and comments",
        "interaction",
        list_of_2("reaction", "like"),
        "any",
        false,
        FieldConstraints {
            content: Some(FieldConstraint::Forbidden),
            audience: None,
            parent: Some(FieldConstraint::Forbidden),
            attachments: None,
            subject: Some(FieldConstraint::Required),
        },
        behavior(false, true, false),
    );
    d.subtypes = Some(
        pairs_of_7(
            ("LIKE", "Like reaction"),
            ("LOVE", "Love reaction"),
            ("LAUGH", "Laugh reaction"),
            ("WOW", "Wow reaction"),
            ("SAD", "Sad reaction"),
            ("ANGRY", "Angry reaction"),
            ("DEL", "Remove reaction"),
        ),
    );
    d.key_pattern = Some(text::owned("{type}:{subject}:{issuer}"));
    d
}

/// `CMNT`: A comment under a parent.
pub open spec fn comment_type() -> DefinitionView {
    DefinitionView {
        subtypes: Some(seq![("DEL"@, "Delete comment"@)]),
        schema_given: true,
        schema: Some(text_schema(Some(1), Some(10000), "Comment content"@)),
        ..built_in(
            "CMNT"@,
            "Comment on posts and other comments"@,
            "interaction"@,
            seq!["comment"@, "reply"@],
            "any"@,
            false,
            FieldConstraints {
                content: Some(FieldConstraint::Required),
                audience: None,
                parent: Some(FieldConstraint::Required),
                attachments: None,
                subject: None,
            },
            basic_behavior(false, true, false),
        )
    }
}

pub fn comment_definition() -> (r: ActionDefinition)
    ensures
        r@ == comment_type(),
{
    let mut d = define(
        "CMNT",
        "Comment on posts and other comments",
        "interaction",
        list_of_2("comment", "reply"),
        "any",
        false,
        FieldConstraints {
            content: Some(FieldConstraint::Required),
            audience: None,
            parent: Some(FieldConstraint::Required),
            attachments: None,
            subject: None,
        },
        behavior(false, true, false),
    );
    d.subtypes = Some(pairs_of_1(("DEL", "Delete comment")));
    d.schema = Some(
        ContentSchemaWrapper {
            content: Some(text_content(Some(1), Some(10000), "Comment content")),
        },
    );
    d
}

/// `MSG`: A message, direct or in a conversation.
pub open spec fn message_type() -> DefinitionView {
    DefinitionView {
        subtypes: Some(seq![("DEL"@, "Delete message"@)]),
        schema_given: true,
        schema: Some(text_schema(Some(1), Some(50000), "Message content"@)),
        ..built_in(
            "MSG"@,
            "Direct message to another user or within a conversation"@,
            "communication"@,
            seq!["message"@, "dm"@, "direct"@, "conversation"@],
            "authenticated"@,
            false,
            FieldConstraints {
                content: Some(FieldConstraint::Required),
                audience: None,
                parent: None,
                attachments: None,
                subject: None,
            },
            BehaviorView {
                approvable: Some(true),
                requires_subscription: Some(true),
                ..basic_behavior(false, false, false)
            },
        )
    }
}

pub fn message_definition() -> (r: ActionDefinition)
    ensures
        r@ == message_type(),
{
    let mut flags = behavior(false, false, false);
    flags.approvable = Some(true);
    flags.requires_subscription = Some(true);
    let mut d = define(
        "MSG",
        "Direct message to another user or within a conversation",
        "communication",
        list_of_4("message", "dm", "direct", "conversation"),
        "authenticated",
        false,
        FieldConstraints {
            content: Some(FieldConstraint::Required),
            audience: None,
            parent: None,
            attachments: None,
            subject: None,
        },
        flags,
    );
    d.subtypes = Some(pairs_of_1(("DEL", "Delete message")));
    d.schema = Some(
        ContentSchemaWrapper {
            content: Some(text_content(Some(1), Some(50000), "Message content")),
        },
    );
    d
}

/// `REPOST`: A repost to the followers.
pub open spec fn repost_type() -> DefinitionView {
    DefinitionView {
        subtypes: Some(seq![("DEL"@, "Delete repost"@)]),
        schema_given: true,
        schema: Some(text_schema(None, Some(1000), "Optional comment on repost"@)),
        ..built_in(
            "REPOST"@,
            "Repost another action to your followers"@,
            "content"@,
            seq!["repost"@, "share"@, "broadcast"@],
            "followers"@,
            false,
            FieldConstraints {
                content: None,
                audience: None,
                parent: Some(FieldConstraint::Required),
                attachments: Some(FieldConstraint::Forbidden),
                subject: Some(FieldConstraint::Forbidden),
            },
            BehaviorView { approvable: Some(true), ..basic_behavior(true, false, false) },
        )
    }
}

pub fn repost_definition() -> (r: ActionDefinition)
    ensures
        r@ == repost_type(),
{
    let mut flags = behavior(true, false, false);
    flags.approvable = Some(true);
    let mut d = define(
        "REPOST",
        "Repost another action to your followers",
        "content",
        list_of_3("repost", "share", "broadcast"),
        "followers",
        false,
        FieldConstraints {
            content: None,
            audience: None,
            parent: Some(FieldConstraint::Required),
            attachments: Some(FieldConstraint::Forbidden),
            subject: Some(FieldConstraint::Forbidden),
        },
        flags,
    );
    d.subtypes = Some(pairs_of_1(("DEL", "Delete repost")));
    d.schema = Some(
        ContentSchemaWrapper {
            content: Some(text_content(None, Some(1000), "Optional comment on repost")),
        },
    );
    d
}

/// `APRV`: An approval, which lets an action spread further.
pub open spec fn aprv_type() -> DefinitionView {
    built_in(
        "APRV"@,
        "Approve an action for federation to user's network"@,
        "system"@,
        seq!["approval"@, "trust"@, "federation"@],
        "any"@,
        false,
        FieldConstraints {
            content: Some(FieldConstraint::Forbidden),
            audience: Some(FieldConstraint::Required),
            parent: None,
            attachments: Some(FieldConstraint::Forbidden),
            subject: Some(FieldConstraint::Required),
        },
        basic_behavior(true, false, false),
    )
}

pub fn aprv_definition() -> (r: ActionDefinition)
    ensures
        r@ == aprv_type(),
{
    let d = define(
        "APRV",
        "Approve an action for federation to user's network",
        "system",
        list_of_3("approval", "trust", "federation"),
        "any",
        false,
        FieldConstraints {
            content: Some(FieldConstraint::Forbidden),
            audience: Some(FieldConstraint::Required),
            parent: None,
            attachments: Some(FieldConstraint::Forbidden),
            subject: Some(FieldConstraint::Required),
        },
        behavior(true, false, false),
    );
    d
}

/// `STAT`: The counters of an action.
pub open spec fn stat_type() -> DefinitionView {
    DefinitionView {
        schema_given: true,
        schema: Some(object_schema(None, None, "Action statistics"@)),
        key_pattern: Some("{type}:{parent}"@),
        ..built_in(
            "STAT"@,
            "Statistics update for an action (reactions, comments)"@,
            "system"@,
            seq!["statistics"@, "counters"@],
            "any"@,
            false,
            FieldConstraints {
                content: Some(FieldConstraint::Required),
                audience: None,
                parent: Some(FieldConstraint::Required),
                attachments: Some(FieldConstraint::Forbidden),
                subject: None,
            },
            basic_behavior(true, false, false),
        )
    }
}

pub fn stat_definition() -> (r: ActionDefinition)
    ensures
        r@ == stat_type(),
{
    let mut d = define(
        "STAT",
        "Statistics update for an action (reactions, comments)",
        "system",
        list_of_2("statistics", "counters"),
        "any",
        false,
        FieldConstraints {
            content: Some(FieldConstraint::Required),
            audience: None,
            parent: Some(FieldConstraint::Required),
            attachments: Some(FieldConstraint::Forbidden),
            subject: None,
        },
        behavior(true, false, false),
    );
    d.schema = Some(
        ContentSchemaWrapper { content: Some(object_content(None, None, "Action statistics")) },
    );
    d.key_pattern = Some(text::owned("{type}:{parent}"));
    d
}

/// `IDP:REG`: A registration with an identity provider.
pub open spec fn idp_reg_type() -> DefinitionView {
    DefinitionView {
        schema_given: true,
        schema: Some(
            object_schema(
                Some(
                    seq![
                        ("id_tag"@, text_property(Some(1), Some(255))),
                        ("email"@, text_property(None, Some(255))),
                        ("owner_id_tag"@, text_property(None, Some(255))),
                        ("issuer"@, choice_property(None, Some(20), seq!["registrar"@, "owner"@])),
                        ("expires_at"@, number_property()),
                    ],
                ),
                Some(seq!["id_tag"@]),
                "Identity registration content with id_tag, optional email/owner, and expiration"@,
            ),
        ),
        key_pattern: Some("{type}:{issuer}:{audience}:{content.id_tag}"@),
        ..built_in(
            "IDP:REG"@,
            "Identity provider registration request - creates a new identity on the receiving IdP instance"@,
            "identity-provider"@,
            seq!["registration"@, "identity"@, "federation"@],
            "any"@,
            false,
            FieldConstraints {
                content: Some(FieldConstraint::Required),
                audience: Some(FieldConstraint::Required),
                parent: Some(FieldConstraint::Forbidden),
                attachments: Some(FieldConstraint::Forbidden),
                subject: Some(FieldConstraint::Forbidden),
            },
            basic_behavior(false, true, false),
        )
    }
}

pub fn idp_reg_definition() -> (r: ActionDefinition)
    ensures
        r@ == idp_reg_type(),
{
    let mut d = define(
        "IDP:REG",
        "Identity provider registration request - creates a new identity on the receiving IdP instance",
        "identity-provider",
        list_of_3("registration", "identity", "federation"),
        "any",
        false,
        FieldConstraints {
            content: Some(FieldConstraint::Required),
            audience: Some(FieldConstraint::Required),
            parent: Some(FieldConstraint::Forbidden),
            attachments: Some(FieldConstraint::Forbidden),
            subject: Some(FieldConstraint::Forbidden),
        },
        behavior(false, true, false),
    );
    d.schema = Some(
        ContentSchemaWrapper {
            content: Some(
                object_content(
                    Some(
                        properties_of_5(
                            ("id_tag", text_field(Some(1), Some(255))),
                            ("email", text_field(None, Some(255))),
                            ("owner_id_tag", text_field(None, Some(255))),
                            (
                                "issuer",
                                choice_field(None, Some(20), list_of_2("registrar", "owner")),
                            ),
                            ("expires_at", number_field()),
                        ),
                    ),
                    Some(list_of_1("id_tag")),
                    "Identity registration content with id_tag, optional email/owner, and expiration",
                ),
            ),
        },
    );
    d.key_pattern = Some(text::owned("{type}:{issuer}:{audience}:{content.id_tag}"));
    d
}

/// `FSHR`: A file shared with somebody.
pub open spec fn fileshare_type() -> DefinitionView {
    DefinitionView {
        subtypes: Some(seq![("DEL"@, "Revoke file share"@), ("WRITE"@, "Grant write permission"@)]),
        schema_given: true,
        schema: Some(
            object_schema(
                Some(
                    seq![
                        ("contentType"@, text_property(Some(1), Some(255))),
                        ("fileName"@, text_property(Some(1), Some(255))),
                        (
                            "fileTp"@,
                            choice_property(Some(1), Some(10), seq!["BLOB"@, "CRDT"@, "RTDB"@]),
                        ),
                    ],
                ),
                Some(seq!["contentType"@, "fileName"@, "fileTp"@]),
                "File share content with contentType, fileName, and fileTp"@,
            ),
        ),
        key_pattern: Some("{type}:{subject}:{audience}"@),
        ..built_in(
            "FSHR"@,
            "Share a file with another user"@,
            "file"@,
            seq!["file"@, "share"@],
            "any"@,
            false,
            FieldConstraints {
                content: Some(FieldConstraint::Required),
                audience: Some(FieldConstraint::Required),
                parent: Some(FieldConstraint::Forbidden),
                attachments: Some(FieldConstraint::Forbidden),
                subject: Some(FieldConstraint::Required),
            },
            basic_behavior(false, false, true),
        )
    }
}

pub fn fileshare_definition() -> (r: ActionDefinition)
    ensures
        r@ == fileshare_type(),
{
    let mut d = define(
        "FSHR",
        "Share a file with another user",
        "file",
        list_of_2("file", "share"),
        "any",
        false,
        FieldConstraints {
            content: Some(FieldConstraint::Required),
            audience: Some(FieldConstraint::Required),
            parent: Some(FieldConstraint::Forbidden),
            attachments: Some(FieldConstraint::Forbidden),
            subject: Some(FieldConstraint::Required),
        },
        behavior(false, false, true),
    );
    d.subtypes = Some(
        pairs_of_2(("DEL", "Revoke file share"), ("WRITE", "Grant write permission")),
    );
    d.schema = Some(
        ContentSchemaWrapper {
            content: Some(
                object_content(
                    Some(
                        properties_of_3(
                            ("contentType", text_field(Some(1), Some(255))),
                            ("fileName", text_field(Some(1), Some(255))),
                            (
                                "fileTp",
                                choice_field(Some(1), Some(10), list_of_3("BLOB", "CRDT", "RTDB")),
                            ),
                        ),
                    ),
                    Some(list_of_3("contentType", "fileName", "fileTp")),
                    "File share content with contentType, fileName, and fileTp",
                ),
            ),
        },
    );
    d.key_pattern = Some(text::owned("{type}:{subject}:{audience}"));
    d
}

/// `PRES`: A sign of presence, which is not stored.
pub open spec fn pres_type() -> DefinitionView {
    DefinitionView {
        subtypes: Some(
            seq![
                ("TYPING"@, "User is typing"@),
                ("ONLINE"@, "User is online"@),
                ("AWAY"@, "User is away"@),
                ("OFFLINE"@, "User went offline"@),
            ],
        ),
        schema_given: true,
        schema: Some(object_schema(None, None, "Optional presence metadata"@)),
        ..built_in(
            "PRES"@,
            "Presence indication - ephemeral, not persisted"@,
            "ephemeral"@,
            seq!["presence"@, "typing"@, "status"@],
            "any"@,
            false,
            FieldConstraints {
                content: None,
                audience: None,
                parent: None,
                attachments: Some(FieldConstraint::Forbidden),
                subject: Some(FieldConstraint::Required),
            },
            BehaviorView {
                ephemeral: Some(true),
                ttl: Some(30),
                ..basic_behavior(false, true, false)
            },
        )
    }
}

pub fn pres_definition() -> (r: ActionDefinition)
    ensures
        r@ == pres_type(),
{
    let mut flags = behavior(false, true, false);
    flags.ephemeral = Some(true);
    flags.ttl = Some(30);
    let mut d = define(
        "PRES",
        "Presence indication - ephemeral, not persisted",
        "ephemeral",
        list_of_3("presence", "typing", "status"),
        "any",
        false,
        FieldConstraints {
            content: None,
            audience: None,
            parent: None,
            attachments: Some(FieldConstraint::Forbidden),
            subject: Some(FieldConstraint::Required),
        },
        flags,
    );
    d.subtypes = Some(
        pairs_of_4(
            ("TYPING", "User is typing"),
            ("ONLINE", "User is online"),
            ("AWAY", "User is away"),
            ("OFFLINE", "User went offline"),
        ),
    );
    d.schema = Some(
        ContentSchemaWrapper {
            content: Some(object_content(None, None, "Optional presence metadata")),
        },
    );
    d
}

/// `SUBS`: A subscription; one per issuer and subject.
pub open spec fn subs_type() -> DefinitionView {
    DefinitionView {
        subtypes: Some(
            seq![
                ("UPD"@, "Update subscription (role change, preferences)"@),
                ("DEL"@, "Unsubscribe / leave"@),
            ],
        ),
        schema_given: true,
        schema: Some(
            object_schema(
                Some(
                    seq![
                        (
                            "role"@,
                            choice_property(
                                None,
                                Some(20),
                                seq!["observer"@, "member"@, "moderator"@, "admin"@],
                            ),
                        ),
                        ("invitedBy"@, text_property(None, Some(255))),
                        ("message"@, text_property(None, Some(500))),
                    ],
                ),
                None,
                "Subscription content with role, invitedBy, and optional message"@,
            ),
        ),
        key_pattern: Some("{type}:{subject}:{issuer}"@),
        ..built_in(
            "SUBS"@,
            "Subscribe to an action's updates"@,
            "subscription"@,
            seq!["subscribe"@, "membership"@, "follow"@],
            "any"@,
            false,
            FieldConstraints {
                content: None,
                audience: Some(FieldConstraint::Required),
                parent: Some(FieldConstraint::Forbidden),
                attachments: Some(FieldConstraint::Forbidden),
                subject: Some(FieldConstraint::Required),
            },
            BehaviorView {
                requires_subscription: Some(false),
                ..basic_behavior(false, true, false)
            },
        )
    }
}

pub fn subs_definition() -> (r: ActionDefinition)
    ensures
        r@ == subs_type(),
{
    let mut flags = behavior(false, true, false);
    flags.requires_subscription = Some(false);
    let mut d = define(
        "SUBS",
        "Subscribe to an action's updates",
        "subscription",
        list_of_3("subscribe", "membership", "follow"),
        "any",
        false,
        FieldConstraints {
            content: None,
            audience: Some(FieldConstraint::Required),
            parent: Some(FieldConstraint::Forbidden),
            attachments: Some(FieldConstraint::Forbidden),
            subject: Some(FieldConstraint::Required),
        },
        flags,
    );
    d.subtypes = Some(
        pairs_of_2(
            ("UPD", "Update subscription (role change, preferences)"),
            ("DEL", "Unsubscribe / leave"),
        ),
    );
    d.schema = Some(
        ContentSchemaWrapper {
            content: Some(
                object_content(
                    Some(
                        properties_of_3(
                            (
                                "role",
                                choice_field(
                                    None,
                                    Some(20),
                                    list_of_4("observer", "member", "moderator", "admin"),
                                ),
                            ),
                            ("invitedBy", text_field(None, Some(255))),
                            ("message", text_field(None, Some(500))),
                        ),
                    ),
                    None,
                    "Subscription content with role, invitedBy, and optional message",
                ),
            ),
        },
    );
    d.key_pattern = Some(text::owned("{type}:{subject}:{issuer}"));
    d
}

/// `CONV`: A conversation.
pub open spec fn conv_type() -> DefinitionView {
    DefinitionView {
        subtypes: Some(
            seq![
                ("UPD"@, "Update conversation settings"@),
                ("DEL"@, "Archive/delete conversation"@),
            ],
        ),
        schema_given: true,
        schema: Some(
            object_schema(
                Some(
                    seq![
                        ("name"@, text_property(Some(1), Some(100))),
                        ("description"@, text_property(None, Some(500))),
                    ],
                ),
                Some(seq!["name"@]),
                "Conversation settings with name and optional description"@,
            ),
        ),
        ..built_in(
            "CONV"@,
            "Create a conversation for group messaging"@,
            "communication"@,
            seq!["conversation"@, "group"@, "messaging"@],
            "any"@,
            false,
            FieldConstraints {
                content: Some(FieldConstraint::Required),
                audience: None,
                parent: Some(FieldConstraint::Forbidden),
                attachments: None,
                subject: Some(FieldConstraint::Forbidden),
            },
            BehaviorView {
                requires_subscription: Some(false),
                default_flags: Some("rco"@),
                subscribable: Some(true),
                ..basic_behavior(false, false, false)
            },
        )
    }
}

pub fn conv_definition() -> (r: ActionDefinition)
    ensures
        r@ == conv_type(),
{
    let mut flags = behavior(false, false, false);
    flags.requires_subscription = Some(false);
    flags.default_flags = Some(text::owned("rco"));
    flags.subscribable = Some(true);
    let mut d = define(
        "CONV",
        "Create a conversation for group messaging",
        "communication",
        list_of_3("conversation", "group", "messaging"),
        "any",
        false,
        FieldConstraints {
            content: Some(FieldConstraint::Required),
            audience: None,
            parent: Some(FieldConstraint::Forbidden),
            attachments: None,
            subject: Some(FieldConstraint::Forbidden),
        },
        flags,
    );
    d.subtypes = Some(
        pairs_of_2(("UPD", "Update conversation settings"), ("DEL", "Archive/delete conversation")),
    );
    d.schema = Some(
        ContentSchemaWrapper {
            content: Some(
                object_content(
                    Some(
                        properties_of_2(
                            ("name", text_field(Some(1), Some(100))),
                            ("description", text_field(None, Some(500))),
                        ),
                    ),
                    Some(list_of_1("name")),
                    "Conversation settings with name and optional description",
                ),
            ),
        },
    );
    d
}

/// `INVT`: An invitation; one per invitee and subject.
pub open spec fn invt_type() -> DefinitionView {
    DefinitionView {
        subtypes: Some(seq![("DEL"@, "Revoke invitation"@)]),
        schema_given: true,
        schema: Some(
            object_schema(
                Some(
                    seq![
                        (
                            "role"@,
                            choice_property(
                                None,
                                Some(20),
                                seq!["observer"@, "member"@, "moderator"@, "admin"@],
                            ),
                        ),
                        ("message"@, text_property(None, Some(500))),
                    ],
                ),
                None,
                "Invitation content with optional role and message"@,
            ),
        ),
        key_pattern: Some("{type}:{subject}:{audience}"@),
        ..built_in(
            "INVT"@,
            "Invite a user to subscribe to an action"@,
            "invitation"@,
            seq!["invite"@, "subscription"@, "conversation"@],
            "any"@,
            false,
            FieldConstraints {
                content: None,
                audience: Some(FieldConstraint::Required),
                parent: Some(FieldConstraint::Forbidden),
                attachments: Some(FieldConstraint::Forbidden),
                subject: Some(FieldConstraint::Required),
            },
            BehaviorView {
                requires_subscription: Some(false),
                deliver_subject: Some(true),
                deliver_to_subject_owner: Some(true),
                ..basic_behavior(false, false, false)
            },
        )
    }
}

pub fn invt_definition() -> (r: ActionDefinition)
    ensures
        r@ == invt_type(),
{
    let mut flags = behavior(false, false, false);
    flags.requires_subscription = Some(false);
    flags.deliver_subject = Some(true);
    flags.deliver_to_subject_owner = Some(true);
    let mut d = define(
        "INVT",
        "Invite a user to subscribe to an action",
        "invitation",
        list_of_3("invite", "subscription", "conversation"),
        "any",
        false,
        FieldConstraints {
            content: None,
            audience: Some(FieldConstraint::Required),
            parent: Some(FieldConstraint::Forbidden),
            attachments: Some(FieldConstraint::Forbidden),
            subject: Some(FieldConstraint::Required),
        },
        flags,
    );
    d.subtypes = Some(pairs_of_1(("DEL", "Revoke invitation")));
    d.schema = Some(
        ContentSchemaWrapper {
            content: Some(
                object_content(
                    Some(
                        properties_of_2(
                            (
                                "role",
                                choice_field(
                                    None,
                                    Some(20),
                                    list_of_4("observer", "member", "moderator", "admin"),
                                ),
                            ),
                            ("message", text_field(None, Some(500))),
                        ),
                    ),
                    None,
                    "Invitation content with optional role and message",
                ),
            ),
        },
    );
    d.key_pattern = Some(text::owned("{type}:{subject}:{audience}"));
    d
}

/// `PRINVT`: An invitation to create a profile.
pub open spec fn prinvt_type() -> DefinitionView {
    DefinitionView {
        schema_given: true,
        schema: Some(
            object_schema(
                Some(
                    seq![
                        ("refId"@, text_property(Some(1), Some(255))),
                        ("nodeName"@, text_property(None, Some(255))),
                        ("message"@, text_property(None, Some(500))),
                    ],
                ),
                Some(seq!["refId"@]),
                "Profile invite details with ref ID and optional message"@,
            ),
        ),
        key_pattern: Some("{type}:{issuer}:{audience}"@),
        ..built_in(
            "PRINVT"@,
            "Deliver a profile creation invite to a connected user"@,
            "system"@,
            seq!["invite"@, "profile"@, "community"@],
            "any"@,
            true,
            FieldConstraints {
                content: Some(FieldConstraint::Required),
                audience: Some(FieldConstraint::Required),
                parent: Some(FieldConstraint::Forbidden),
                attachments: Some(FieldConstraint::Forbidden),
                subject: Some(FieldConstraint::Forbidden),
            },
            basic_behavior(false, false, false),
        )
    }
}

pub fn prinvt_definition() -> (r: ActionDefinition)
    ensures
        r@ == prinvt_type(),
{
    let mut d = define(
        "PRINVT",
        "Deliver a profile creation invite to a connected user",
        "system",
        list_of_3("invite", "profile", "community"),
        "any",
        true,
        FieldConstraints {
            content: Some(FieldConstraint::Required),
            audience: Some(FieldConstraint::Required),
            parent: Some(FieldConstraint::Forbidden),
            attachments: Some(FieldConstraint::Forbidden),
            subject: Some(FieldConstraint::Forbidden),
        },
        behavior(false, false, false),
    );
    d.schema = Some(
        ContentSchemaWrapper {
            content: Some(
                object_content(
                    Some(
                        properties_of_3(
                            ("refId", text_field(Some(1), Some(255))),
                            ("nodeName", text_field(None, Some(255))),
                            ("message", text_field(None, Some(500))),
                        ),
                    ),
                    Some(list_of_1("refId")),
                    "Profile invite details with ref ID and optional message",
                ),
            ),
        },
    );
    d.key_pattern = Some(text::owned("{type}:{issuer}:{audience}"));
    d
}

/// The built-in types, in order.
pub open spec fn built_in_definitions() -> Seq<DefinitionView> {
    seq![
        connection_type(),
        follow_type(),
        post_type(),
        react_type(),
        comment_type(),
        message_type(),
        repost_type(),
        aprv_type(),
        stat_type(),
        idp_reg_type(),
        fileshare_type(),
        pres_type(),
        subs_type(),
        conv_type(),
        invt_type(),
        prinvt_type(),
    ]
}

/// No two built-in types have the same name.
pub proof fn law_built_in_types_are_distinct(i: int, j: int)
    requires
        0 <= i < j < built_in_definitions().len(),
    ensures
        built_in_definitions()[i].typ != built_in_definitions()[j].typ,
{
    reveal_strlit("CONN");
    reveal_strlit("FLLW");
    reveal_strlit("POST");
    reveal_strlit("REACT");
    reveal_strlit("CMNT");
    reveal_strlit("MSG");
    reveal_strlit("REPOST");
    reveal_strlit("APRV");
    reveal_strlit("STAT");
    reveal_strlit("IDP:REG");
    reveal_strlit("FSHR");
    reveal_strlit("PRES");
    reveal_strlit("SUBS");
    reveal_strlit("CONV");
    reveal_strlit("INVT");
    reveal_strlit("PRINVT");
    let a = built_in_definitions()[i].typ;
    let b = built_in_definitions()[j].typ;
    assert(a.len() != b.len() || a[0] != b[0] || a[1] != b[1] || a[2] != b[2] || a[3] != b[3]);
}

/// All built-in types.
pub fn get_definitions() -> (r: Vec<ActionDefinition>)
    ensures
        Seq::new(r@.len(), |i: int| r@[i]@) == built_in_definitions(),
{
    let mut v: Vec<ActionDefinition> = Vec::new();
    v.push(connection_definition());
    v.push(follow_definition());
    v.push(post_definition());
    v.push(react_definition());
    v.push(comment_definition());
    v.push(message_definition());
    v.push(repost_definition());
    v.push(aprv_definition());
    v.push(stat_definition());
    v.push(idp_reg_definition());
    v.push(fileshare_definition());
    v.push(pres_definition());
    v.push(subs_definition());
    v.push(conv_definition());
    v.push(invt_definition());
    v.push(prinvt_definition());
    proof {
        assert(Seq::new(v@.len(), |i: int| v@[i]@) =~= built_in_definitions());
    }
    v
}

} // verus!
