//! The parts of an action type definition.
use crate::action::hooks::{HookFunction, HookImplementation};
use crate::json::{Json, JsonView};
use vstd::prelude::*;

verus! {

/// Whether a field of an action has to be given or must be left out.
#[derive(Debug, Clone, Copy, PartialEq, Eq, Structural)]
pub enum FieldConstraint {
    Required,
    Forbidden,
}

/// The constraints on the fields of an action; an absent one leaves the field optional.
#[derive(Debug, Clone, Copy, PartialEq, Eq)]
pub struct FieldConstraints {
    pub content: Option<FieldConstraint>,
    pub audience: Option<FieldConstraint>,
    pub parent: Option<FieldConstraint>,
    pub attachments: Option<FieldConstraint>,
    pub subject: Option<FieldConstraint>,
}

/// The kind of value that content has to be.
#[derive(Debug, Clone, Copy, PartialEq, Eq, Structural)]
pub enum ContentType {
    Text,
    Number,
    Boolean,
    Object,
    Json,
}

/// The kind of value that a property of the content has to be.
#[derive(Debug, Clone, Copy, PartialEq, Eq, Structural)]
pub enum FieldType {
    Text,
    Number,
    Boolean,
    Array,
    Json,
}

/// The schema of a property.
#[derive(Debug)]
pub struct SchemaField {
    pub field_type: FieldType,
    pub min_length: Option<usize>,
    pub max_length: Option<usize>,
    pub allowed: Option<Vec<Json>>,
    pub items: Option<Box<SchemaField>>,
}

/// The schema of content.
#[derive(Debug)]
pub struct ContentSchema {
    pub content_type: ContentType,
    pub min_length: Option<usize>,
    pub max_length: Option<usize>,
    pub pattern: Option<String>,
    pub allowed: Option<Vec<Json>>,
    pub properties: Option<Vec<(String, SchemaField)>>,
    pub required: Option<Vec<String>>,
    pub description: Option<String>,
}

#[derive(Debug)]
pub struct ContentSchemaWrapper {
    pub content: Option<ContentSchema>,
}

/// How actions of a type behave. A flag that is absent is off.
#[derive(Debug)]
pub struct BehaviorFlags {
    pub broadcast: Option<bool>,
    pub allow_unknown: Option<bool>,
    pub requires_acceptance: Option<bool>,
    pub approvable: Option<bool>,
    pub requires_subscription: Option<bool>,
    pub ephemeral: Option<bool>,
    pub ttl: Option<u32>,
    pub default_flags: Option<String>,
    pub subscribable: Option<bool>,
    pub deliver_subject: Option<bool>,
    pub deliver_to_subject_owner: Option<bool>,
    pub relay_children: Option<bool>,
    pub gated_by_parent_flag: Option<char>,
    pub gated_by_subject_flag: Option<char>,
}

#[derive(Debug)]
pub struct ActionMetadata {
    pub category: Option<String>,
    pub tags: Option<Vec<String>>,
    pub deprecated: Option<bool>,
    pub experimental: Option<bool>,
}

/// The hooks of an action type.
#[derive(Debug)]
pub struct ActionHooks {
    pub on_create: HookImplementation,
    pub on_receive: HookImplementation,
    pub on_accept: HookImplementation,
    pub on_reject: HookImplementation,
}

#[derive(Debug)]
pub struct PermissionRules {
    pub can_create: Option<String>,
    pub can_receive: Option<String>,
    pub requires_following: Option<bool>,
    pub requires_connected: Option<bool>,
}

/// The definition of an action type.
#[derive(Debug)]
pub struct ActionDefinition {
    pub typ: String,
    pub version: String,
    pub description: String,
    pub metadata: Option<ActionMetadata>,
    pub subtypes: Option<Vec<(String, String)>>,
    pub fields: FieldConstraints,
    pub schema: Option<ContentSchemaWrapper>,
    pub behavior: BehaviorFlags,
    pub hooks: ActionHooks,
    pub permissions: Option<PermissionRules>,
    pub key_pattern: Option<String>,
}

// ---------------------------------------------------------------------------------------------
// What a definition says
// ---------------------------------------------------------------------------------------------

pub struct FieldView {
    pub field_type: FieldType,
    pub min_length: Option<usize>,
    pub max_length: Option<usize>,
    pub allowed: Option<Seq<JsonView>>,
    pub items: Option<Box<FieldView>>,
}

pub struct SchemaView {
    pub content_type: ContentType,
    pub min_length: Option<usize>,
    pub max_length: Option<usize>,
    pub pattern: Option<Seq<char>>,
    pub allowed: Option<Seq<JsonView>>,
    pub properties: Option<Seq<(Seq<char>, FieldView)>>,
    pub required: Option<Seq<Seq<char>>>,
    pub description: Option<Seq<char>>,
}

pub struct BehaviorView {
    pub broadcast: Option<bool>,
    pub allow_unknown: Option<bool>,
    pub requires_acceptance: Option<bool>,
    pub approvable: Option<bool>,
    pub requires_subscription: Option<bool>,
    pub ephemeral: Option<bool>,
    pub ttl: Option<u32>,
    pub default_flags: Option<Seq<char>>,
    pub subscribable: Option<bool>,
    pub deliver_subject: Option<bool>,
    pub deliver_to_subject_owner: Option<bool>,
    pub relay_children: Option<bool>,
    pub gated_by_parent_flag: Option<char>,
    pub gated_by_subject_flag: Option<char>,
}

/// What a hook of a definition is made of.
pub enum HookView {
    Dsl(Seq<JsonView>),
    Native(HookFunction),
    Hybrid(Seq<JsonView>, HookFunction),
    Absent,
}

impl View for HookImplementation {
    type V = HookView;

    open spec fn view(&self) -> HookView {
        match self {
            HookImplementation::Dsl(ops) => HookView::Dsl(all_json(ops@)),
            HookImplementation::Native(f) => HookView::Native(*f),
            HookImplementation::Hybrid { dsl, native } => HookView::Hybrid(all_json(dsl@), *native),
            HookImplementation::Absent => HookView::Absent,
        }
    }
}

pub struct HooksView {
    pub on_create: HookView,
    pub on_receive: HookView,
    pub on_accept: HookView,
    pub on_reject: HookView,
}

impl View for ActionHooks {
    type V = HooksView;

    open spec fn view(&self) -> HooksView {
        HooksView {
            on_create: self.on_create@,
            on_receive: self.on_receive@,
            on_accept: self.on_accept@,
            on_reject: self.on_reject@,
        }
    }
}

pub struct DefinitionView {
    pub typ: Seq<char>,
    pub version: Seq<char>,
    pub description: Seq<char>,
    pub metadata_given: bool,
    pub category: Option<Seq<char>>,
    pub tags: Option<Seq<Seq<char>>>,
    pub deprecated: Option<bool>,
    pub experimental: Option<bool>,
    pub subtypes: Option<Seq<(Seq<char>, Seq<char>)>>,
    pub fields: FieldConstraints,
    pub schema_given: bool,
    pub schema: Option<SchemaView>,
    pub behavior: BehaviorView,
    pub hooks: HooksView,
    pub permissions_given: bool,
    pub can_create: Option<Seq<char>>,
    pub can_receive: Option<Seq<char>>,
    pub requires_following: Option<bool>,
    pub requires_connected: Option<bool>,
    pub key_pattern: Option<Seq<char>>,
}

pub open spec fn all_json(v: Seq<Json>) -> Seq<JsonView> {
    Seq::new(v.len(), |i: int| v[i]@)
}

pub open spec fn opt_all_json(v: Option<Vec<Json>>) -> Option<Seq<JsonView>> {
    match v {
        Some(a) => Some(all_json(a@)),
        None => None,
    }
}

/// What the schema of a property says.
pub open spec fn field_view(f: SchemaField) -> FieldView
    decreases f,
{
    FieldView {
        field_type: f.field_type,
        min_length: f.min_length,
        max_length: f.max_length,
        allowed: opt_all_json(f.allowed),
        items: match f.items {
            Some(b) => Some(Box::new(field_view(*b))),
            None => None,
        },
    }
}

impl View for SchemaField {
    type V = FieldView;

    open spec fn view(&self) -> FieldView {
        field_view(*self)
    }
}

pub open spec fn property_views(p: Seq<(String, SchemaField)>) -> Seq<(Seq<char>, FieldView)> {
    Seq::new(p.len(), |i: int| (p[i].0@, p[i].1@))
}

impl View for ContentSchema {
    type V = SchemaView;

    open spec fn view(&self) -> SchemaView {
        SchemaView {
            content_type: self.content_type,
            min_length: self.min_length,
            max_length: self.max_length,
            pattern: self.pattern.deep_view(),
            allowed: opt_all_json(self.allowed),
            properties: match self.properties {
                Some(p) => Some(property_views(p@)),
                None => None,
            },
            required: match self.required {
                Some(v) => Some(v.deep_view()),
                None => None,
            },
            description: self.description.deep_view(),
        }
    }
}

impl View for BehaviorFlags {
    type V = BehaviorView;

    open spec fn view(&self) -> BehaviorView {
        BehaviorView {
            broadcast: self.broadcast,
            allow_unknown: self.allow_unknown,
            requires_acceptance: self.requires_acceptance,
            approvable: self.approvable,
            requires_subscription: self.requires_subscription,
            ephemeral: self.ephemeral,
            ttl: self.ttl,
            default_flags: self.default_flags.deep_view(),
            subscribable: self.subscribable,
            deliver_subject: self.deliver_subject,
            deliver_to_subject_owner: self.deliver_to_subject_owner,
            relay_children: self.relay_children,
            gated_by_parent_flag: self.gated_by_parent_flag,
            gated_by_subject_flag: self.gated_by_subject_flag,
        }
    }
}

pub open spec fn pair_views(p: Seq<(String, String)>) -> Seq<(Seq<char>, Seq<char>)> {
    Seq::new(p.len(), |i: int| (p[i].0@, p[i].1@))
}

/// The schema that applies to the content of a definition's actions.
pub open spec fn content_schema(d: ActionDefinition) -> Option<SchemaView> {
    match d.schema {
        Some(w) => match w.content {
            Some(s) => Some(s@),
            None => None,
        },
        None => None,
    }
}

impl View for ActionDefinition {
    type V = DefinitionView;

    open spec fn view(&self) -> DefinitionView {
        DefinitionView {
            typ: self.typ@,
            version: self.version@,
            description: self.description@,
            metadata_given: self.metadata is Some,
            category: match self.metadata {
                Some(m) => m.category.deep_view(),
                None => None,
            },
            tags: match self.metadata {
                Some(m) => match m.tags {
                    Some(t) => Some(t.deep_view()),
                    None => None,
                },
                None => None,
            },
            deprecated: match self.metadata {
                Some(m) => m.deprecated,
                None => None,
            },
            experimental: match self.metadata {
                Some(m) => m.experimental,
                None => None,
            },
            subtypes: match self.subtypes {
                Some(p) => Some(pair_views(p@)),
                None => None,
            },
            fields: self.fields,
            schema_given: self.schema is Some,
            schema: content_schema(*self),
            behavior: self.behavior@,
            hooks: self.hooks@,
            permissions_given: self.permissions is Some,
            can_create: match self.permissions {
                Some(p) => p.can_create.deep_view(),
                None => None,
            },
            can_receive: match self.permissions {
                Some(p) => p.can_receive.deep_view(),
                None => None,
            },
            requires_following: match self.permissions {
                Some(p) => p.requires_following,
                None => None,
            },
            requires_connected: match self.permissions {
                Some(p) => p.requires_connected,
                None => None,
            },
            key_pattern: self.key_pattern.deep_view(),
        }
    }
}

} // verus!
