//! The engine: the action types that are known, and what they demand of an action.
use crate::action::dsl::types::{
    all_json, property_views, ActionDefinition, BehaviorFlags, ContentSchema, ContentType,
    DefinitionView, FieldConstraint, FieldConstraints, FieldType, FieldView, SchemaField,
    SchemaView,
};
use crate::action::helpers;
use crate::action::hooks::{self, HookFunction, HookImplementation, HookRegistry, HookRun, HookType};
use crate::decimal;
use crate::json::{self, Json, JsonView};
use crate::str_map::StrMap;
use crate::text;
use crate::types::{Error, ErrorView};
use vstd::prelude::*;

verus! {

/// The longest time, in seconds, that the operations of a hook may take, and that its native
/// function may take.
pub const HOOK_TIMEOUT_SECS: u64 = 5;

/// The verdict of a regular expression on a text, or what is wrong with the expression.
pub uninterp spec fn regex_verdict(pattern: Seq<char>, s: Seq<char>) -> Result<bool, Seq<char>>;

/// A verdict by what it says.
pub open spec fn verdict_view(v: Result<bool, String>) -> Result<bool, Seq<char>> {
    match v {
        Ok(b) => Ok(b),
        Err(m) => Err(m@),
    }
}

/// `regex::Regex::new` and `regex::Regex::is_match`: whether a text holds a match of a pattern
/// is a function of the two; a pattern that does not compile has a message in place of a
/// verdict.
#[verifier::external_body]
fn regex_is_match(pattern: &str, s: &str) -> (r: Result<bool, String>)
    ensures
        verdict_view(r) == regex_verdict(pattern@, s@),
{
    regex::Regex::new(pattern).map_err(|e| e.to_string()).map(|re| re.is_match(s))
}

pub open spec fn length_ok(s: Seq<char>, min: Option<usize>, max: Option<usize>) -> bool {
    &&& min matches Some(m) ==> text::byte_length(s) >= m
    &&& max matches Some(m) ==> text::byte_length(s) <= m
}

pub open spec fn value_allowed(v: JsonView, allowed: Option<Seq<JsonView>>) -> bool {
    allowed matches Some(a) ==> a.contains(v)
}

/// Whether a property's value meets its schema.
pub open spec fn field_ok(v: JsonView, f: FieldView) -> bool
    decreases f,
{
    match f.field_type {
        FieldType::Text => match v {
            JsonView::Text(s) => length_ok(s, f.min_length, f.max_length) && value_allowed(
                v,
                f.allowed,
            ),
            _ => false,
        },
        FieldType::Number => v.is_number(),
        FieldType::Boolean => v is Bool,
        FieldType::Array => match v {
            JsonView::Array(a) => match f.items {
                Some(items) => forall|i: int| 0 <= i < a.len() ==> field_ok(#[trigger] a[i], *items),
                None => true,
            },
            _ => false,
        },
        FieldType::Json => true,
    }
}

/// Whether a text meets a content schema, given the verdict of the schema's pattern on it.
pub open spec fn text_ok_given(
    s: Seq<char>,
    schema: SchemaView,
    verdict: Result<bool, Seq<char>>,
) -> bool {
    &&& length_ok(s, schema.min_length, schema.max_length)
    &&& schema.pattern is Some ==> verdict == Ok::<bool, Seq<char>>(true)
    &&& value_allowed(JsonView::Text(s), schema.allowed)
}

/// Whether a text meets a content schema.
pub open spec fn text_ok(s: Seq<char>, schema: SchemaView) -> bool {
    text_ok_given(
        s,
        schema,
        match schema.pattern {
            Some(p) => regex_verdict(p, s),
            None => Ok(true),
        },
    )
}

/// Whether an object has every required property, and every property that it has and that the
/// schema speaks of meets its own schema.
pub open spec fn object_ok(v: JsonView, schema: SchemaView) -> bool {
    &&& schema.required matches Some(names) ==> forall|i: int|
        0 <= i < names.len() ==> v.member(#[trigger] names[i]) is Some
    &&& schema.properties matches Some(props) ==> forall|i: int|
        0 <= i < props.len() ==> (v.member((#[trigger] props[i]).0) matches Some(x) ==> field_ok(
            x,
            props[i].1,
        ))
}

/// Whether a value meets a content schema.
pub open spec fn value_ok(v: JsonView, schema: SchemaView) -> bool {
    match schema.content_type {
        ContentType::Text => match v {
            JsonView::Text(s) => text_ok(s, schema),
            _ => false,
        },
        ContentType::Number => v.is_number() && value_allowed(v, schema.allowed),
        ContentType::Boolean => v is Bool,
        ContentType::Object => v is Object && object_ok(v, schema),
        ContentType::Json => true,
    }
}

/// Whether content is given at all; null counts as not given.
pub open spec fn given(content: Option<JsonView>) -> bool {
    content is Some && !(content->0 is Null)
}

/// Whether content is admissible under a definition.
pub open spec fn content_ok(d: DefinitionView, content: Option<JsonView>) -> bool {
    &&& d.fields.content == Some(FieldConstraint::Required) ==> given(content)
    &&& d.fields.content == Some(FieldConstraint::Forbidden) ==> !given(content)
    &&& (d.schema is Some && content is Some) ==> value_ok(content->0, d.schema->0)
}

/// A finding about the value at a path.
pub open spec fn finding(path: Seq<char>, what: Seq<char>) -> Seq<char> {
    path + ": "@ + what
}

/// What is wrong with the length of a text.
pub open spec fn length_trouble(
    s: Seq<char>,
    min: Option<usize>,
    max: Option<usize>,
    path: Seq<char>,
) -> Option<Seq<char>> {
    if min matches Some(m) && text::byte_length(s) < m {
        Some(
            finding(path, "string too short (min "@ + decimal::decimal_text(min->0 as nat) + ")"@),
        )
    } else if max matches Some(m) && text::byte_length(s) > m {
        Some(
            finding(path, "string too long (max "@ + decimal::decimal_text(max->0 as nat) + ")"@),
        )
    } else {
        None
    }
}

/// The first thing that is wrong with a property's value.
pub open spec fn field_trouble(v: JsonView, f: FieldView, path: Seq<char>) -> Option<Seq<char>>
    decreases f, 0nat,
{
    match f.field_type {
        FieldType::Text => match v {
            JsonView::Text(s) => match length_trouble(s, f.min_length, f.max_length, path) {
                Some(m) => Some(m),
                None => if value_allowed(v, f.allowed) {
                    None
                } else {
                    Some(finding(path, "value '"@ + s + "' not in allowed enum"@))
                },
            },
            _ => Some(finding(path, "expected string"@)),
        },
        FieldType::Number => if v.is_number() {
            None
        } else {
            Some(finding(path, "expected number"@))
        },
        FieldType::Boolean => if v is Bool {
            None
        } else {
            Some(finding(path, "expected boolean"@))
        },
        FieldType::Array => match v {
            JsonView::Array(a) => match f.items {
                Some(items) => items_trouble(a, *items, path),
                None => None,
            },
            _ => Some(finding(path, "expected array"@)),
        },
        FieldType::Json => None,
    }
}

/// The first thing that is wrong with the items of an array.
pub open spec fn items_trouble(a: Seq<JsonView>, f: FieldView, path: Seq<char>) -> Option<Seq<char>>
    decreases f, a.len() + 1,
{
    if a.len() == 0 {
        None
    } else {
        match items_trouble(a.drop_last(), f, path) {
            Some(m) => Some(m),
            None => field_trouble(
                a.last(),
                f,
                path + "["@ + decimal::decimal_text((a.len() - 1) as nat) + "]"@,
            ),
        }
    }
}

/// The first thing that is wrong with a text, given the verdict of the schema's pattern on it.
pub open spec fn text_trouble(
    s: Seq<char>,
    schema: SchemaView,
    verdict: Result<bool, Seq<char>>,
    path: Seq<char>,
) -> Option<Seq<char>> {
    match length_trouble(s, schema.min_length, schema.max_length, path) {
        Some(m) => Some(m),
        None => if schema.pattern is Some && verdict is Err {
            Some(finding(path, "invalid pattern: "@ + verdict->Err_0))
        } else if schema.pattern is Some && verdict == Ok::<bool, Seq<char>>(false) {
            Some(finding(path, "string does not match pattern"@))
        } else if !value_allowed(JsonView::Text(s), schema.allowed) {
            Some(finding(path, "value not in allowed enum"@))
        } else {
            None
        },
    }
}

/// Whether a message names the first required property that an object lacks.
pub open spec fn missing_trouble(v: JsonView, names: Seq<Seq<char>>, path: Seq<char>) -> Option<
    Seq<char>,
>
    decreases names.len(),
{
    if names.len() == 0 {
        None
    } else {
        match missing_trouble(v, names.drop_last(), path) {
            Some(m) => Some(m),
            None => if v.member(names.last()) is None {
                Some(finding(path, "missing required property '"@ + names.last() + "'"@))
            } else {
                None
            },
        }
    }
}

/// The first thing that is wrong with the properties of an object.
pub open spec fn property_trouble(
    v: JsonView,
    props: Seq<(Seq<char>, FieldView)>,
    path: Seq<char>,
) -> Option<Seq<char>>
    decreases props.len(),
{
    if props.len() == 0 {
        None
    } else {
        match property_trouble(v, props.drop_last(), path) {
            Some(m) => Some(m),
            None => match v.member(props.last().0) {
                Some(x) => field_trouble(x, props.last().1, path + "."@ + props.last().0),
                None => None,
            },
        }
    }
}

/// The first thing that is wrong with an object.
pub open spec fn object_trouble(v: JsonView, schema: SchemaView, path: Seq<char>) -> Option<
    Seq<char>,
> {
    let missing = match schema.required {
        Some(names) => missing_trouble(v, names, path),
        None => None,
    };
    match (missing, schema.properties) {
        (Some(m), _) => Some(m),
        (None, Some(props)) => property_trouble(v, props, path),
        (None, None) => None,
    }
}

/// The first thing that is wrong with a value under a content schema.
pub open spec fn value_trouble(v: JsonView, schema: SchemaView, path: Seq<char>) -> Option<
    Seq<char>,
> {
    match schema.content_type {
        ContentType::Text => match v {
            JsonView::Text(s) => text_trouble(
                s,
                schema,
                match schema.pattern {
                    Some(p) => regex_verdict(p, s),
                    None => Ok(true),
                },
                path,
            ),
            _ => Some(finding(path, "expected string"@)),
        },
        ContentType::Number => if !v.is_number() {
            Some(finding(path, "expected number"@))
        } else if !value_allowed(v, schema.allowed) {
            Some(finding(path, "value not in allowed enum"@))
        } else {
            None
        },
        ContentType::Boolean => if v is Bool {
            None
        } else {
            Some(finding(path, "expected boolean"@))
        },
        ContentType::Object => if v is Object {
            object_trouble(v, schema, path)
        } else {
            Some(finding(path, "expected object"@))
        },
        ContentType::Json => None,
    }
}

/// Whether a check came out as it should: an error says what is wrong.
pub open spec fn reports(r: Result<(), Error>, trouble: Option<Seq<char>>) -> bool {
    match r {
        Ok(()) => trouble is None,
        Err(e) => trouble matches Some(m) && e.deep_view() == ErrorView::ValidationError(m),
    }
}

/// The first thing that is wrong with the content of an action, under a definition.
pub open spec fn content_trouble(
    d: DefinitionView,
    action_type: Seq<char>,
    content: Option<JsonView>,
) -> Option<Seq<char>> {
    if d.fields.content == Some(FieldConstraint::Required) && !given(content) {
        Some("Content is required for action type "@ + action_type)
    } else if d.fields.content == Some(FieldConstraint::Forbidden) && given(content) {
        Some("Content is forbidden for action type "@ + action_type)
    } else {
        match (d.schema, content) {
            (Some(schema), Some(v)) => value_trouble(v, schema, "content"@),
            _ => None,
        }
    }
}

fn invalid(path: &str, what: &str) -> (r: Error)
    ensures
        r.deep_view() == ErrorView::ValidationError(finding(path@, what@)),
{
    let mut m = text::owned(path);
    m.append(": ");
    m.append(what);
    Error::ValidationError(m)
}

fn text_in(allowed: &Vec<Json>, s: &str) -> (r: bool)
    ensures
        r == all_json(allowed@).contains(JsonView::Text(s@)),
{
    let mut i: usize = 0;
    while i < allowed.len()
        invariant
            i <= allowed@.len(),
            forall|k: int| 0 <= k < i ==> all_json(allowed@)[k] != JsonView::Text(s@),
        decreases allowed@.len() - i,
    {
        if let Json::Text(x) = &allowed[i] {
            if text::same(x.as_str(), s) {
                assert(all_json(allowed@)[i as int] == JsonView::Text(s@));
                return true;
            }
        }
        i = i + 1;
    }
    false
}

fn same_number(a: &Json, b: &Json) -> (r: bool)
    requires
        a@.is_number(),
    ensures
        r == (a@ == b@),
{
    match (a, b) {
        (Json::Unsigned(x), Json::Unsigned(y)) => *x == *y,
        (Json::Negative(x), Json::Negative(y)) => *x == *y,
        (Json::Real(x), Json::Real(y)) => text::same(x.as_str(), y.as_str()),
        _ => false,
    }
}

fn number_in(allowed: &Vec<Json>, v: &Json) -> (r: bool)
    requires
        v@.is_number(),
    ensures
        r == all_json(allowed@).contains(v@),
{
    let mut i: usize = 0;
    while i < allowed.len()
        invariant
            v@.is_number(),
            i <= allowed@.len(),
            forall|k: int| 0 <= k < i ==> all_json(allowed@)[k] != v@,
        decreases allowed@.len() - i,
    {
        if same_number(v, &allowed[i]) {
            assert(all_json(allowed@)[i as int] == v@);
            return true;
        }
        i = i + 1;
    }
    false
}

fn is_number(v: &Json) -> (r: bool)
    ensures
        r == v@.is_number(),
{
    match v {
        Json::Unsigned(_) | Json::Negative(_) | Json::Real(_) => true,
        _ => false,
    }
}

fn bound_text(what: &str, bound: usize) -> (r: String)
    ensures
        r@ == what@ + decimal::decimal_text(bound as nat) + ")"@,
{
    let mut m = text::owned(what);
    m.append(decimal::unsigned_to_text(bound as u64).as_str());
    m.append(")");
    m
}

fn check_length(path: &str, s: &str, min: Option<usize>, max: Option<usize>) -> (r: Result<
    (),
    Error,
>)
    ensures
        r is Ok <==> length_ok(s@, min, max),
        reports(r, length_trouble(s@, min, max, path@)),
{
    let n: usize = text::byte_len(s);
    if let Some(m) = min {
        if n < m {
            let what = bound_text("string too short (min ", m);
            return Err(invalid(path, what.as_str()));
        }
    }
    if let Some(m) = max {
        if n > m {
            let what = bound_text("string too long (max ", m);
            return Err(invalid(path, what.as_str()));
        }
    }
    Ok(())
}

/// Holds a property's value against its schema.
fn validate_field_value(value: &Json, schema: &SchemaField, path: &str) -> (r: Result<(), Error>)
    ensures
        r is Ok <==> field_ok(value@, schema@),
        reports(r, field_trouble(value@, schema@, path@)),
    decreases schema,
{
    match schema.field_type {
        FieldType::Text => match value {
            Json::Text(s) => {
                match check_length(path, s.as_str(), schema.min_length, schema.max_length) {
                    Ok(()) => {},
                    Err(e) => {
                        return Err(e);
                    },
                }
                if let Some(allowed) = &schema.allowed {
                    if !text_in(allowed, s.as_str()) {
                        let mut what = text::owned("value '");
                        what.append(s.as_str());
                        what.append("' not in allowed enum");
                        return Err(invalid(path, what.as_str()));
                    }
                }
                Ok(())
            },
            _ => Err(invalid(path, "expected string")),
        },
        FieldType::Number => {
            if is_number(value) {
                Ok(())
            } else {
                Err(invalid(path, "expected number"))
            }
        },
        FieldType::Boolean => match value {
            Json::Bool(_) => Ok(()),
            _ => Err(invalid(path, "expected boolean")),
        },
        FieldType::Array => match value {
            Json::Array(items) => {
                if let Some(item_schema) = &schema.items {
                    let mut i: usize = 0;
                    let ghost all = value@->Array_0;
                    assert(all.take(0) =~= Seq::<JsonView>::empty());
                    while i < items.len()
                        invariant
                            *value == Json::Array(*items),
                            all == value@->Array_0,
                            all.len() == items@.len(),
                            items_trouble(all.take(i as int), item_schema@, path@) is None,
                            schema.items == Some(*item_schema),
                            schema.field_type is Array,
                            i <= items@.len(),
                            forall|k: int|
                                0 <= k < i ==> field_ok(
                                    #[trigger] value@->Array_0[k],
                                    item_schema@,
                                ),
                        decreases items@.len() - i,
                    {
                        let ghost item = value@->Array_0[i as int];
                        assert(item == items@[i as int]@);
                        assert(*schema@.items->0 == item_schema@);
                        assert(decreases_to!(*schema => schema.items->0));
                        let inner = index_path(path, i);
                        proof {
                            assert(all.take(i + 1).drop_last() =~= all.take(i as int));
                            assert(all.take(i + 1).last() == item);
                        }
                        match validate_field_value(&items[i], item_schema, inner.as_str()) {
                            Ok(()) => {},
                            Err(e) => {
                                assert(!field_ok(value@->Array_0[i as int], *schema@.items->0));
                                proof {
                                    lemma_items_trouble(all, item_schema@, path@, i + 1);
                                }
                                return Err(e);
                            },
                        }
                        i = i + 1;
                    }
                    assert(all.take(i as int) =~= all);
                }
                Ok(())
            },
            _ => Err(invalid(path, "expected array")),
        },
        FieldType::Json => Ok(()),
    }
}

/// Once something is wrong with the first items, that is the first thing that is wrong.
proof fn lemma_items_trouble(a: Seq<JsonView>, f: FieldView, path: Seq<char>, n: int)
    requires
        0 <= n <= a.len(),
        items_trouble(a.take(n), f, path) is Some,
    ensures
        items_trouble(a, f, path) == items_trouble(a.take(n), f, path),
    decreases a.len(),
{
    if n < a.len() {
        assert(a.drop_last().take(n) =~= a.take(n));
        lemma_items_trouble(a.drop_last(), f, path, n);
    } else {
        assert(a.take(n) =~= a);
    }
}

fn index_path(path: &str, i: usize) -> (r: String)
    ensures
        r@ == path@ + "["@ + decimal::decimal_text(i as nat) + "]"@,
{
    let mut p = text::owned(path);
    p.append("[");
    p.append(decimal::unsigned_to_text(i as u64).as_str());
    p.append("]");
    p
}

fn member_path(path: &str, name: &str) -> (r: String)
    ensures
        r@ == path@ + "."@ + name@,
{
    let mut p = text::owned(path);
    p.append(".");
    p.append(name);
    p
}

/// Holds a text against a content schema, given the verdict of the schema's pattern on it;
/// a message stands for a pattern that is invalid.
pub fn validate_text(s: &str, schema: &ContentSchema, verdict: Result<bool, String>, path: &str) -> (r:
    Result<(), Error>)
    ensures
        r is Ok <==> text_ok_given(s@, schema@, verdict_view(verdict)),
        reports(r, text_trouble(s@, schema@, verdict_view(verdict), path@)),
{
    match check_length(path, s, schema.min_length, schema.max_length) {
        Ok(()) => {},
        Err(e) => {
            return Err(e);
        },
    }
    if schema.pattern.is_some() {
        match verdict {
            Err(why) => {
                let mut what = text::owned("invalid pattern: ");
                what.append(why.as_str());
                return Err(invalid(path, what.as_str()));
            },
            Ok(false) => {
                return Err(invalid(path, "string does not match pattern"));
            },
            Ok(true) => {},
        }
    }
    if let Some(allowed) = &schema.allowed {
        if !text_in(allowed, s) {
            return Err(invalid(path, "value not in allowed enum"));
        }
    }
    Ok(())
}

/// Holds a value against a content schema.
pub fn validate_value_against_schema(value: &Json, schema: &ContentSchema, path: &str) -> (r:
    Result<(), Error>)
    ensures
        r is Ok <==> value_ok(value@, schema@),
        reports(r, value_trouble(value@, schema@, path@)),
{
    match schema.content_type {
        ContentType::Text => match value {
            Json::Text(s) => {
                let verdict: Result<bool, String> = match &schema.pattern {
                    Some(pattern) => regex_is_match(pattern.as_str(), s.as_str()),
                    None => Ok(true),
                };
                validate_text(s.as_str(), schema, verdict, path)
            },
            _ => Err(invalid(path, "expected string")),
        },
        ContentType::Number => {
            if !is_number(value) {
                return Err(invalid(path, "expected number"));
            }
            if let Some(allowed) = &schema.allowed {
                if !number_in(allowed, value) {
                    return Err(invalid(path, "value not in allowed enum"));
                }
            }
            Ok(())
        },
        ContentType::Boolean => match value {
            Json::Bool(_) => Ok(()),
            _ => Err(invalid(path, "expected boolean")),
        },
        ContentType::Object => match value {
            Json::Object(_) => {
                match check_required(value, schema, path) {
                    Ok(()) => check_properties(value, schema, path),
                    Err(e) => Err(e),
                }
            },
            _ => Err(invalid(path, "expected object")),
        },
        ContentType::Json => Ok(()),
    }
}

fn check_required(value: &Json, schema: &ContentSchema, path: &str) -> (r: Result<(), Error>)
    ensures
        r is Ok <==> (schema@.required matches Some(names) ==> forall|i: int|
            0 <= i < names.len() ==> value@.member(#[trigger] names[i]) is Some),
        reports(
            r,
            match schema@.required {
                Some(names) => missing_trouble(value@, names, path@),
                None => None,
            },
        ),
{
    if let Some(names) = &schema.required {
        let mut i: usize = 0;
        let ghost all = names.deep_view();
        while i < names.len()
            invariant
                schema.required == Some(*names),
                all == names.deep_view(),
                i <= names@.len(),
                missing_trouble(value@, all.take(i as int), path@) is None,
                forall|k: int|
                    0 <= k < i ==> value@.member(#[trigger] names.deep_view()[k]) is Some,
            decreases names@.len() - i,
        {
            let name = names[i].as_str();
            assert(names.deep_view()[i as int] == name@);
            proof {
                assert(all.take(i + 1).drop_last() =~= all.take(i as int));
                assert(all.take(i + 1).last() == name@);
            }
            if value.get(name).is_none() {
                let mut what = text::owned("missing required property '");
                what.append(name);
                what.append("'");
                assert(schema@.required->0[i as int] == name@);
                proof {
                    lemma_missing_trouble(value@, all, path@, i + 1);
                }
                return Err(invalid(path, what.as_str()));
            }
            i = i + 1;
        }
        assert(all.take(i as int) =~= all);
    }
    Ok(())
}

/// Once something is missing of the first required properties, that is what is missing.
proof fn lemma_missing_trouble(v: JsonView, names: Seq<Seq<char>>, path: Seq<char>, n: int)
    requires
        0 <= n <= names.len(),
        missing_trouble(v, names.take(n), path) is Some,
    ensures
        missing_trouble(v, names, path) == missing_trouble(v, names.take(n), path),
    decreases names.len(),
{
    if n < names.len() {
        assert(names.drop_last().take(n) =~= names.take(n));
        lemma_missing_trouble(v, names.drop_last(), path, n);
    } else {
        assert(names.take(n) =~= names);
    }
}

/// Once something is wrong with the first properties, that is what is wrong.
proof fn lemma_property_trouble(
    v: JsonView,
    props: Seq<(Seq<char>, FieldView)>,
    path: Seq<char>,
    n: int,
)
    requires
        0 <= n <= props.len(),
        property_trouble(v, props.take(n), path) is Some,
    ensures
        property_trouble(v, props, path) == property_trouble(v, props.take(n), path),
    decreases props.len(),
{
    if n < props.len() {
        assert(props.drop_last().take(n) =~= props.take(n));
        lemma_property_trouble(v, props.drop_last(), path, n);
    } else {
        assert(props.take(n) =~= props);
    }
}

fn check_properties(value: &Json, schema: &ContentSchema, path: &str) -> (r: Result<(), Error>)
    ensures
        r is Ok <==> (schema@.properties matches Some(props) ==> forall|i: int|
            0 <= i < props.len() ==> (value@.member((#[trigger] props[i]).0) matches Some(x)
                ==> field_ok(x, props[i].1))),
        reports(
            r,
            match schema@.properties {
                Some(props) => property_trouble(value@, props, path@),
                None => None,
            },
        ),
{
    if let Some(props) = &schema.properties {
        let mut i: usize = 0;
        let ghost all = property_views(props@);
        while i < props.len()
            invariant
                schema.properties == Some(*props),
                all == property_views(props@),
                i <= props@.len(),
                property_trouble(value@, all.take(i as int), path@) is None,
                forall|k: int|
                    0 <= k < i ==> (value@.member(
                        (#[trigger] property_views(props@)[k]).0,
                    ) matches Some(x) ==> field_ok(x, property_views(props@)[k].1)),
            decreases props@.len() - i,
        {
            let ghost p = property_views(props@)[i as int];
            assert(p == schema@.properties->0[i as int]);
            proof {
                assert(all.take(i + 1).drop_last() =~= all.take(i as int));
                assert(all.take(i + 1).last() == p);
            }
            let name = props[i].0.as_str();
            if let Some(x) = value.get(name) {
                let inner = member_path(path, name);
                match validate_field_value(x, &props[i].1, inner.as_str()) {
                    Ok(()) => {},
                    Err(e) => {
                        proof {
                            lemma_property_trouble(value@, all, path@, i + 1);
                        }
                        return Err(e);
                    },
                }
            }
            i = i + 1;
        }
        assert(all.take(i as int) =~= all);
    }
    Ok(())
}

/// The known action types.
#[derive(Debug)]
pub struct DslEngine {
    definitions: StrMap<ActionDefinition>,
}

impl View for DslEngine {
    type V = Map<Seq<char>, ActionDefinition>;

    closed spec fn view(&self) -> Map<Seq<char>, ActionDefinition> {
        self.definitions@
    }
}

/// The definition that judges the content of an action: that of the full type, else that of the
/// base type.
pub open spec fn judging_definition(
    m: Map<Seq<char>, ActionDefinition>,
    action_type: Seq<char>,
) -> Option<ActionDefinition> {
    if m.dom().contains(action_type) {
        Some(m[action_type])
    } else if m.dom().contains(helpers::base_type(action_type)) {
        Some(m[helpers::base_type(action_type)])
    } else {
        None
    }
}

/// The full name of a type with a subtype.
pub open spec fn full_type(typ: Seq<char>, sub_typ: Seq<char>) -> Seq<char> {
    typ + ":"@ + sub_typ
}

/// The known type under which an action is looked up: its full type, else its base type.
pub open spec fn resolved_type(
    m: Map<Seq<char>, ActionDefinition>,
    typ: Seq<char>,
    sub_typ: Option<Seq<char>>,
) -> Option<Seq<char>> {
    if sub_typ is Some && m.dom().contains(full_type(typ, sub_typ->0)) {
        Some(full_type(typ, sub_typ->0))
    } else if m.dom().contains(typ) {
        Some(typ)
    } else {
        None
    }
}

/// How a type implements a hook.
pub open spec fn hook_of(d: ActionDefinition, t: HookType) -> HookImplementation {
    match t {
        HookType::OnCreate => d.hooks.on_create,
        HookType::OnReceive => d.hooks.on_receive,
        HookType::OnAccept => d.hooks.on_accept,
        HookType::OnReject => d.hooks.on_reject,
    }
}

/// How many types have a given hook.
pub open spec fn hook_count(m: Map<Seq<char>, ActionDefinition>, t: HookType) -> nat {
    m.dom().filter(|k: Seq<char>| !(hook_of(m[k], t) is Absent)).len()
}

/// A problem found in a definition: the place and what is wrong there.
pub struct DefinitionProblem {
    pub path: String,
    pub message: String,
}

/// The problems in one line.
pub open spec fn problems_text(p: Seq<DefinitionProblem>) -> Seq<char>
    decreases p.len(),
{
    if p.len() == 0 {
        Seq::empty()
    } else {
        let one = p.last().path@ + ": "@ + p.last().message@;
        if p.len() == 1 {
            one
        } else {
            problems_text(p.drop_last()) + ", "@ + one
        }
    }
}

fn problems_line(p: &Vec<DefinitionProblem>) -> (r: String)
    ensures
        r@ == problems_text(p@),
{
    let mut out = String::new();
    let mut i: usize = 0;
    while i < p.len()
        invariant
            i <= p@.len(),
            out@ == problems_text(p@.take(i as int)),
        decreases p@.len() - i,
    {
        if i > 0 {
            out.append(", ");
        }
        out.append(p[i].path.as_str());
        out.append(": ");
        out.append(p[i].message.as_str());
        proof {
            assert(p@.take(i + 1).drop_last() =~= p@.take(i as int));
            assert(p@.take(i + 1).last() == p@[i as int]);
            assert(out@ =~= problems_text(p@.take(i + 1)));
        }
        i = i + 1;
    }
    assert(p@.take(i as int) =~= p@);
    out
}

/// The known types with one more, in place of an earlier definition of it.
pub open spec fn with_definition(
    m: Map<Seq<char>, ActionDefinition>,
    d: ActionDefinition,
) -> Map<Seq<char>, ActionDefinition> {
    m.insert(d.typ@, d)
}

impl DslEngine {
    /// An engine that knows no type.
    pub fn new() -> (r: DslEngine)
        ensures
            r@ == Map::<Seq<char>, ActionDefinition>::empty(),
    {
        DslEngine { definitions: StrMap::new() }
    }

    /// Makes a type known, in place of an earlier definition of it.
    pub fn load_definition(&mut self, definition: ActionDefinition)
        ensures
            final(self)@ == with_definition(old(self)@, definition),
    {
        let typ = definition.typ.clone();
        self.definitions.insert(typ, definition);
    }

    /// Makes a type known unless the validation of its definition found problems.
    pub fn load_checked_definition(
        &mut self,
        definition: ActionDefinition,
        problems: &Vec<DefinitionProblem>,
    ) -> (r: Result<(), Error>)
        ensures
            r is Ok <==> problems@.len() == 0,
            r is Ok ==> final(self)@ == with_definition(old(self)@, definition),
            r matches Err(e) ==> final(self)@ == old(self)@ && (e matches Error::ValidationError(m)
                && m@ == "Invalid action definition: "@ + problems_text(problems@)),
    {
        if problems.len() > 0 {
            let mut m = text::owned("Invalid action definition: ");
            m.append(problems_line(problems).as_str());
            return Err(Error::ValidationError(m));
        }
        self.load_definition(definition);
        Ok(())
    }

    pub fn get_definition(&self, action_type: &str) -> (r: Option<&ActionDefinition>)
        ensures
            match r {
                Some(d) => self@.dom().contains(action_type@) && *d == self@[action_type@],
                None => !self@.dom().contains(action_type@),
            },
    {
        self.definitions.get(action_type)
    }

    pub fn has_definition(&self, action_type: &str) -> (r: bool)
        ensures
            r == self@.dom().contains(action_type@),
    {
        self.definitions.contains_key(action_type)
    }

    /// The known type under which an action is looked up.
    pub fn resolve_action_type(&self, typ: &str, sub_typ: Option<&str>) -> (r: Option<String>)
        ensures
            r.deep_view() == resolved_type(self@, typ@, sub_typ.deep_view()),
    {
        if let Some(st) = sub_typ {
            let mut full = text::owned(typ);
            full.append(":");
            full.append(st);
            if self.definitions.contains_key(full.as_str()) {
                return Some(full);
            }
        }
        if self.definitions.contains_key(typ) {
            Some(text::owned(typ))
        } else {
            None
        }
    }

    /// Starts a hook of an action type: its definition says how the hook is implemented, and the
    /// registry which native function belongs to it.
    pub fn execute_hook(
        &self,
        registry: &HookRegistry,
        action_type: &str,
        hook_type: HookType,
    ) -> (r: Result<HookRun, Error>)
        ensures
            r is Ok <==> self@.dom().contains(action_type@),
            r matches Err(e) ==> (e matches Error::ValidationError(m) && m@
                == "Action definition not found: "@ + action_type@),
            r matches Ok(run) ==> {
                let i = hook_of(self@[action_type@], hook_type);
                let native = hooks::registered(registry@, action_type@, hook_type);
                &&& run.wf()
                &&& run.dsl_only == (i is Dsl)
                &&& run.native == (if i is Dsl {
                    None
                } else {
                    native
                })
                &&& run.operations == (match i {
                    HookImplementation::Dsl(ops) => ops@.len(),
                    HookImplementation::Hybrid { dsl, native: _ } => dsl@.len(),
                    _ => 0,
                })
                &&& run.operations > 0 ==> run.phase == hooks::HookPhase::Operation(0)
                &&& run.operations == 0 && run.native is Some ==> run.phase
                    == hooks::HookPhase::Native(run.native->0)
                &&& run.operations == 0 && run.native is None ==> (
                run.phase matches hooks::HookPhase::Done(res) && res.decides(true, None))
            },
    {
        match self.definitions.get(action_type) {
            None => {
                let mut m = text::owned("Action definition not found: ");
                m.append(action_type);
                Err(Error::ValidationError(m))
            },
            Some(d) => {
                let implementation = match hook_type {
                    HookType::OnCreate => &d.hooks.on_create,
                    HookType::OnReceive => &d.hooks.on_receive,
                    HookType::OnAccept => &d.hooks.on_accept,
                    HookType::OnReject => &d.hooks.on_reject,
                };
                let native: Option<HookFunction> = registry.get_hook(action_type, hook_type);
                Ok(hooks::begin_run(implementation, native))
            },
        }
    }

    pub fn get_behavior(&self, action_type: &str) -> (r: Option<&BehaviorFlags>)
        ensures
            match r {
                Some(b) => self@.dom().contains(action_type@) && *b == self@[action_type@].behavior,
                None => !self@.dom().contains(action_type@),
            },
    {
        match self.definitions.get(action_type) {
            Some(d) => Some(&d.behavior),
            None => None,
        }
    }

    pub fn get_field_constraints(&self, action_type: &str) -> (r: Option<&FieldConstraints>)
        ensures
            match r {
                Some(f) => self@.dom().contains(action_type@) && *f == self@[action_type@].fields,
                None => !self@.dom().contains(action_type@),
            },
    {
        match self.definitions.get(action_type) {
            Some(d) => Some(&d.fields),
            None => None,
        }
    }

    pub fn get_key_pattern(&self, action_type: &str) -> (r: Option<&str>)
        ensures
            r.deep_view() == (if self@.dom().contains(action_type@) {
                self@[action_type@].key_pattern.deep_view()
            } else {
                None
            }),
    {
        match self.definitions.get(action_type) {
            Some(d) => text::as_opt(&d.key_pattern),
            None => None,
        }
    }

    /// Holds the content of an action against the definition of its type.
    pub fn validate_content(&self, action_type: &str, content: Option<&Json>) -> (r: Result<
        (),
        Error,
    >)
        ensures
            r is Ok <==> (judging_definition(self@, action_type@) matches Some(d) && content_ok(
                d@,
                json::opt_json(content),
            )),
            reports(
                r,
                match judging_definition(self@, action_type@) {
                    Some(d) => content_trouble(d@, action_type@, json::opt_json(content)),
                    None => Some("Unknown action type: "@ + action_type@),
                },
            ),
    {
        let parts = helpers::extract_type_and_subtype(action_type);
        let found = match self.definitions.get(action_type) {
            Some(d) => Some(d),
            None => self.definitions.get(parts.0.as_str()),
        };
        let definition = match found {
            Some(d) => d,
            None => {
                let mut m = text::owned("Unknown action type: ");
                m.append(action_type);
                return Err(Error::ValidationError(m));
            },
        };
        let present = match content {
            Some(Json::Null) => false,
            Some(_) => true,
            None => false,
        };
        if let Some(FieldConstraint::Required) = definition.fields.content {
            if !present {
                let mut m = text::owned("Content is required for action type ");
                m.append(action_type);
                return Err(Error::ValidationError(m));
            }
        }
        if let Some(FieldConstraint::Forbidden) = definition.fields.content {
            if present {
                let mut m = text::owned("Content is forbidden for action type ");
                m.append(action_type);
                return Err(Error::ValidationError(m));
            }
        }
        match (&definition.schema, content) {
            (Some(wrapper), Some(value)) => match &wrapper.content {
                Some(schema) => validate_value_against_schema(value, schema, "content"),
                None => Ok(()),
            },
            _ => Ok(()),
        }
    }

    /// All known types, each once.
    pub fn list_action_types(&self) -> (r: Vec<String>)
        ensures
            r.deep_view().no_duplicates(),
            r.deep_view().to_set() == self@.dom(),
    {
        self.definitions.keys()
    }

    /// How many types are known, and how many of them have each hook.
    pub fn stats(&self) -> (r: DslEngineStats)
        ensures
            r.total_definitions == self@.dom().len(),
            r.hook_counts.on_create == hook_count(self@, HookType::OnCreate),
            r.hook_counts.on_receive == hook_count(self@, HookType::OnReceive),
            r.hook_counts.on_accept == hook_count(self@, HookType::OnAccept),
            r.hook_counts.on_reject == hook_count(self@, HookType::OnReject),
    {
        let total_definitions: usize = self.definitions.len();
        let on_create: usize = self.count_hooks(HookType::OnCreate);
        let on_receive: usize = self.count_hooks(HookType::OnReceive);
        let on_accept: usize = self.count_hooks(HookType::OnAccept);
        let on_reject: usize = self.count_hooks(HookType::OnReject);
        DslEngineStats {
            total_definitions,
            hook_counts: HookCounts { on_create, on_receive, on_accept, on_reject },
        }
    }

    fn count_hooks(&self, t: HookType) -> (r: usize)
        ensures
            r == hook_count(self@, t),
    {
        let n: usize = self.definitions.len();
        let ghost m = self.definitions@;
        let ghost ks = self.definitions.key_seq();
        let ghost has = |k: Seq<char>| !(hook_of(m[k], t) is Absent);
        let mut count: usize = 0;
        let mut i: usize = 0;
        proof {
            assert(ks.take(0).to_set() =~= Set::<Seq<char>>::empty());
            assert(ks.take(0).to_set().filter(has) =~= Set::<Seq<char>>::empty());
        }
        while i < n
            invariant
                n == self.definitions.pairs().len(),
                m == self.definitions@,
                ks == self.definitions.key_seq(),
                ks.no_duplicates(),
                has == (|k: Seq<char>| !(hook_of(m[k], t) is Absent)),
                forall|k: int|
                    0 <= k < n ==> m.dom().contains((#[trigger] self.definitions.pairs()[k]).0@)
                        && m[self.definitions.pairs()[k].0@] == self.definitions.pairs()[k].1,
                i <= n,
                count <= i,
                ks.take(i as int).to_set().filter(has).finite(),
                ks.take(i as int).to_set().filter(has).len() == count,
            decreases n - i,
        {
            let d = &self.definitions.at(i).1;
            let implementation = match t {
                HookType::OnCreate => &d.hooks.on_create,
                HookType::OnReceive => &d.hooks.on_receive,
                HookType::OnAccept => &d.hooks.on_accept,
                HookType::OnReject => &d.hooks.on_reject,
            };
            let ghost prev = ks.take(i as int).to_set();
            let ghost next = ks.take(i + 1).to_set();
            let ghost key = ks[i as int];
            proof {
                assert(key == self.definitions.pairs()[i as int].0@);
                assert(ks.take(i + 1) =~= ks.take(i as int).push(key));
                assert forall|x: Seq<char>| next.contains(x) <==> prev.insert(key).contains(x) by {
                    helpers::lemma_push_contains(ks.take(i as int), key, x);
                }
                assert(next =~= prev.insert(key));
                assert(!prev.contains(key)) by {
                    if prev.contains(key) {
                        let j = choose|j: int|
                            0 <= j < ks.take(i as int).len() && ks.take(i as int)[j] == key;
                        assert(ks[j] == key);
                    }
                }
            }
            if implementation.is_some() {
                proof {
                    assert(next.filter(has) =~= prev.filter(has).insert(key));
                }
                count = count + 1;
            } else {
                proof {
                    assert(next.filter(has) =~= prev.filter(has));
                }
            }
            i = i + 1;
        }
        proof {
            assert(ks.take(n as int) =~= ks);
        }
        count
    }
}

impl Default for DslEngine {
    fn default() -> (r: Self)
        ensures
            r@ == Map::<Seq<char>, ActionDefinition>::empty(),
    {
        DslEngine::new()
    }
}

#[derive(Debug, Clone, Copy)]
pub struct DslEngineStats {
    pub total_definitions: usize,
    pub hook_counts: HookCounts,
}

#[derive(Debug, Clone, Copy)]
pub struct HookCounts {
    pub on_create: usize,
    pub on_receive: usize,
    pub on_accept: usize,
    pub on_reject: usize,
}

impl Default for HookCounts {
    fn default() -> (r: Self)
        ensures
            r == (HookCounts { on_create: 0, on_receive: 0, on_accept: 0, on_reject: 0 }),
    {
        HookCounts { on_create: 0, on_receive: 0, on_accept: 0, on_reject: 0 }
    }
}

} // verus!
