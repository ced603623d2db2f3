//! JSON values as action content carries them.
use crate::decimal;
use crate::text;
use serde_with::de::DeserializeAsWrap;
use serde_with::Same;
use vstd::prelude::*;

verus! {

/// A JSON value. A number outside the 64-bit integers is kept in its written form; an object
/// keeps its members in a row, and of two members with one name the later one counts.
#[derive(Debug, PartialEq)]
pub enum Json {
    Null,
    Bool(bool),
    Unsigned(u64),
    Negative(i64),
    Real(String),
    Text(String),
    Array(Vec<Json>),
    Object(Vec<(String, Json)>),
}

/// What a JSON value says.
pub enum JsonView {
    Null,
    Bool(bool),
    Unsigned(u64),
    Negative(i64),
    Real(Seq<char>),
    Text(Seq<char>),
    Array(Seq<JsonView>),
    Object(Seq<(Seq<char>, JsonView)>),
}

/// What a value says, part by part.
pub open spec fn says(j: Json) -> JsonView
    decreases j,
{
    match j {
        Json::Null => JsonView::Null,
        Json::Bool(b) => JsonView::Bool(b),
        Json::Unsigned(n) => JsonView::Unsigned(n),
        Json::Negative(n) => JsonView::Negative(n),
        Json::Real(s) => JsonView::Real(s@),
        Json::Text(s) => JsonView::Text(s@),
        Json::Array(a) => JsonView::Array(
            Seq::new(
                a@.len(),
                |i: int|
                    if 0 <= i < a@.len() {
                        says(a@[i])
                    } else {
                        JsonView::Null
                    },
            ),
        ),
        Json::Object(o) => JsonView::Object(
            Seq::new(
                o@.len(),
                |i: int|
                    if 0 <= i < o@.len() {
                        (o@[i].0@, says(o@[i].1))
                    } else {
                        (Seq::empty(), JsonView::Null)
                    },
            ),
        ),
    }
}

impl View for Json {
    type V = JsonView;

    open spec fn view(&self) -> JsonView {
        says(*self)
    }
}

impl JsonView {
    /// The member of an object with the given name; nothing for a value of another kind.
    pub open spec fn member(self, name: Seq<char>) -> Option<JsonView> {
        match self {
            JsonView::Object(o) => last_named(o, name),
            _ => None,
        }
    }

    /// The characters of a text value.
    pub open spec fn as_text(self) -> Option<Seq<char>> {
        match self {
            JsonView::Text(s) => Some(s),
            _ => None,
        }
    }

    pub open spec fn is_number(self) -> bool {
        self is Unsigned || self is Negative || self is Real
    }

    /// The value as a signed 64-bit integer.
    pub open spec fn signed(self) -> Option<i64> {
        match self {
            JsonView::Unsigned(n) => if n <= i64::MAX {
                Some(n as i64)
            } else {
                None
            },
            JsonView::Negative(n) => Some(n),
            _ => None,
        }
    }

    /// The text member of an object with the given name.
    pub open spec fn text_member(self, name: Seq<char>) -> Option<Seq<char>> {
        match self.member(name) {
            Some(v) => v.as_text(),
            None => None,
        }
    }
}

/// The value of the last pair with the given name.
pub open spec fn last_named(o: Seq<(Seq<char>, JsonView)>, name: Seq<char>) -> Option<JsonView>
    decreases o.len(),
{
    if o.len() == 0 {
        None
    } else if o.last().0 == name {
        Some(o.last().1)
    } else {
        last_named(o.drop_last(), name)
    }
}

/// The view of an optional value.
pub open spec fn opt_json(v: Option<&Json>) -> Option<JsonView> {
    match v {
        Some(j) => Some(j@),
        None => None,
    }
}

/// What an optional value says.
pub open spec fn held(v: Option<Json>) -> Option<JsonView> {
    match v {
        Some(j) => Some(j@),
        None => None,
    }
}

/// The compact JSON notation of a value.
pub uninterp spec fn compact_notation(v: JsonView) -> Seq<char>;

/// `serde_json::Value`, the form in which the JSON writer takes a value.
#[verifier::external_type_specification]
#[verifier::external_body]
pub struct ExValue(serde_json::Value);

/// Hands a value over as `serde_json::Value`, variant by variant. A number in written form goes
/// through `serde_json::from_str` and becomes whatever that reads; null where it reads nothing.
#[verifier::external_body]
pub(crate) fn to_value(j: &Json) -> serde_json::Value {
    match j {
        Json::Null => serde_json::Value::Null,
        Json::Bool(b) => serde_json::Value::Bool(*b),
        Json::Unsigned(n) => serde_json::Value::from(*n),
        Json::Negative(n) => serde_json::Value::from(*n),
        Json::Real(s) => serde_json::from_str(s).unwrap_or_default(),
        Json::Text(s) => serde_json::Value::String(s.clone()),
        Json::Array(a) => serde_json::Value::Array(a.iter().map(to_value).collect()),
        Json::Object(o) => serde_json::Value::Object(
            o.iter().map(|m| (m.0.clone(), to_value(&m.1))).collect(),
        ),
    }
}

/// `serde_json::to_string`: the compact notation is a function of the value. Null, booleans and
/// the 64-bit integers are written as `null`, `true`, `false` and their decimal notation; how
/// texts are escaped and members ordered is left to the name.
#[verifier::external_body]
pub(crate) fn write_compact(j: &Json) -> (r: String)
    ensures
        r@ == compact_notation(j@),
        j@ is Null ==> r@ == "null"@,
        j@ == JsonView::Bool(true) ==> r@ == "true"@,
        j@ == JsonView::Bool(false) ==> r@ == "false"@,
        j@ matches JsonView::Unsigned(n) ==> r@ == decimal::decimal_text(n as nat),
        j@ matches JsonView::Negative(n) ==> r@ == decimal::integer_text(n as int),
{
    serde_json::to_string(&to_value(j)).unwrap_or_default()
}

/// The value that a JSON text denotes.
pub uninterp spec fn json_of_text(s: Seq<char>) -> Option<JsonView>;

/// Whether a name of a member is an ordinary one. The JSON reader keeps names with a leading `$`
/// for itself.
pub open spec fn ordinary_name(name: Seq<char>) -> bool {
    name.len() == 0 || name[0] != '$'
}

/// Whether a value is an object whose members have ordinary names and are all null, booleans,
/// integers or texts.
pub open spec fn flat(v: JsonView) -> bool {
    v is Object && forall|i: int|
        0 <= i < v->Object_0.len() ==> {
            let x = (#[trigger] v->Object_0[i]).1;
            ordinary_name(v->Object_0[i].0) && (x is Null || x is Bool || x is Unsigned || x is Text
                || (x is Negative && x->Negative_0 < 0))
        }
}

/// Whether two objects have the same members.
pub open spec fn same_members(a: JsonView, b: JsonView) -> bool {
    a is Object && b is Object && forall|name: Seq<char>| #[trigger] a.member(name) == b.member(name)
}

/// Takes a value over from `serde_json::Value`, variant by variant.
#[verifier::external_body]
pub(crate) fn from_value(v: serde_json::Value) -> Json {
    match v {
        serde_json::Value::Null => Json::Null,
        serde_json::Value::Bool(b) => Json::Bool(b),
        serde_json::Value::Number(n) => match (n.as_u64(), n.as_i64()) {
            (Some(u), _) => Json::Unsigned(u),
            (None, Some(i)) => Json::Negative(i),
            _ => Json::Real(n.to_string()),
        },
        serde_json::Value::String(s) => Json::Text(s),
        serde_json::Value::Array(a) => Json::Array(a.into_iter().map(from_value).collect()),
        serde_json::Value::Object(o) => Json::Object(
            o.into_iter().map(|m| (m.0, from_value(m.1))).collect(),
        ),
    }
}

/// `serde_json::from_str`: what a text denotes is a function of the text; nothing where it is no
/// JSON. Reading what was written for an object of null, boolean, integer and text members gives
/// an object with the same members, unless a name starts with `$`: the reader takes an object
/// with such a name of its own for something else.
#[verifier::external_body]
pub(crate) fn read_json(s: &str) -> (r: Option<Json>)
    ensures
        (match r {
            Some(j) => Some(j@),
            None => None,
        }) == json_of_text(s@),
        forall|v: JsonView| #[trigger]
            compact_notation(v) == s@ && flat(v) ==> r is Some && same_members(r->0@, v),
{
    serde_json::from_str::<serde_json::Value>(s).ok().map(from_value)
}

/// The object that a JSON text denotes, with every member that it names, in order.
pub uninterp spec fn object_of_text(s: Seq<char>) -> Option<JsonView>;

/// Whether an object names a member twice.
pub open spec fn named_twice(o: Seq<(Seq<char>, JsonView)>, name: Seq<char>) -> bool {
    exists|i: int, j: int|
        0 <= i < j < o.len() && (#[trigger] o[i]).0 == name && (#[trigger] o[j]).0 == name
}

/// `serde_json::from_str` for `serde_with::Map`, which keeps the members of an object as they
/// come: what a text denotes is a function of the text, and it is an object; nothing where it is
/// none. Reading what was written for an object of null, boolean, integer and text members gives
/// an object with the same members, each named once, unless a name starts with `$`.
#[verifier::external_body]
fn read_object(s: &str) -> (r: Option<Json>)
    ensures
        (match r {
            Some(j) => Some(j@),
            None => None,
        }) == object_of_text(s@),
        r matches Some(j) ==> j@ is Object,
        forall|v: JsonView| #[trigger]
            compact_notation(v) == s@ && flat(v) ==> r is Some && same_members(r->0@, v) && (
            forall|name: Seq<char>| !named_twice(r->0@->Object_0, name)),
{
    let read: Result<
        DeserializeAsWrap<Vec<(String, serde_json::Value)>, serde_with::Map<Same, Same>>,
        serde_json::Error,
    > = serde_json::from_str(s);
    let members = read.ok()?.into_inner();
    Some(Json::Object(members.into_iter().map(|m| (m.0, from_value(m.1))).collect()))
}

/// A record with the given fields, which may be written without their names: an array holds the
/// values in the order of the fields, and is no record where it holds too many.
pub open spec fn with_names(v: JsonView, names: Seq<Seq<char>>) -> JsonView {
    match v {
        JsonView::Array(a) => if a.len() <= names.len() {
            JsonView::Object(Seq::new(a.len(), |i: int| (names[i], a[i])))
        } else {
            JsonView::Null
        },
        _ => v,
    }
}

/// An integer as a value.
pub open spec fn integer_json(n: i64) -> JsonView {
    if n < 0 {
        JsonView::Negative(n)
    } else {
        JsonView::Unsigned(n as u64)
    }
}

pub fn integer(n: i64) -> (r: Json)
    ensures
        r@ == integer_json(n),
{
    if n < 0 {
        Json::Negative(n)
    } else {
        Json::Unsigned(n as u64)
    }
}

/// Gives the fields of a record their names.
fn name_fields(v: Json, names: &Vec<&str>) -> (r: Json)
    ensures
        r@ == with_names(v@, names.deep_view()),
{
    match v {
        Json::Array(a) => {
            if a.len() > names.len() {
                return Json::Null;
            }
            let mut o: Vec<(String, Json)> = Vec::new();
            let mut i: usize = 0;
            while i < a.len()
                invariant
                    v == Json::Array(a),
                    a@.len() <= names@.len(),
                    i <= a@.len(),
                    o@.len() == i,
                    forall|k: int|
                        0 <= k < i ==> (#[trigger] o@[k]).0@ == names@[k]@ && o@[k].1@ == a@[k]@,
                decreases a@.len() - i,
            {
                o.push((text::owned(names[i]), a[i].duplicate()));
                i = i + 1;
            }
            let j = Json::Object(o);
            proof {
                reveal_with_fuel(says, 2);
                assert(j@->Object_0 =~= with_names(v@, names.deep_view())->Object_0);
            }
            j
        },
        _ => v,
    }
}

/// The record with the given fields that a text denotes: an object that names none of them twice,
/// or an array of their values.
pub open spec fn record_of(s: Seq<char>, names: Seq<Seq<char>>) -> Option<JsonView> {
    match object_of_text(s) {
        Some(v) => if exists|k: int|
            0 <= k < names.len() && named_twice(v->Object_0, #[trigger] names[k]) {
            None
        } else {
            Some(v)
        },
        None => match json_of_text(s) {
            Some(v) => if v is Array {
                Some(with_names(v, names))
            } else {
                None
            },
            None => None,
        },
    }
}

fn has_twice(o: &Vec<(String, Json)>, name: &str) -> (r: bool)
    ensures
        r == named_twice(says(Json::Object(*o))->Object_0, name@),
{
    let ghost all = says(Json::Object(*o))->Object_0;
    let mut seen = false;
    let mut i: usize = 0;
    let ghost mut first: int = 0;
    assert(all.len() == o@.len());
    assert(forall|k: int| 0 <= k < o@.len() ==> #[trigger] all[k] == (o@[k].0@, o@[k].1@));
    while i < o.len()
        invariant
            i <= o@.len(),
            all == says(Json::Object(*o))->Object_0,
            all.len() == o@.len(),
            forall|k: int| 0 <= k < o@.len() ==> #[trigger] all[k] == (o@[k].0@, o@[k].1@),
            seen ==> 0 <= first < i && all[first].0 == name@,
            !seen ==> forall|k: int| 0 <= k < i ==> (#[trigger] all[k]).0 != name@,
            seen ==> forall|k: int| 0 <= k < i && k != first ==> (#[trigger] all[k]).0 != name@,
        decreases o@.len() - i,
    {
        assert(all[i as int].0 == o@[i as int].0@);
        if text::same(o[i].0.as_str(), name) {
            if seen {
                assert(all[first].0 == name@ && all[i as int].0 == name@);
                return true;
            }
            seen = true;
            proof {
                first = i as int;
            }
        }
        i = i + 1;
    }
    proof {
        if named_twice(all, name@) {
            let (a, b) = choose|a: int, b: int|
                0 <= a < b < all.len() && (#[trigger] all[a]).0 == name@ && (#[trigger] all[b]).0
                    == name@;
            assert(a == first && b == first);
        }
    }
    false
}

/// Reads a record with the given fields. What was written of a flat object is read as an object
/// with the same members.
pub(crate) fn read_record(s: &str, names: &Vec<&str>) -> (r: Option<Json>)
    ensures
        (match r {
            Some(j) => Some(j@),
            None => None,
        }) == record_of(s@, names.deep_view()),
        forall|v: JsonView| #[trigger]
            compact_notation(v) == s@ && flat(v) ==> r is Some && same_members(r->0@, v),
{
    match read_object(s) {
        Some(v) => {
            if let Json::Object(o) = &v {
                let mut i: usize = 0;
                while i < names.len()
                    invariant
                        i <= names@.len(),
                        v == Json::Object(*o),
                        object_of_text(s@) == Some(v@),
                        forall|k: int|
                            0 <= k < i ==> !named_twice(v@->Object_0, #[trigger] names.deep_view()[k]),
                        forall|x: JsonView| #[trigger]
                            compact_notation(x) == s@ && flat(x) ==> same_members(v@, x) && (
                            forall|name: Seq<char>| !named_twice(v@->Object_0, name)),
                    decreases names@.len() - i,
                {
                    if has_twice(o, names[i]) {
                        assert(named_twice(v@->Object_0, names.deep_view()[i as int]));
                        return None;
                    }
                    i = i + 1;
                }
            }
            Some(v)
        },
        None => match read_json(s) {
            Some(v) => match v {
                Json::Array(_) => Some(name_fields(v, names)),
                _ => None,
            },
            None => None,
        },
    }
}

impl Json {
    /// The member of an object with the given name.
    pub fn get(&self, name: &str) -> (r: Option<&Json>)
        ensures
            opt_json(r) == self@.member(name@),
            r matches Some(v) ==> decreases_to!(*self => *v),
    {
        match self {
            Json::Object(o) => {
                let mut i: usize = o.len();
                let ghost all = self@->Object_0;
                assert(all.take(all.len() as int) =~= all);
                while i > 0
                    invariant
                        i <= o@.len(),
                        *self == Json::Object(*o),
                        all == self@->Object_0,
                        all.len() == o@.len(),
                        forall|k: int|
                            0 <= k < o@.len() ==> #[trigger] all[k] == (o@[k].0@, o@[k].1@),
                        last_named(all, name@) == last_named(all.take(i as int), name@),
                    decreases i,
                {
                    i = i - 1;
                    let ghost prefix = all.take(i + 1);
                    assert(prefix.last() == all[i as int]);
                    assert(prefix.drop_last() =~= all.take(i as int));
                    if text::same(o[i].0.as_str(), name) {
                        assert(decreases_to!(*o => o@[i as int]));
                        return Some(&o[i].1);
                    }
                }
                None
            },
            _ => None,
        }
    }

    /// The characters of a text value.
    pub fn as_str(&self) -> (r: Option<&str>)
        ensures
            r.deep_view() == self@.as_text(),
    {
        match self {
            Json::Text(s) => Some(s.as_str()),
            _ => None,
        }
    }

    /// The text member of an object with the given name.
    pub fn get_text(&self, name: &str) -> (r: Option<&str>)
        ensures
            r.deep_view() == self@.text_member(name@),
    {
        match self.get(name) {
            Some(v) => v.as_str(),
            None => None,
        }
    }

    /// The value as an unsigned 64-bit integer.
    pub fn as_u64(&self) -> (r: Option<u64>)
        ensures
            r == (match self@ {
                JsonView::Unsigned(n) => Some(n),
                _ => None::<u64>,
            }),
    {
        match self {
            Json::Unsigned(n) => Some(*n),
            _ => None,
        }
    }

    /// The value as a signed 64-bit integer.
    pub fn as_i64(&self) -> (r: Option<i64>)
        ensures
            r == self@.signed(),
    {
        match self {
            Json::Unsigned(n) => {
                if *n <= 9223372036854775807 {
                    Some(*n as i64)
                } else {
                    None
                }
            },
            Json::Negative(n) => Some(*n),
            _ => None,
        }
    }

    /// A copy of the value.
    pub fn duplicate(&self) -> (r: Json)
        ensures
            r@ == self@,
        decreases self,
    {
        match self {
            Json::Null => Json::Null,
            Json::Bool(b) => Json::Bool(*b),
            Json::Unsigned(n) => Json::Unsigned(*n),
            Json::Negative(n) => Json::Negative(*n),
            Json::Real(s) => Json::Real(s.clone()),
            Json::Text(s) => Json::Text(s.clone()),
            Json::Array(a) => {
                let mut out: Vec<Json> = Vec::new();
                let mut i: usize = 0;
                while i < a.len()
                    invariant
                        *self == Json::Array(*a),
                        i <= a@.len(),
                        out@.len() == i,
                        forall|k: int| 0 <= k < i ==> (#[trigger] out@[k])@ == a@[k]@,
                    decreases a@.len() - i,
                {
                    assert(decreases_to!(*self => self->Array_0));
                    assert(decreases_to!(*a => a@[i as int]));
                    assert(decreases_to!(*self => a@[i as int]));
                    let copy = a[i].duplicate();
                    out.push(copy);
                    i = i + 1;
                }
                let r = Json::Array(out);
                assert(r@->Array_0 =~= self@->Array_0);
                r
            },
            Json::Object(o) => {
                let mut out: Vec<(String, Json)> = Vec::new();
                let mut i: usize = 0;
                while i < o.len()
                    invariant
                        *self == Json::Object(*o),
                        i <= o@.len(),
                        out@.len() == i,
                        forall|k: int|
                            0 <= k < i ==> (#[trigger] out@[k]).0@ == o@[k].0@ && out@[k].1@
                                == o@[k].1@,
                    decreases o@.len() - i,
                {
                    assert(decreases_to!(*self => self->Object_0));
                    assert(decreases_to!(*o => o@[i as int]));
                    assert(decreases_to!(o@[i as int] => o@[i as int].1));
                    assert(decreases_to!(*self => o@[i as int].1));
                    let copy = o[i].1.duplicate();
                    out.push((o[i].0.clone(), copy));
                    i = i + 1;
                }
                let r = Json::Object(out);
                assert(r@->Object_0 =~= self@->Object_0);
                r
            },
        }
    }
}

} // verus!
