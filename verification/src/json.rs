//! JSON values. The values themselves are those of serde_json; contracts speak of what they
//! hold by [`JsonView`].

use serde_json::Value;
use vstd::prelude::*;

verus! {

/// A JSON number as serde_json keeps it: an integer from zero up, a negative integer, or a
/// double, the last by its bit pattern.
pub enum JsonNumber {
    Unsigned(u64),
    Negative(i64),
    Double(u64),
}

/// What a JSON value holds.
pub enum JsonView {
    Null,
    Bool(bool),
    Number(JsonNumber),
    Text(Seq<char>),
    Array(Seq<JsonView>),
    Object(Map<Seq<char>, JsonView>),
}

/// A JSON value of serde_json.
#[verifier::external_type_specification]
#[verifier::external_body]
pub struct ExValue(serde_json::Value);

/// The reason why serde_json refuses a text.
#[verifier::external_type_specification]
#[verifier::external_body]
pub struct ExJsonError(serde_json::Error);

/// What a value of serde_json holds.
pub uninterp spec fn json_view(v: serde_json::Value) -> JsonView;

/// What the JSON text `bytes` says, as `serde_json::from_slice` reads it; `None` where it
/// refuses the text.
pub uninterp spec fn json_parse(bytes: Seq<u8>) -> Option<JsonView>;

/// The compact JSON text of a value, as serde_json displays it.
pub uninterp spec fn json_text(v: JsonView) -> Seq<char>;

/// What the elements of an array hold.
pub open spec fn json_views(values: Seq<serde_json::Value>) -> Seq<JsonView> {
    values.map_values(|v: serde_json::Value| json_view(v))
}

impl JsonView {
    /// The member `key` of an object; null where there is none, or no object.
    pub open spec fn member(self, key: Seq<char>) -> JsonView {
        match self {
            JsonView::Object(members) => if members.contains_key(key) {
                members[key]
            } else {
                JsonView::Null
            },
            _ => JsonView::Null,
        }
    }

    /// The number, where it is an integer from zero up.
    pub open spec fn unsigned(self) -> Option<u64> {
        match self {
            JsonView::Number(JsonNumber::Unsigned(n)) => Some(n),
            _ => None,
        }
    }

    /// The characters of a string.
    pub open spec fn text(self) -> Option<Seq<char>> {
        match self {
            JsonView::Text(s) => Some(s),
            _ => None,
        }
    }

    /// The elements of an array.
    pub open spec fn elements(self) -> Option<Seq<JsonView>> {
        match self {
            JsonView::Array(s) => Some(s),
            _ => None,
        }
    }
}

/// Reads a JSON text with `serde_json::from_slice`. It is a function of the bytes, which
/// `json_parse` names.
#[verifier::external_body]
pub(crate) fn parse(bytes: &[u8]) -> (r: Result<Value, serde_json::Error>)
    ensures
        json_parse(bytes@) == (match r {
            Ok(v) => Some(json_view(v)),
            Err(_) => None,
        }),
{
    serde_json::from_slice(bytes)
}

/// `Value::as_u64`: the number, if the value is an integer from zero up.
pub assume_specification[ serde_json::Value::as_u64 ](v: &serde_json::Value) -> (r: Option<u64>)
    ensures
        r == json_view(*v).unsigned(),
;

/// `Value::as_str`: the text, if the value is a string.
pub assume_specification[ serde_json::Value::as_str ](v: &serde_json::Value) -> (r: Option<&str>)
    ensures
        json_view(*v).text() == (match r {
            Some(s) => Some(s@),
            None => None,
        }),
;

/// `Value::as_array`: the elements, if the value is an array.
pub assume_specification[ serde_json::Value::as_array ](v: &serde_json::Value) -> (r: Option<
    &Vec<serde_json::Value>,
>)
    ensures
        json_view(*v).elements() == (match r {
            Some(s) => Some(json_views(s@)),
            None => None,
        }),
;

/// `value[key]` of serde_json: the member of that name, or null where the value is no object or
/// has no such member.
#[verifier::external_body]
pub(crate) fn member<'a>(v: &'a Value, key: &str) -> (r: &'a Value)
    ensures
        json_view(*r) == json_view(*v).member(key@),
{
    &v[key]
}

/// `Value::Object` of an empty `serde_json::Map`.
#[verifier::external_body]
pub(crate) fn object() -> (r: Value)
    ensures
        json_view(r) == JsonView::Object(Map::empty()),
{
    Value::Object(serde_json::Map::new())
}

/// `object[key] = value` of serde_json: puts a member into an object, in place of the one that
/// had the name.
#[verifier::external_body]
pub(crate) fn set_member(object: &mut Value, key: &str, value: Value)
    requires
        json_view(*old(object)) is Object,
    ensures
        json_view(*final(object)) == JsonView::Object(
            json_view(*old(object))->Object_0.insert(key@, json_view(value)),
        ),
{
    object[key] = value;
}

/// `Value::from(&str)`: a string.
#[verifier::external_body]
pub(crate) fn text_value(s: &str) -> (r: Value)
    ensures
        json_view(r) == JsonView::Text(s@),
{
    Value::from(s)
}

/// `Value::from(u64)`: an integer.
#[verifier::external_body]
pub(crate) fn number_value(n: u64) -> (r: Value)
    ensures
        json_view(r) == JsonView::Number(JsonNumber::Unsigned(n)),
{
    Value::from(n)
}

/// `Value::from(bool)`.
#[verifier::external_body]
pub(crate) fn bool_value(b: bool) -> (r: Value)
    ensures
        json_view(r) == JsonView::Bool(b),
{
    Value::from(b)
}

/// `Value::Null`.
#[verifier::external_body]
pub(crate) fn null_value() -> (r: Value)
    ensures
        json_view(r) == JsonView::Null,
{
    Value::Null
}

/// `Value::clone`: a value that holds the same.
#[verifier::external_body]
pub(crate) fn copy_value(v: &Value) -> (r: Value)
    ensures
        json_view(r) == json_view(*v),
{
    v.clone()
}

/// `Value::to_string`: the compact JSON text. Members of an object come in the order of their
/// names, so the text is a function of what the value holds, which `json_text` names.
#[verifier::external_body]
pub(crate) fn to_text(v: &Value) -> (r: String)
    ensures
        r@ == json_text(json_view(*v)),
{
    v.to_string()
}

/// A number, or null where there is none.
pub open spec fn number_or_null(n: Option<u64>) -> JsonView {
    match n {
        Some(n) => JsonView::Number(JsonNumber::Unsigned(n)),
        None => JsonView::Null,
    }
}

/// A text, or null where there is none.
pub open spec fn text_or_null(s: Option<Seq<char>>) -> JsonView {
    match s {
        Some(s) => JsonView::Text(s),
        None => JsonView::Null,
    }
}

/// The members with `key` added where `value` is there; without it the members as they are.
pub open spec fn with_optional(
    members: Map<Seq<char>, JsonView>,
    key: Seq<char>,
    value: Option<JsonView>,
) -> Map<Seq<char>, JsonView> {
    match value {
        Some(v) => members.insert(key, v),
        None => members,
    }
}

/// The compact JSON text of members in this order, by name and by what they hold: commas between
/// them, and a colon between a name and its value.
pub open spec fn members_text(members: Seq<(Seq<char>, JsonView)>) -> Seq<char>
    decreases members.len(),
{
    if members.len() == 0 {
        Seq::empty()
    } else {
        let (name, value) = members.last();
        let before = if members.len() == 1 {
            Seq::empty()
        } else {
            members_text(members.drop_last()) + ","@
        };
        before + json_text(JsonView::Text(name)) + ":"@ + json_text(value)
    }
}

/// The compact JSON text of an object with these members in this order.
pub open spec fn object_text(members: Seq<(Seq<char>, JsonView)>) -> Seq<char> {
    "{"@ + members_text(members) + "}"@
}

/// The members and after them `name` where `value` is there; without it the members as they are.
pub open spec fn and_optional(
    members: Seq<(Seq<char>, JsonView)>,
    name: Seq<char>,
    value: Option<JsonView>,
) -> Seq<(Seq<char>, JsonView)> {
    match value {
        Some(v) => members.push((name, v)),
        None => members,
    }
}

/// The text of an object under way, whose members stand in the order in which they are put in.
/// A [`Value`] would order them by name.
pub(crate) struct ObjectText {
    text: String,
    empty: bool,
    members: Ghost<Seq<(Seq<char>, JsonView)>>,
}

impl ObjectText {
    /// The members so far.
    pub(crate) closed spec fn members(self) -> Seq<(Seq<char>, JsonView)> {
        self.members@
    }

    /// The text is that of the members, up to the closing brace.
    pub(crate) closed spec fn wf(self) -> bool {
        &&& self.text@ == "{"@ + members_text(self.members@)
        &&& self.empty == (self.members@.len() == 0)
    }

    /// An object without members.
    pub(crate) fn new() -> (r: ObjectText)
        ensures
            r.wf(),
            r.members() == Seq::<(Seq<char>, JsonView)>::empty(),
    {
        let r = ObjectText { text: "{".to_owned(), empty: true, members: Ghost(Seq::empty()) };
        assert("{"@ + members_text(r.members@) =~= "{"@);
        r
    }

    /// Adds a member.
    pub(crate) fn put(&mut self, name: &str, value: &Value)
        requires
            old(self).wf(),
        ensures
            final(self).wf(),
            final(self).members() == old(self).members().push((name@, json_view(*value))),
    {
        let ghost before = self.members@;
        let ghost after = before.push((name@, json_view(*value)));
        if self.empty {
            self.empty = false;
        } else {
            self.text.append(",");
        }
        self.text.append(to_text(&text_value(name)).as_str());
        self.text.append(":");
        self.text.append(to_text(value).as_str());
        self.members = Ghost(after);
        proof {
            assert(after.drop_last() =~= before);
            assert(self.text@ =~= "{"@ + members_text(after));
        }
    }

    /// The whole text.
    pub(crate) fn finish(self) -> (r: String)
        requires
            self.wf(),
        ensures
            r@ == object_text(self.members()),
    {
        let mut text = self.text;
        text.append("}");
        text
    }
}

/// An optional text as an optional member.
pub open spec fn text_member(s: Option<Seq<char>>) -> Option<JsonView> {
    match s {
        Some(s) => Some(JsonView::Text(s)),
        None => None,
    }
}

/// The characters of an optional text.
pub open spec fn chars(s: Option<&str>) -> Option<Seq<char>> {
    match s {
        Some(s) => Some(s@),
        None => None,
    }
}

/// What an optional JSON value holds.
pub open spec fn held(v: Option<&Value>) -> Option<JsonView> {
    match v {
        Some(v) => Some(json_view(*v)),
        None => None,
    }
}

/// The JSON value of an optional number.
pub(crate) fn optional_number(n: Option<u64>) -> (r: Value)
    ensures
        json_view(r) == number_or_null(n),
{
    match n {
        Some(n) => number_value(n),
        None => null_value(),
    }
}

/// The view of an optional string.
pub open spec fn optional_chars(s: Option<String>) -> Option<Seq<char>> {
    match s {
        Some(s) => Some(s@),
        None => None,
    }
}

/// The JSON value of an optional string.
pub(crate) fn optional_text(s: &Option<String>) -> (r: Value)
    ensures
        json_view(r) == text_or_null(optional_chars(*s)),
{
    match s {
        Some(s) => text_value(s.as_str()),
        None => null_value(),
    }
}

} // verus!
