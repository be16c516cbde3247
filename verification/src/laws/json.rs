//! JSON objects: what a member holds, and the text of an object.

use crate::json;
use crate::json::{JsonNumber, JsonView};
use vstd::prelude::*;

verus! {

/// The members of an object are found by their names, and only an object has any.
pub proof fn members_are_found_by_name(v: JsonView, members: Map<Seq<char>, JsonView>, key: Seq<char>)
    ensures
        members.contains_key(key) ==> JsonView::Object(members).member(key) == members[key],
        !members.contains_key(key) ==> JsonView::Object(members).member(key) == JsonView::Null,
        v !is Object ==> v.member(key) == JsonView::Null,
{
}

/// A value is read as what it holds and as nothing else: a number from zero up, a text or an array.
pub proof fn values_are_read_as_what_they_hold(v: JsonView, n: u64, s: Seq<char>, a: Seq<JsonView>)
    ensures
        v.unsigned() == Some(n) <==> v == JsonView::Number(JsonNumber::Unsigned(n)),
        v.text() == Some(s) <==> v == JsonView::Text(s),
        v.elements() == Some(a) <==> v == JsonView::Array(a),
        v is Text || v is Array || v is Object || v is Null || v is Bool ==> v.unsigned() is None,
        v !is Text ==> v.text() is None,
        v !is Array ==> v.elements() is None,
{
}

/// What the elements of an array hold stands in their order, one for each.
pub proof fn elements_are_seen_one_by_one(values: Seq<serde_json::Value>, i: int)
    ensures
        json::json_views(values).len() == values.len(),
        0 <= i < values.len() ==> json::json_views(values)[i] == json::json_view(values[i]),
{
}

/// The text of one member has its name, a colon and its value; that of more has commas between
/// them, in their order; and an object puts braces round them.
pub proof fn object_texts_are_put_together(
    name: Seq<char>,
    value: JsonView,
    first: Seq<(Seq<char>, JsonView)>,
    rest: Seq<(Seq<char>, JsonView)>,
)
    ensures
        json::members_text(seq![(name, value)]) == json::json_text(JsonView::Text(name)) + seq![':']
            + json::json_text(value),
        first.len() > 0 && rest.len() > 0 ==> json::members_text(first + rest)
            == json::members_text(first) + seq![','] + json::members_text(rest),
        json::object_text(first) == seq!['{'] + json::members_text(first) + seq!['}'],
        json::object_text(Seq::empty()) == seq!['{', '}'],
    decreases rest.len(),
{
    reveal_strlit(":");
    reveal_strlit(",");
    reveal_strlit("{");
    reveal_strlit("}");
    assert(":"@ =~= seq![':']);
    assert(","@ =~= seq![',']);
    assert("{"@ =~= seq!['{']);
    assert("}"@ =~= seq!['}']);
    assert(seq![(name, value)].last() == (name, value));
    assert(json::members_text(seq![(name, value)]) =~= json::json_text(JsonView::Text(name)) + seq![
        ':',
    ] + json::json_text(value));
    if first.len() > 0 && rest.len() > 0 {
        let all = first + rest;
        assert(all.last() == rest.last());
        assert(all.drop_last() =~= first + rest.drop_last());
        if rest.len() == 1 {
            assert(first + rest.drop_last() =~= first);
            assert(json::members_text(all) =~= json::members_text(first) + seq![',']
                + json::members_text(rest));
        } else {
            object_texts_are_put_together(name, value, first, rest.drop_last());
            assert(json::members_text(all) =~= json::members_text(first) + seq![',']
                + json::members_text(rest));
        }
    }
    assert(json::object_text(Seq::empty()) =~= seq!['{', '}']);
}

/// The value of the member `name` in a list of members, where it is there.
pub open spec fn value_of(members: Seq<(Seq<char>, JsonView)>, name: Seq<char>) -> Option<JsonView>
    decreases members.len(),
{
    if members.len() == 0 {
        None
    } else if members.last().0 == name {
        Some(members.last().1)
    } else {
        value_of(members.drop_last(), name)
    }
}

/// The list of the member `name` where it has a value; empty without one.
pub open spec fn present(name: Seq<char>, value: Option<JsonView>) -> Seq<(Seq<char>, JsonView)> {
    match value {
        Some(v) => seq![(name, v)],
        None => seq![],
    }
}

pub(crate) proof fn lemma_value_of_put(
    members: Seq<(Seq<char>, JsonView)>,
    name: Seq<char>,
    value: Option<JsonView>,
    wanted: Seq<char>,
)
    ensures
        value_of(members + present(name, value), wanted) == (if wanted == name && value is Some {
            value
        } else {
            value_of(members, wanted)
        }),
{
    match value {
        Some(v) => {
            let all = members + present(name, value);
            assert(all.drop_last() =~= members);
        },
        None => {
            assert(members + present(name, value) =~= members);
        },
    }
}

} // verus!
