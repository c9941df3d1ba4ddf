//! The JSON documents that the bridge publishes.

use vstd::prelude::*;

verus! {

/// A JSON document. Object members keep the order in which they are written out.
#[derive(Debug, PartialEq)]
pub enum Json {
    Bool(bool),
    Number(u64),
    Text(String),
    Array(Vec<Json>),
    Object(Vec<(String, Json)>),
}

/// The mathematical content of a [`Json`] document.
pub enum JsonView {
    Bool(bool),
    Number(nat),
    Text(Seq<char>),
    Array(Seq<JsonView>),
    Object(Seq<(Seq<char>, JsonView)>),
}

impl View for Json {
    type V = JsonView;

    open spec fn view(&self) -> JsonView
        decreases self,
    {
        match self {
            Json::Bool(b) => JsonView::Bool(*b),
            Json::Number(n) => JsonView::Number(*n as nat),
            Json::Text(s) => JsonView::Text(s@),
            Json::Array(items) => JsonView::Array(
                Seq::new(
                    items@.len(),
                    |i: int|
                        if 0 <= i < items@.len() {
                            items@[i].view()
                        } else {
                            arbitrary()
                        },
                ),
            ),
            Json::Object(members) => JsonView::Object(
                Seq::new(
                    members@.len(),
                    |i: int|
                        if 0 <= i < members@.len() {
                            (members@[i].0@, members@[i].1.view())
                        } else {
                            arbitrary()
                        },
                ),
            ),
        }
    }
}

/// The content of array items.
pub open spec fn item_views(items: Seq<Json>) -> Seq<JsonView> {
    Seq::new(items.len(), |i: int| items[i]@)
}

/// The content of object members.
pub open spec fn member_views(members: Seq<(String, Json)>) -> Seq<(Seq<char>, JsonView)> {
    Seq::new(members.len(), |i: int| (members[i].0@, members[i].1@))
}

/// Numbers as array items.
pub open spec fn number_items(values: Seq<u16>) -> Seq<JsonView> {
    Seq::new(values.len(), |i: int| JsonView::Number(values[i] as nat))
}

/// Truth values as array items.
pub open spec fn bool_items(values: Seq<bool>) -> Seq<JsonView> {
    Seq::new(values.len(), |i: int| JsonView::Bool(values[i]))
}

/// An array of the given items.
pub(crate) fn array(items: Vec<Json>) -> (json: Json)
    ensures
        json@ == JsonView::Array(item_views(items@)),
{
    let ghost views = item_views(items@);
    let json = Json::Array(items);
    reveal_with_fuel(<Json as View>::view, 2);
    assert(json@->Array_0 =~= views);
    json
}

/// An object with the given members.
pub(crate) fn object(members: Vec<(String, Json)>) -> (json: Json)
    ensures
        json@ == JsonView::Object(member_views(members@)),
{
    let ghost views = member_views(members@);
    let json = Json::Object(members);
    reveal_with_fuel(<Json as View>::view, 2);
    assert(json@->Object_0 =~= views);
    json
}

/// Adds a member.
pub(crate) fn put(members: &mut Vec<(String, Json)>, name: &str, value: Json)
    ensures
        member_views(final(members)@) == member_views(old(members)@).push((name@, value@)),
{
    let ghost view = value@;
    members.push((name.to_string(), value));
    assert(member_views(members@) =~= member_views(old(members)@).push((name@, view)));
}

/// A text.
pub(crate) fn text(s: &str) -> (json: Json)
    ensures
        json@ == JsonView::Text(s@),
{
    Json::Text(s.to_string())
}

/// An array of numbers.
pub(crate) fn number_array(values: &Vec<u16>) -> (json: Json)
    ensures
        json@ == JsonView::Array(number_items(values@)),
{
    let mut items: Vec<Json> = Vec::new();
    let mut i: usize = 0;
    while i < values.len()
        invariant
            i <= values@.len(),
            item_views(items@) == number_items(values@.take(i as int)),
        decreases values@.len() - i,
    {
        let ghost before = items@;
        items.push(Json::Number(values[i] as u64));
        assert(item_views(items@) =~= item_views(before).push(
            JsonView::Number(values@[i as int] as nat),
        ));
        assert(number_items(values@.take(i + 1)) =~= number_items(values@.take(i as int)).push(
            JsonView::Number(values@[i as int] as nat),
        ));
        i += 1;
    }
    assert(values@.take(i as int) =~= values@);
    array(items)
}

/// An array of truth values.
pub(crate) fn bool_array(values: &Vec<bool>) -> (json: Json)
    ensures
        json@ == JsonView::Array(bool_items(values@)),
{
    let mut items: Vec<Json> = Vec::new();
    let mut i: usize = 0;
    while i < values.len()
        invariant
            i <= values@.len(),
            item_views(items@) == bool_items(values@.take(i as int)),
        decreases values@.len() - i,
    {
        let ghost before = items@;
        items.push(Json::Bool(values[i]));
        assert(item_views(items@) =~= item_views(before).push(
            JsonView::Bool(values@[i as int]),
        ));
        assert(bool_items(values@.take(i + 1)) =~= bool_items(values@.take(i as int)).push(
            JsonView::Bool(values@[i as int]),
        ));
        i += 1;
    }
    assert(values@.take(i as int) =~= values@);
    array(items)
}

} // verus!
