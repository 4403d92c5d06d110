use vstd::prelude::*;

verus! {

/// A JSON value. A number is kept as its text, and the members of an
/// object in their order.
#[derive(Debug, PartialEq)]
pub enum JsonValue {
    Null,
    Bool(bool),
    Number(String),
    Text(String),
    Array(Vec<JsonValue>),
    Object(Vec<(String, JsonValue)>),
}

/// A JSON value as a mathematical value.
pub enum JsonView {
    Null,
    Bool(bool),
    Number(Seq<char>),
    Text(Seq<char>),
    Array(Seq<JsonView>),
    Object(Seq<(Seq<char>, JsonView)>),
}

/// The mathematical value of a JSON value.
pub open spec fn json_view(value: JsonValue) -> JsonView
    decreases value,
{
    match value {
        JsonValue::Null => JsonView::Null,
        JsonValue::Bool(b) => JsonView::Bool(b),
        JsonValue::Number(text) => JsonView::Number(text@),
        JsonValue::Text(text) => JsonView::Text(text@),
        JsonValue::Array(items) => JsonView::Array(
            Seq::new(
                items@.len(),
                |i: int|
                    if 0 <= i < items@.len() {
                        json_view(items@[i])
                    } else {
                        JsonView::Null
                    },
            ),
        ),
        JsonValue::Object(members) => JsonView::Object(
            Seq::new(
                members@.len(),
                |i: int|
                    if 0 <= i < members@.len() {
                        (members@[i].0@, json_view(members@[i].1))
                    } else {
                        (Seq::empty(), JsonView::Null)
                    },
            ),
        ),
    }
}

/// The value without the members of objects that are null, at any depth.
/// The items of an array stay, null or not.
pub open spec fn pruned(value: JsonView) -> JsonView
    decreases value, 0nat,
{
    match value {
        JsonView::Array(items) => JsonView::Array(pruned_items(items)),
        JsonView::Object(members) => JsonView::Object(pruned_members(members)),
        _ => value,
    }
}

/// The items, each pruned.
pub open spec fn pruned_items(items: Seq<JsonView>) -> Seq<JsonView>
    decreases items, 1nat,
{
    if items.len() == 0 {
        Seq::empty()
    } else {
        pruned_items(items.drop_last()).push(pruned(items.last()))
    }
}

/// The members that are not null, each pruned.
pub open spec fn pruned_members(members: Seq<(Seq<char>, JsonView)>) -> Seq<(Seq<char>, JsonView)>
    decreases members, 1nat,
{
    if members.len() == 0 {
        Seq::empty()
    } else if members.last().1 is Null {
        pruned_members(members.drop_last())
    } else {
        pruned_members(members.drop_last()).push((members.last().0, pruned(members.last().1)))
    }
}

/// A copy of the value without the members of objects that are null, at
/// any depth.
pub fn prune_null_object_fields(value: &JsonValue) -> (copy: JsonValue)
    ensures
        json_view(copy) == pruned(json_view(*value)),
    decreases value,
{
    match value {
        JsonValue::Null => JsonValue::Null,
        JsonValue::Bool(b) => JsonValue::Bool(*b),
        JsonValue::Number(text) => JsonValue::Number(text.clone()),
        JsonValue::Text(text) => JsonValue::Text(text.clone()),
        JsonValue::Array(items) => {
            let ghost views = json_view(*value)->Array_0;
            let mut copies: Vec<JsonValue> = Vec::new();
            let mut i: usize = 0;
            assert(views.take(0) =~= Seq::<JsonView>::empty());
            while i < items.len()
                invariant
                    i <= items.len(),
                    *value == JsonValue::Array(*items),
                    views == json_view(*value)->Array_0,
                    views.len() == items@.len(),
                    json_view(JsonValue::Array(copies))->Array_0 == pruned_items(
                        views.take(i as int),
                    ),
                decreases items.len() - i,
            {
                let ghost before = json_view(JsonValue::Array(copies))->Array_0;
                assert(views.take(i + 1).drop_last() == views.take(i as int));
                assert(views.take(i + 1).last() == json_view(items@[i as int]));
                let copy = prune_null_object_fields(&items[i]);
                copies.push(copy);
                assert(json_view(JsonValue::Array(copies))->Array_0 =~= before.push(
                    json_view(copy),
                ));
                i += 1;
            }
            assert(views.take(items.len() as int) == views);
            JsonValue::Array(copies)
        },
        JsonValue::Object(members) => {
            let ghost views = json_view(*value)->Object_0;
            let mut copies: Vec<(String, JsonValue)> = Vec::new();
            let mut i: usize = 0;
            assert(views.take(0) =~= Seq::<(Seq<char>, JsonView)>::empty());
            while i < members.len()
                invariant
                    i <= members.len(),
                    *value == JsonValue::Object(*members),
                    views == json_view(*value)->Object_0,
                    views.len() == members@.len(),
                    json_view(JsonValue::Object(copies))->Object_0 == pruned_members(
                        views.take(i as int),
                    ),
                decreases members.len() - i,
            {
                let ghost before = json_view(JsonValue::Object(copies))->Object_0;
                assert(views.take(i + 1).drop_last() == views.take(i as int));
                assert(views.take(i + 1).last() == (
                    members@[i as int].0@,
                    json_view(members@[i as int].1),
                ));
                let member = &members[i];
                let is_null = match &member.1 {
                    JsonValue::Null => true,
                    _ => false,
                };
                if !is_null {
                    let copy = prune_null_object_fields(&member.1);
                    copies.push((member.0.clone(), copy));
                    assert(json_view(JsonValue::Object(copies))->Object_0 =~= before.push(
                        (member.0@, json_view(copy)),
                    ));
                }
                i += 1;
            }
            assert(views.take(members.len() as int) == views);
            JsonValue::Object(copies)
        },
    }
}

} // verus!
