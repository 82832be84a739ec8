//! The JSON values that messages are made of.

use vstd::prelude::*;
use crate::strings;

verus! {

/// A JSON value of the kinds that occur in messages.
#[derive(Debug, PartialEq, Eq)]
pub enum Json {
    Text(String),
    Number(i128),
    Object(Vec<(String, Json)>),
}

/// What a [`Json`] denotes.
pub enum JsonView {
    Text(Seq<char>),
    Number(int),
    Object(Seq<(Seq<char>, JsonView)>),
}

/// What a [`Json`] denotes.
pub open spec fn json_view(json: Json) -> JsonView
    decreases json,
{
    match json {
        Json::Text(text) => JsonView::Text(text@),
        Json::Number(n) => JsonView::Number(n as int),
        Json::Object(fields) => JsonView::Object(fields_view(fields@)),
    }
}

/// What the fields of an object denote, in order.
pub open spec fn fields_view(fields: Seq<(String, Json)>) -> Seq<(Seq<char>, JsonView)>
    decreases fields,
{
    if fields.len() == 0 {
        seq![]
    } else {
        fields_view(fields.drop_last()).push((fields.last().0@, json_view(fields.last().1)))
    }
}

impl DeepView for Json {
    type V = JsonView;

    open spec fn deep_view(&self) -> JsonView {
        json_view(*self)
    }
}

/// The value of the field `name`, the last one if there are several.
pub open spec fn find_field(fields: Seq<(Seq<char>, JsonView)>, name: Seq<char>) -> Option<JsonView>
    decreases fields.len(),
{
    if fields.len() == 0 {
        None
    } else if fields.last().0 == name {
        Some(fields.last().1)
    } else {
        find_field(fields.drop_last(), name)
    }
}

/// The value of the field `name` of an object.
pub open spec fn field_of(json: JsonView, name: Seq<char>) -> Option<JsonView> {
    match json {
        JsonView::Object(fields) => find_field(fields, name),
        _ => None,
    }
}

/// Adds a field to the fields of an object.
pub(crate) fn push_field(fields: &mut Vec<(String, Json)>, name: &str, value: Json)
    ensures
        fields_view(final(fields)@) == fields_view(old(fields)@).push(
            (name@, value.deep_view()),
        ),
{
    let ghost before = fields@;
    fields.push((name.to_string(), value));
    assert(fields@.drop_last() =~= before);
}

proof fn lemma_object_view(fields: Vec<(String, Json)>)
    ensures
        json_view(Json::Object(fields)) == JsonView::Object(fields_view(fields@)),
{
    reveal_with_fuel(json_view, 2);
}

/// Makes an object of its fields.
pub(crate) fn object(fields: Vec<(String, Json)>) -> (value: Json)
    ensures
        value.deep_view() == JsonView::Object(fields_view(fields@)),
{
    proof {
        lemma_object_view(fields);
    }
    Json::Object(fields)
}

impl Json {
    /// The value of the field `name`, if this is an object that has one.
    pub fn get(&self, name: &str) -> (value: Option<&Json>)
        ensures
            match value {
                Some(found) => field_of(self.deep_view(), name@) == Some(found.deep_view()),
                None => field_of(self.deep_view(), name@) is None,
            },
    {
        match self {
            Json::Object(fields) => {
                proof {
                    lemma_object_view(*fields);
                }
                let mut i: usize = fields.len();
                assert(fields@.take(i as int) =~= fields@);
                while i > 0
                    invariant
                        i <= fields@.len(),
                        find_field(fields_view(fields@.take(i as int)), name@) == field_of(
                            self.deep_view(),
                            name@,
                        ),
                    decreases i,
                {
                    let field = &fields[i - 1];
                    assert(fields@.take(i as int).drop_last() =~= fields@.take(i - 1));
                    assert(fields_view(fields@.take(i as int)).drop_last() =~= fields_view(
                        fields@.take(i - 1),
                    ));
                    if strings::same_text(field.0.as_str(), name) {
                        return Some(&field.1);
                    }
                    i = i - 1;
                }
                None
            },
            _ => None,
        }
    }
}

/// A field is found if and only if there is one of the name, and what is found is the value of
/// the last one.
pub proof fn law_last_field_is_found(fields: Seq<(Seq<char>, JsonView)>, name: Seq<char>)
    ensures
        field_of(JsonView::Object(fields), name) is None <==> forall|i: int|
            0 <= i < fields.len() ==> (#[trigger] fields[i]).0 != name,
        forall|i: int|
            0 <= i < fields.len() && (#[trigger] fields[i]).0 == name && (forall|j: int|
                i < j < fields.len() ==> (#[trigger] fields[j]).0 != name) ==> field_of(
                JsonView::Object(fields),
                name,
            ) == Some(fields[i].1),
    decreases fields.len(),
{
    if fields.len() > 0 && fields.last().0 != name {
        let earlier = fields.drop_last();
        law_last_field_is_found(earlier, name);
        assert(forall|i: int| 0 <= i < earlier.len() ==> #[trigger] earlier[i] == fields[i]);
        assert(forall|i: int| 0 <= i < earlier.len() ==> #[trigger] fields[i] == earlier[i]);
        assert forall|i: int|
            0 <= i < fields.len() && (#[trigger] fields[i]).0 == name && (forall|j: int|
                i < j < fields.len() ==> (#[trigger] fields[j]).0 != name) implies field_of(
            JsonView::Object(fields),
            name,
        ) == Some(fields[i].1) by {
            assert(earlier[i] == fields[i]);
        }
    } else if fields.len() > 0 {
        let last = fields.len() - 1;
        assert(fields[last].0 == name);
        assert forall|i: int|
            0 <= i < fields.len() && (#[trigger] fields[i]).0 == name && (forall|j: int|
                i < j < fields.len() ==> (#[trigger] fields[j]).0 != name) implies field_of(
            JsonView::Object(fields),
            name,
        ) == Some(fields[i].1) by {
            assert(i == last);
        }
    }
}

/// Only an object has fields.
pub proof fn law_only_objects_have_fields(json: JsonView, name: Seq<char>)
    requires
        !(json is Object),
    ensures
        field_of(json, name) is None,
{
}

/// An object denotes its fields, one by one and in order.
pub proof fn law_fields_are_denoted(fields: Seq<(String, Json)>)
    ensures
        fields_view(fields).len() == fields.len(),
        forall|i: int|
            0 <= i < fields.len() ==> (#[trigger] fields_view(fields)[i]) == (
                fields[i].0@,
                fields[i].1.deep_view(),
            ),
    decreases fields.len(),
{
    if fields.len() > 0 {
        let earlier = fields.drop_last();
        law_fields_are_denoted(earlier);
        assert forall|i: int| 0 <= i < fields.len() implies (#[trigger] fields_view(fields)[i])
            == (fields[i].0@, fields[i].1.deep_view()) by {
            if i < earlier.len() {
                assert(fields_view(fields)[i] == fields_view(earlier)[i]);
            }
        }
    }
}

/// A value denotes what it holds.
pub proof fn law_values_are_denoted(text: String, number: i128, fields: Vec<(String, Json)>)
    ensures
        Json::Text(text).deep_view() == JsonView::Text(text@),
        Json::Number(number).deep_view() == JsonView::Number(number as int),
        Json::Object(fields).deep_view() == JsonView::Object(fields_view(fields@)),
{
    lemma_object_view(fields);
}

} // verus!
