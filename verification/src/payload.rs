//! JSON values as the library builds them for the wire.

use vstd::prelude::*;
use crate::text::same_text;

verus! {

/// `serde_json::Number`, a JSON number, carried through unopened.
#[verifier::external_type_specification]
#[verifier::external_body]
pub struct ExJsonNumber(serde_json::Number);

/// `serde_json::Map`, a JSON object that the caller supplies ready-made,
/// carried through unopened.
#[verifier::external_type_specification]
#[verifier::external_body]
#[verifier::reject_recursive_types(K)]
#[verifier::reject_recursive_types(V)]
pub struct ExJsonMap<K, V>(serde_json::Map<K, V>);

/// A JSON value under construction. The members of an object keep the order
/// in which they were written.
#[derive(Debug, PartialEq)]
pub enum Json {
    Null,
    Bool(bool),
    Number(serde_json::Number),
    Text(String),
    Array(Vec<Json>),
    Object(Vec<(String, Json)>),
    /// An object that was supplied ready-made.
    Raw(serde_json::Map<String, serde_json::Value>),
}

/// What a `Json` stands for.
pub enum JsonModel {
    Null,
    Bool(bool),
    Number(serde_json::Number),
    Text(Seq<char>),
    Array(Seq<JsonModel>),
    Object(Seq<(Seq<char>, JsonModel)>),
    Raw(serde_json::Map<String, serde_json::Value>),
}

/// The value that a `Json` stands for.
pub open spec fn json_model(json: Json) -> JsonModel
    decreases json,
{
    match json {
        Json::Null => JsonModel::Null,
        Json::Bool(value) => JsonModel::Bool(value),
        Json::Number(number) => JsonModel::Number(number),
        Json::Text(text) => JsonModel::Text(text@),
        Json::Array(items) => JsonModel::Array(
            Seq::new(
                items.len() as nat,
                |i: int|
                    if 0 <= i < items.len() {
                        json_model(items[i])
                    } else {
                        JsonModel::Null
                    },
            ),
        ),
        Json::Object(members) => JsonModel::Object(
            Seq::new(
                members.len() as nat,
                |i: int|
                    if 0 <= i < members.len() {
                        (members[i].0@, json_model(members[i].1))
                    } else {
                        (Seq::empty(), JsonModel::Null)
                    },
            ),
        ),
        Json::Raw(object) => JsonModel::Raw(object),
    }
}

impl View for Json {
    type V = JsonModel;

    open spec fn view(&self) -> JsonModel {
        json_model(*self)
    }
}

/// Whether `index` is where a key first occurs among the members of an
/// object.
pub open spec fn is_first_at(
    members: Seq<(Seq<char>, JsonModel)>,
    key: Seq<char>,
    index: int,
) -> bool {
    &&& 0 <= index < members.len()
    &&& members[index].0 == key
    &&& forall|k: int| 0 <= k < index ==> (#[trigger] members[k]).0 != key
}

impl JsonModel {
    /// Whether the value is an object that was built here and has a member
    /// under the key.
    pub open spec fn has_key(self, key: Seq<char>) -> bool {
        self matches JsonModel::Object(members) && exists|i: int|
            0 <= i < members.len() && (#[trigger] members[i]).0 == key
    }

    /// Whether the value is an object that was built here and the first
    /// member under the key holds `value`.
    pub open spec fn has_member(self, key: Seq<char>, value: JsonModel) -> bool {
        self matches JsonModel::Object(members) && exists|i: int|
            #[trigger] is_first_at(members, key, i) && members[i].1 == value
    }
}

/// What the members of an object under construction stand for.
pub open spec fn members_model(members: Seq<(String, Json)>) -> Seq<(Seq<char>, JsonModel)> {
    Seq::new(members.len(), |i: int| (members[i].0@, members[i].1@))
}

/// What the items of an array under construction stand for.
pub open spec fn items_model(items: Seq<Json>) -> Seq<JsonModel> {
    Seq::new(items.len(), |i: int| items[i]@)
}

/// A built object stands for its members, one for one and in their order.
pub proof fn lemma_object_view(members: Vec<(String, Json)>)
    ensures
        Json::Object(members)@ == JsonModel::Object(members_model(members@)),
{
    assert(Json::Object(members)@->Object_0 =~= members_model(members@));
}

/// A built array stands for its items, one for one and in their order.
pub proof fn lemma_array_view(items: Vec<Json>)
    ensures
        Json::Array(items)@ == JsonModel::Array(items_model(items@)),
{
    assert(Json::Array(items)@->Array_0 =~= items_model(items@));
}

impl Json {
    /// The first member of an object under a key, if the value is an object
    /// that was built here and has one.
    pub fn member(&self, key: &str) -> (found: Option<&Json>)
        ensures
            match found {
                Some(value) => self@.has_member(key@, value@),
                None => !self@.has_key(key@),
            },
    {
        match self {
            Json::Object(members) => {
                let ghost model = members_model(members@);
                proof {
                    lemma_object_view(*members);
                }
                let mut index: usize = 0;
                while index < members.len()
                    invariant
                        index <= members.len(),
                        self@ == JsonModel::Object(model),
                        model == members_model(members@),
                        forall|k: int| 0 <= k < index ==> (#[trigger] model[k]).0 != key@,
                    decreases members.len() - index,
                {
                    if same_text(members[index].0.as_str(), key) {
                        assert(is_first_at(model, key@, index as int));
                        assert(self@->Object_0[index as int].1 == members[index as int].1@);
                        return Some(&members[index].1);
                    }
                    index = index + 1;
                }
                None
            },
            _ => None,
        }
    }
}

/// What a list of strings stands for as a JSON array.
pub open spec fn texts_model(texts: Seq<String>) -> JsonModel {
    JsonModel::Array(Seq::new(texts.len(), |i: int| JsonModel::Text(texts[i]@)))
}

/// What an optional string stands for: itself, or `null`.
pub open spec fn optional_text_model(text: Option<String>) -> JsonModel {
    match text {
        Some(text) => JsonModel::Text(text@),
        None => JsonModel::Null,
    }
}

/// Closes an object over its members.
pub fn object(members: Vec<(String, Json)>) -> (json: Json)
    ensures
        json@ == JsonModel::Object(members_model(members@)),
{
    proof {
        lemma_object_view(members);
    }
    Json::Object(members)
}

/// Closes an array over its items.
pub fn array(items: Vec<Json>) -> (json: Json)
    ensures
        json@ == JsonModel::Array(items_model(items@)),
{
    proof {
        lemma_array_view(items);
    }
    Json::Array(items)
}

/// Adds a member at the end of an object under construction.
pub fn put(members: &mut Vec<(String, Json)>, key: &str, value: Json)
    ensures
        members_model(final(members)@) == members_model(old(members)@).push((key@, value@)),
{
    members.push((key.to_owned(), value));
    assert(members_model(members@) =~= members_model(old(members)@).push((key@, value@)));
}

/// A string as a JSON value.
pub fn text(value: &str) -> (json: Json)
    ensures
        json@ == JsonModel::Text(value@),
{
    Json::Text(value.to_owned())
}

/// An optional string as a JSON value: the string, or `null`.
pub fn optional_text(value: Option<String>) -> (json: Json)
    ensures
        json@ == optional_text_model(value),
{
    match value {
        Some(value) => Json::Text(value),
        None => Json::Null,
    }
}

/// A list of strings as a JSON array, in the order of the list.
pub fn texts(values: Vec<String>) -> (json: Json)
    ensures
        json@ == texts_model(values@),
{
    let ghost all = values@;
    let mut items: Vec<Json> = Vec::new();
    for value in it: values
        invariant
            it.seq() == all,
            items@.len() == it.index(),
            forall|k: int| 0 <= k < items@.len() ==> (#[trigger] items@[k])@ == JsonModel::Text(all[k]@),
    {
        items.push(Json::Text(value));
    }
    let json = array(items);
    assert(json@->Array_0 =~= texts_model(all)->Array_0);
    json
}

} // verus!
