//! JSON values as the cloud protocol uses them.
use vstd::prelude::*;

use crate::text::same_text;

verus! {

/// A JSON value. A number of seconds is kept in milliseconds: it is written
/// as the fraction of seconds it stands for.
#[derive(Debug, PartialEq, Eq)]
pub enum Json {
    Bool(bool),
    Int(i64),
    Count(u64),
    Seconds { millis: u64 },
    Text(String),
    List(Vec<Json>),
    Record(Vec<Field>),
}

/// One member of a record.
#[derive(Debug, PartialEq, Eq)]
pub struct Field {
    pub key: &'static str,
    pub value: Json,
}

/// What a JSON value says, in mathematical terms.
pub enum JsonView {
    Bool(bool),
    Int(int),
    Seconds(nat),
    Text(Seq<char>),
    List(Seq<JsonView>),
    Record(Seq<(Seq<char>, JsonView)>),
}

impl Json {
    pub open spec fn model(self) -> JsonView
        decreases self,
    {
        match self {
            Json::Bool(value) => JsonView::Bool(value),
            Json::Int(value) => JsonView::Int(value as int),
            Json::Count(value) => JsonView::Int(value as int),
            Json::Seconds { millis } => JsonView::Seconds(millis as nat),
            Json::Text(value) => JsonView::Text(value@),
            Json::List(items) => JsonView::List(
                Seq::new(
                    items@.len(),
                    |i: int|
                        if 0 <= i < items@.len() {
                            items@[i].model()
                        } else {
                            JsonView::Bool(false)
                        },
                ),
            ),
            Json::Record(fields) => JsonView::Record(
                Seq::new(
                    fields@.len(),
                    |i: int|
                        if 0 <= i < fields@.len() {
                            (fields@[i].key@, fields@[i].value.model())
                        } else {
                            (seq![], JsonView::Bool(false))
                        },
                ),
            ),
        }
    }
}

/// What the values of a list say.
pub open spec fn models(items: Seq<Json>) -> Seq<JsonView> {
    items.map_values(|item: Json| item.model())
}

/// What the members of a record say.
pub open spec fn field_models(fields: Seq<Field>) -> Seq<(Seq<char>, JsonView)> {
    fields.map_values(|field: Field| (field.key@, field.value.model()))
}

/// A list says what its values say.
pub proof fn lemma_list_model(items: Vec<Json>)
    ensures
        Json::List(items).model() == JsonView::List(models(items@)),
{
    assert(Json::List(items).model()->List_0 =~= models(items@));
}

/// A record says what its members say.
pub proof fn lemma_record_model(fields: Vec<Field>)
    ensures
        Json::Record(fields).model() == JsonView::Record(field_models(fields@)),
{
    assert(Json::Record(fields).model()->Record_0 =~= field_models(fields@));
}

/// A list of values.
pub fn list(items: Vec<Json>) -> (value: Json)
    ensures
        value.model() == JsonView::List(models(items@)),
{
    proof {
        lemma_list_model(items);
    }
    Json::List(items)
}

/// A record of members.
pub fn record(fields: Vec<Field>) -> (value: Json)
    ensures
        value.model() == JsonView::Record(field_models(fields@)),
{
    proof {
        lemma_record_model(fields);
    }
    Json::Record(fields)
}

/// Append a value to a list.
pub fn add_item(items: &mut Vec<Json>, value: Json)
    ensures
        models(final(items)@) == models(old(items)@).push(value.model()),
{
    items.push(value);
    assert(models(items@) =~= models(old(items)@).push(value.model()));
}

/// Append a member to a record.
pub fn put(fields: &mut Vec<Field>, key: &'static str, value: Json)
    ensures
        field_models(final(fields)@) == field_models(old(fields)@) + seq![(key@, value.model())],
{
    fields.push(Field { key, value });
    assert(field_models(fields@) =~= field_models(old(fields)@) + seq![(key@, value.model())]);
}

/// A member for a number, where there is one.
pub open spec fn some_number(key: Seq<char>, value: Option<u32>) -> Seq<(Seq<char>, JsonView)> {
    match value {
        Some(number) => seq![(key, JsonView::Int(number as int))],
        None => seq![],
    }
}

/// A member for a text, where there is one.
pub open spec fn some_text(key: Seq<char>, value: Option<String>) -> Seq<(Seq<char>, JsonView)> {
    match value {
        Some(text) => seq![(key, JsonView::Text(text@))],
        None => seq![],
    }
}

pub fn put_some_number(fields: &mut Vec<Field>, key: &'static str, value: Option<u32>)
    ensures
        field_models(final(fields)@) == field_models(old(fields)@) + some_number(key@, value),
{
    match value {
        Some(number) => {
            put(fields, key, Json::Count(number as u64));
        },
        None => {
            assert(field_models(fields@) =~= field_models(fields@) + seq![]);
        },
    }
}

pub fn put_some_text(fields: &mut Vec<Field>, key: &'static str, value: &Option<String>)
    ensures
        field_models(final(fields)@) == field_models(old(fields)@) + some_text(key@, *value),
{
    match value {
        Some(text) => {
            put(fields, key, Json::Text(text.clone()));
        },
        None => {
            assert(field_models(fields@) =~= field_models(fields@) + seq![]);
        },
    }
}

impl Json {
    /// The value a record holds under `key`, if it is a record that has one.
    pub open spec fn at(self, key: Seq<char>) -> Option<JsonView> {
        match self.model() {
            JsonView::Record(fields) => first_value(fields, key),
            _ => None,
        }
    }

    /// Look up a member of a record.
    pub fn get(&self, key: &str) -> (found: Option<&Json>)
        ensures
            self.at(key@) == (match found {
                Some(value) => Some(value.model()),
                None => None::<JsonView>,
            }),
    {
        match self {
            Json::Record(fields) => {
                proof {
                    lemma_record_model(*fields);
                }
                let ghost all = field_models(fields@);
                let mut i: usize = 0;
                assert(all.skip(0) =~= all);
                while i < fields.len()
                    invariant
                        i <= fields@.len(),
                        all == field_models(fields@),
                        self.at(key@) == first_value(all, key@),
                        first_value(all.skip(i as int), key@) == first_value(all, key@),
                    decreases fields@.len() - i,
                {
                    assert(all.skip(i as int)[0] == all[i as int]);
                    assert(all.skip(i as int).skip(1) =~= all.skip(i + 1));
                    if same_text(fields[i].key, key) {
                        return Some(&fields[i].value);
                    }
                    i = i + 1;
                }
                None
            },
            _ => None,
        }
    }
}

/// The first value under `key`.
pub open spec fn first_value(fields: Seq<(Seq<char>, JsonView)>, key: Seq<char>) -> Option<JsonView>
    decreases fields.len(),
{
    if fields.len() == 0 {
        None
    } else if fields[0].0 == key {
        Some(fields[0].1)
    } else {
        first_value(fields.skip(1), key)
    }
}

} // verus!
