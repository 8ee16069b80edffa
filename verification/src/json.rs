//! A small JSON document model.
//!
//! A document is held as plain values so that rules about its shape can be
//! stated and proved. An object keeps its members in a vector; a key is looked
//! up from the front, and writing a key replaces the first member that has it.

use crate::text::{copy_str, same_text, texts};
use vstd::prelude::*;

verus! {

/// A JSON document. A number keeps its numeral as text.
#[derive(Debug)]
pub enum JsonValue {
    Null,
    Bool(bool),
    Number(String),
    Text(String),
    Array(Vec<JsonValue>),
    Object(Vec<JsonMember>),
}

/// One `key: value` member of a JSON object.
#[derive(Debug)]
pub struct JsonMember {
    pub key: String,
    pub value: JsonValue,
}

/// The mathematical value of a JSON document.
pub ghost enum JsonModel {
    Null,
    Bool(bool),
    Number(Seq<char>),
    Text(Seq<char>),
    Array(Seq<JsonModel>),
    Object(Seq<(Seq<char>, JsonModel)>),
}

/// The members of an object as pairs of key and value.
pub open spec fn members_model(members: Seq<JsonMember>) -> Seq<(Seq<char>, JsonModel)> {
    Seq::new(members.len(), |i: int| (members[i].key@, members[i].value.model()))
}

/// The items of an array as values.
pub open spec fn items_model(items: Seq<JsonValue>) -> Seq<JsonModel> {
    Seq::new(items.len(), |i: int| items[i].model())
}

/// The position of the first member with key `key`, or the number of members when none has it.
pub open spec fn key_index(members: Seq<(Seq<char>, JsonModel)>, key: Seq<char>) -> int
    decreases members.len(),
{
    if members.len() == 0 {
        0
    } else if members[0].0 == key {
        0
    } else {
        1 + key_index(members.drop_first(), key)
    }
}

/// Whether some member has key `key`.
pub open spec fn has_key(members: Seq<(Seq<char>, JsonModel)>, key: Seq<char>) -> bool {
    key_index(members, key) < members.len()
}

/// The value of the first member with key `key`.
pub open spec fn get_key(members: Seq<(Seq<char>, JsonModel)>, key: Seq<char>) -> Option<
    JsonModel,
> {
    if has_key(members, key) {
        Some(members[key_index(members, key)].1)
    } else {
        None
    }
}

/// The members after writing `value` under `key`: the first member with that
/// key is replaced, or a new member is added at the end.
pub open spec fn put_key(
    members: Seq<(Seq<char>, JsonModel)>,
    key: Seq<char>,
    value: JsonModel,
) -> Seq<(Seq<char>, JsonModel)> {
    if has_key(members, key) {
        members.update(key_index(members, key), (key, value))
    } else {
        members.push((key, value))
    }
}

/// The texts of `items` as JSON strings.
pub open spec fn text_items(items: Seq<Seq<char>>) -> Seq<JsonModel> {
    Seq::new(items.len(), |i: int| JsonModel::Text(items[i]))
}

impl JsonValue {
    /// The mathematical value of this document.
    pub open spec fn model(self) -> JsonModel
        decreases self,
    {
        match self {
            JsonValue::Null => JsonModel::Null,
            JsonValue::Bool(b) => JsonModel::Bool(b),
            JsonValue::Number(n) => JsonModel::Number(n@),
            JsonValue::Text(t) => JsonModel::Text(t@),
            JsonValue::Array(items) => JsonModel::Array(
                Seq::new(
                    items@.len(),
                    |i: int|
                        if 0 <= i < items@.len() {
                            items@[i].model()
                        } else {
                            JsonModel::Null
                        },
                ),
            ),
            JsonValue::Object(members) => JsonModel::Object(
                Seq::new(
                    members@.len(),
                    |i: int|
                        if 0 <= i < members@.len() {
                            (members@[i].key@, members@[i].value.model())
                        } else {
                            (Seq::empty(), JsonModel::Null)
                        },
                ),
            ),
        }
    }

    /// The model of an object is the model of its members.
    pub proof fn lemma_object_model(members: Vec<JsonMember>)
        ensures
            JsonValue::Object(members).model() == JsonModel::Object(members_model(members@)),
    {
        let a = JsonValue::Object(members).model()->Object_0;
        assert(a =~= members_model(members@));
    }

    /// The model of an array is the model of its items.
    pub proof fn lemma_array_model(items: Vec<JsonValue>)
        ensures
            JsonValue::Array(items).model() == JsonModel::Array(items_model(items@)),
    {
        let a = JsonValue::Array(items).model()->Array_0;
        assert(a =~= items_model(items@));
    }

    /// A JSON string with the characters of `s`.
    pub fn text(s: &str) -> (out: JsonValue)
        ensures
            out.model() == JsonModel::Text(s@),
    {
        JsonValue::Text(copy_str(s))
    }

    /// An array of JSON strings, one for each of the first `limit` texts of `items`.
    pub fn text_array(items: &Vec<String>, limit: usize) -> (out: JsonValue)
        ensures
            out.model() == JsonModel::Array(
                text_items(
                    if limit <= items@.len() {
                        texts(items@).take(limit as int)
                    } else {
                        texts(items@)
                    },
                ),
            ),
    {
        let n = if limit <= items.len() {
            limit
        } else {
            items.len()
        };
        let mut out: Vec<JsonValue> = Vec::new();
        let mut i: usize = 0;
        while i < n
            invariant
                i <= n <= items.len(),
                items_model(out@) == text_items(texts(items@).take(i as int)),
            decreases n - i,
        {
            let ghost before = items_model(out@);
            out.push(JsonValue::text(items[i].as_str()));
            assert(items_model(out@) =~= before.push(JsonModel::Text(items@[i as int]@)));
            assert(text_items(texts(items@).take(i + 1)) =~= text_items(
                texts(items@).take(i as int),
            ).push(JsonModel::Text(items@[i as int]@)));
            i += 1;
        }
        proof {
            JsonValue::lemma_array_model(out);
            assert(texts(items@).take(items@.len() as int) =~= texts(items@));
        }
        JsonValue::Array(out)
    }
}

/// The position of the first member of `members` with key `key`.
pub fn find_member(members: &Vec<JsonMember>, key: &str) -> (at: Option<usize>)
    ensures
        at is Some <==> has_key(members_model(members@), key@),
        at is Some ==> at->0 == key_index(members_model(members@), key@) && at->0 < members.len(),
{
    let ghost all = members_model(members@);
    let mut i: usize = 0;
    assert(all.subrange(0, all.len() as int) =~= all);
    while i < members.len()
        invariant
            i <= members.len(),
            all == members_model(members@),
            key_index(all, key@) == i + key_index(all.subrange(i as int, all.len() as int), key@),
        decreases members.len() - i,
    {
        let ghost rest = all.subrange(i as int, all.len() as int);
        assert(rest[0] == all[i as int]);
        if same_text(members[i].key.as_str(), key) {
            return Some(i);
        }
        assert(rest.drop_first() =~= all.subrange(i + 1, all.len() as int));
        i += 1;
    }
    None
}

/// Writes `value` under `key`: the first member with that key is replaced,
/// or a new member is added at the end.
pub fn put_member(members: &mut Vec<JsonMember>, key: &str, value: JsonValue)
    ensures
        members_model(final(members)@) == put_key(
            members_model(old(members)@),
            key@,
            value.model(),
        ),
{
    let ghost before = members_model(members@);
    let ghost v = value.model();
    let found = find_member(members, key);
    match found {
        Some(i) => {
            let _ = members.remove(i);
            members.insert(i, JsonMember { key: copy_str(key), value });
            assert(members_model(members@) =~= before.update(i as int, (key@, v)));
        },
        None => {
            members.push(JsonMember { key: copy_str(key), value });
            assert(members_model(members@) =~= before.push((key@, v)));
        },
    }
}

} // verus!
