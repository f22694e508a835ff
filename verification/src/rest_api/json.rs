//! JSON documents as the protocol reads and writes them.

use vstd::prelude::*;

use crate::text::{owned, text_eq};

verus! {

/// A JSON document as the protocol reads and writes it.
pub enum Json {
    Null,
    Bool(bool),
    Number(u64),
    /// A number that is not an unsigned 64-bit integer (negative or fractional).
    OtherNumber,
    String(String),
    Array(Vec<Json>),
    Object(Vec<(String, Json)>),
}

/// The mathematical value of a JSON document.
pub enum JsonValue {
    Null,
    Bool(bool),
    Number(u64),
    OtherNumber,
    Text(Seq<char>),
    Array(Seq<JsonValue>),
    Object(Seq<(Seq<char>, JsonValue)>),
}

/// The mathematical value of a JSON document.
pub open spec fn json_value(json: Json) -> JsonValue
    decreases json,
{
    match json {
        Json::Null => JsonValue::Null,
        Json::Bool(b) => JsonValue::Bool(b),
        Json::Number(n) => JsonValue::Number(n),
        Json::OtherNumber => JsonValue::OtherNumber,
        Json::String(s) => JsonValue::Text(s@),
        Json::Array(items) => JsonValue::Array(
            Seq::new(
                items@.len(),
                |i: int|
                    if 0 <= i < items@.len() {
                        json_value(items@[i])
                    } else {
                        JsonValue::Null
                    },
            ),
        ),
        Json::Object(fields) => JsonValue::Object(
            Seq::new(
                fields@.len(),
                |i: int|
                    if 0 <= i < fields@.len() {
                        (fields@[i].0@, json_value(fields@[i].1))
                    } else {
                        (Seq::empty(), JsonValue::Null)
                    },
            ),
        ),
    }
}

impl View for Json {
    type V = JsonValue;

    open spec fn view(&self) -> JsonValue {
        json_value(*self)
    }
}

/// The value of the first entry named `key` among `fields`.
pub open spec fn first_field(fields: Seq<(Seq<char>, JsonValue)>, key: Seq<char>) -> Option<
    JsonValue,
>
    decreases fields.len(),
{
    if fields.len() == 0 {
        None
    } else if fields[0].0 == key {
        Some(fields[0].1)
    } else {
        first_field(fields.drop_first(), key)
    }
}

/// The value of the field `key` of an object (`None` for a missing field or a non-object).
pub open spec fn field(json: JsonValue, key: Seq<char>) -> Option<JsonValue> {
    match json {
        JsonValue::Object(fields) => first_field(fields, key),
        _ => None,
    }
}

/// The text that a JSON value holds, if it is a string.
pub open spec fn text_of(json: Option<JsonValue>) -> Option<Seq<char>> {
    match json {
        Some(JsonValue::Text(t)) => Some(t),
        _ => None,
    }
}

/// The number that a JSON value holds, if it is an unsigned integer.
pub open spec fn number_of(json: Option<JsonValue>) -> Option<u64> {
    match json {
        Some(JsonValue::Number(n)) => Some(n),
        _ => None,
    }
}

/// The truth value of a JSON value, if it is a boolean.
pub open spec fn bool_of(json: Option<JsonValue>) -> Option<bool> {
    match json {
        Some(JsonValue::Bool(b)) => Some(b),
        _ => None,
    }
}

/// The items of a JSON value, if it is an array.
pub open spec fn items_of(json: Option<JsonValue>) -> Option<Seq<JsonValue>> {
    match json {
        Some(JsonValue::Array(items)) => Some(items),
        _ => None,
    }
}

/// The view of an optional reference to a JSON document.
pub open spec fn opt_json(json: Option<&Json>) -> Option<JsonValue> {
    match json {
        Some(j) => Some(j@),
        None => None,
    }
}

/// Skipping entries that do not carry `key` leaves the first entry that does.
pub proof fn lemma_first_field_skip(fields: Seq<(Seq<char>, JsonValue)>, key: Seq<char>, i: int)
    requires
        0 <= i <= fields.len(),
        forall|j: int| 0 <= j < i ==> fields[j].0 != key,
    ensures
        first_field(fields, key) == first_field(fields.subrange(i, fields.len() as int), key),
    decreases i,
{
    if i > 0 {
        let rest = fields.drop_first();
        assert forall|j: int| 0 <= j < i - 1 implies rest[j].0 != key by {
            assert(rest[j] == fields[j + 1]);
        }
        lemma_first_field_skip(rest, key, i - 1);
        assert(rest.subrange(i - 1, rest.len() as int) =~= fields.subrange(i, fields.len() as int));
    } else {
        assert(fields.subrange(0, fields.len() as int) =~= fields);
    }
}

/// The entry at `i` is found by its key when no earlier entry has that key.
pub proof fn lemma_field_at(fields: Seq<(Seq<char>, JsonValue)>, i: int)
    requires
        0 <= i < fields.len(),
        forall|j: int| 0 <= j < i ==> fields[j].0 != fields[i].0,
    ensures
        first_field(fields, fields[i].0) == Some(fields[i].1),
{
    lemma_first_field_skip(fields, fields[i].0, i);
    assert(fields.subrange(i, fields.len() as int)[0] == fields[i]);
}

impl Json {
    /// The field `key` of an object (`None` for a missing field or a non-object).
    pub fn get(&self, key: &str) -> (value: Option<&Json>)
        ensures
            opt_json(value) == field(self@, key@),
    {
        match self {
            Json::Object(fields) => {
                let ghost s = match self@ {
                    JsonValue::Object(s) => s,
                    _ => Seq::empty(),
                };
                assert(s.len() == fields@.len());
                assert forall|k: int| 0 <= k < s.len() implies #[trigger] s[k] == (
                    fields@[k].0@,
                    fields@[k].1@,
                ) by {}
                let mut i: usize = 0;
                while i < fields.len()
                    invariant
                        i <= fields@.len(),
                        self@ == JsonValue::Object(s),
                        s.len() == fields@.len(),
                        forall|k: int| 0 <= k < s.len() ==> #[trigger] s[k] == (
                            fields@[k].0@,
                            fields@[k].1@,
                        ),
                        forall|j: int| 0 <= j < i ==> s[j].0 != key@,
                    decreases fields@.len() - i,
                {
                    if text_eq(fields[i].0.as_str(), key) {
                        proof {
                            lemma_first_field_skip(s, key@, i as int);
                            assert(s.subrange(i as int, s.len() as int)[0] == s[i as int]);
                        }
                        return Some(&fields[i].1);
                    }
                    assert(s[i as int].0 != key@);
                    i = i + 1;
                }
                proof {
                    lemma_first_field_skip(s, key@, i as int);
                    assert(s.subrange(i as int, s.len() as int).len() == 0);
                }
                None
            },
            _ => None,
        }
    }

    /// The text of a JSON string.
    pub fn as_str(&self) -> (text: Option<&str>)
        ensures
            text matches Some(t) ==> self@ == JsonValue::Text(t@),
            text is None <==> !(self@ is Text),
    {
        match self {
            Json::String(s) => Some(s.as_str()),
            _ => None,
        }
    }

    /// The value of a JSON unsigned integer.
    pub fn as_u64(&self) -> (number: Option<u64>)
        ensures
            number matches Some(n) ==> self@ == JsonValue::Number(n),
            number is None <==> !(self@ is Number),
    {
        match self {
            Json::Number(n) => Some(*n),
            _ => None,
        }
    }

    /// The value of a JSON boolean.
    pub fn as_bool(&self) -> (b: Option<bool>)
        ensures
            b == bool_of(Some(self@)),
    {
        match self {
            Json::Bool(b) => Some(*b),
            _ => None,
        }
    }

    /// Whether the document is `null`.
    pub fn is_null(&self) -> (null: bool)
        ensures
            null <==> self@ is Null,
    {
        match self {
            Json::Null => true,
            _ => false,
        }
    }

    /// The items of a JSON array.
    pub fn as_array(&self) -> (items: Option<&Vec<Json>>)
        ensures
            items matches Some(v) ==> self@ is Array && self@->Array_0.len() == v@.len() && (
            forall|i: int| 0 <= i < v@.len() ==> #[trigger] self@->Array_0[i] == v@[i]@),
            items is None <==> !(self@ is Array),
    {
        match self {
            Json::Array(v) => Some(v),
            _ => None,
        }
    }

    /// A JSON string holding `text`.
    pub fn text(text: &str) -> (json: Json)
        ensures
            json@ == JsonValue::Text(text@),
    {
        Json::String(owned(text))
    }
}

/// The text of a field, looked up and read as a string.
pub fn get_str<'a>(json: &'a Json, key: &str) -> (text: Option<&'a str>)
    ensures
        text matches Some(t) ==> text_of(field(json@, key@)) == Some(t@),
        text is None <==> text_of(field(json@, key@)) is None,
{
    match json.get(key) {
        Some(value) => value.as_str(),
        None => None,
    }
}

/// The truth value of a field, looked up and read as a boolean.
pub fn get_bool(json: &Json, key: &str) -> (b: Option<bool>)
    ensures
        b == bool_of(field(json@, key@)),
{
    match json.get(key) {
        Some(value) => value.as_bool(),
        None => None,
    }
}

/// The items of a field, looked up and read as an array.
pub fn get_array<'a>(json: &'a Json, key: &str) -> (items: Option<&'a Vec<Json>>)
    ensures
        items matches Some(v) ==> items_of(field(json@, key@)) == Some(
            Seq::new(v@.len(), |i: int| v@[i]@),
        ),
        items is None <==> items_of(field(json@, key@)) is None,
{
    match json.get(key) {
        Some(value) => match value.as_array() {
            Some(v) => {
                proof {
                    assert(value@->Array_0 =~= Seq::new(v@.len(), |i: int| v@[i]@));
                }
                Some(v)
            },
            None => None,
        },
        None => None,
    }
}

/// The number of a field, looked up and read as an unsigned integer.
pub fn get_u64(json: &Json, key: &str) -> (number: Option<u64>)
    ensures
        number == number_of(field(json@, key@)),
{
    match json.get(key) {
        Some(value) => value.as_u64(),
        None => None,
    }
}

/// An object with one entry.
pub fn object1(k0: &str, v0: Json) -> (json: Json)
    ensures
        json@ == JsonValue::Object(seq![(k0@, v0@)]),
{
    let ghost g0 = v0@;
    let json = Json::Object(vec![(owned(k0), v0)]);
    proof {
        assert(json@->Object_0 =~= seq![(k0@, g0)]);
    }
    json
}

/// An object with two entries, in this order.
pub fn object2(k0: &str, v0: Json, k1: &str, v1: Json) -> (json: Json)
    ensures
        json@ == JsonValue::Object(seq![(k0@, v0@), (k1@, v1@)]),
{
    let ghost (g0, g1) = (v0@, v1@);
    let json = Json::Object(vec![(owned(k0), v0), (owned(k1), v1)]);
    proof {
        assert(json@->Object_0 =~= seq![(k0@, g0), (k1@, g1)]);
    }
    json
}

/// An object with three entries, in this order.
pub fn object3(k0: &str, v0: Json, k1: &str, v1: Json, k2: &str, v2: Json) -> (json: Json)
    ensures
        json@ == JsonValue::Object(seq![(k0@, v0@), (k1@, v1@), (k2@, v2@)]),
{
    let ghost (g0, g1, g2) = (v0@, v1@, v2@);
    let json = Json::Object(vec![(owned(k0), v0), (owned(k1), v1), (owned(k2), v2)]);
    proof {
        assert(json@->Object_0 =~= seq![(k0@, g0), (k1@, g1), (k2@, g2)]);
    }
    json
}

/// An object with four entries, in this order.
pub fn object4(k0: &str, v0: Json, k1: &str, v1: Json, k2: &str, v2: Json, k3: &str, v3: Json) -> (json: Json)
    ensures
        json@ == JsonValue::Object(seq![(k0@, v0@), (k1@, v1@), (k2@, v2@), (k3@, v3@)]),
{
    let ghost (g0, g1, g2, g3) = (v0@, v1@, v2@, v3@);
    let json = Json::Object(
        vec![(owned(k0), v0), (owned(k1), v1), (owned(k2), v2), (owned(k3), v3)],
    );
    proof {
        assert(json@->Object_0 =~= seq![(k0@, g0), (k1@, g1), (k2@, g2), (k3@, g3)]);
    }
    json
}

/// An object with five entries, in this order.
pub fn object5(
    k0: &str,
    v0: Json,
    k1: &str,
    v1: Json,
    k2: &str,
    v2: Json,
    k3: &str,
    v3: Json,
    k4: &str,
    v4: Json,
) -> (json: Json)
    ensures
        json@ == JsonValue::Object(
            seq![(k0@, v0@), (k1@, v1@), (k2@, v2@), (k3@, v3@), (k4@, v4@)],
        ),
{
    let ghost (g0, g1, g2, g3, g4) = (v0@, v1@, v2@, v3@, v4@);
    let json = Json::Object(
        vec![
            (owned(k0), v0),
            (owned(k1), v1),
            (owned(k2), v2),
            (owned(k3), v3),
            (owned(k4), v4),
        ],
    );
    proof {
        assert(json@->Object_0 =~= seq![(k0@, g0), (k1@, g1), (k2@, g2), (k3@, g3), (k4@, g4)]);
    }
    json
}

/// An array of the given documents, in order.
pub fn array(items: Vec<Json>) -> (json: Json)
    ensures
        json@ == JsonValue::Array(Seq::new(items@.len(), |i: int| items@[i]@)),
{
    let ghost g = Seq::new(items@.len(), |i: int| items@[i]@);
    let json = Json::Array(items);
    proof {
        assert(json@->Array_0 =~= g);
    }
    json
}

/// Write the empty object.
pub fn empty_object() -> (json: Json)
    ensures
        json@ == JsonValue::Object(Seq::empty()),
{
    let json = Json::Object(Vec::new());
    proof {
        assert(json@->Object_0 =~= Seq::empty());
    }
    json
}

} // verus!
