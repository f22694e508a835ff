//! The protocol's REST API: headers, bodies and their JSON form.

use vstd::prelude::*;

use crate::crypto::CryptographyError;

pub mod json;
pub mod status;
pub mod types;
pub mod request;
pub mod response;
pub mod requests;
pub mod send;
pub mod clients;
pub mod servers;
pub mod connect;
pub mod lookup;
pub mod poll;
pub mod middleware;


use json::{Json, JsonValue};

verus! {

/// Errors of reading or writing the JSON form of a protocol value.
#[derive(Debug, Clone, PartialEq, Eq)]
pub enum AsJsonError {
    /// The value's standard version is not supported.
    InvalidStandard(u64),
    /// A required field is missing or has the wrong JSON type.
    FieldNotFound(&'static str),
    /// A field holds a value that is not allowed there.
    FieldValueInvalid(&'static str),
    /// A field that should hold base64 text does not.
    Base64Error,
    /// A key or an algorithm name was refused.
    CryptographyError(CryptographyError),
    /// Any other failure, described by a text.
    Other(String),
}

/// The mathematical value of an `AsJsonError`.
pub enum JsonError {
    InvalidStandard(u64),
    FieldNotFound(Seq<char>),
    FieldValueInvalid(Seq<char>),
    Base64Error,
    CryptographyError(CryptographyError),
    Other(Seq<char>),
}

/// The document of a write that succeeded.
pub open spec fn written_doc(written: Result<JsonValue, JsonError>) -> Option<JsonValue> {
    match written {
        Ok(json) => Some(json),
        Err(_) => None,
    }
}

impl View for AsJsonError {
    type V = JsonError;

    open spec fn view(&self) -> JsonError {
        match self {
            AsJsonError::InvalidStandard(n) => JsonError::InvalidStandard(*n),
            AsJsonError::FieldNotFound(name) => JsonError::FieldNotFound(name@),
            AsJsonError::FieldValueInvalid(name) => JsonError::FieldValueInvalid(name@),
            AsJsonError::Base64Error => JsonError::Base64Error,
            AsJsonError::CryptographyError(e) => JsonError::CryptographyError(*e),
            AsJsonError::Other(text) => JsonError::Other(text@),
        }
    }
}

/// Errors of validating a request or a response header.
#[derive(Debug, Clone, Copy, PartialEq, Eq)]
pub enum ValidationError {
    /// The proof seed is below `2^63`.
    InvalidSeed,
    /// The signature check was refused.
    CryptographyError(CryptographyError),
}

/// A protocol value with a JSON form.
///
/// `json_written` is what `to_json` gives for a value, `json_read` what
/// `from_json` gives for a document, and `json_valid` marks the values whose
/// written document reads back as themselves. For most types these are all the
/// values the type can have; a response header whose status disagrees with its
/// kind (a success with an error status, or the reverse) is left out, because
/// `from_json` tells the kinds apart by the status. Reading what was written
/// gives a valid value back.
pub trait AsJson: View + Sized {
    spec fn json_valid(value: Self::V) -> bool;

    spec fn json_written(value: Self::V) -> Result<JsonValue, JsonError>;

    spec fn json_read(json: JsonValue) -> Result<Self::V, JsonError>;

    fn to_json(&self) -> (json: Result<Json, AsJsonError>)
        ensures
            json is Ok <==> Self::json_written(self@) is Ok,
            json matches Ok(j) ==> Self::json_written(self@) == Ok::<JsonValue, JsonError>(j@),
            json matches Err(e) ==> Self::json_written(self@) == Err::<JsonValue, JsonError>(e@),
    ;

    fn from_json(json: &Json) -> (value: Result<Self, AsJsonError>)
        ensures
            value is Ok <==> Self::json_read(json@) is Ok,
            value matches Ok(v) ==> Self::json_read(json@) == Ok::<Self::V, JsonError>(v@),
            value matches Ok(v) ==> Self::json_valid(v@),
            value matches Err(e) ==> Self::json_read(json@) == Err::<Self::V, JsonError>(e@),
            forall|v: Self::V|
                Self::json_valid(v) && #[trigger] Self::json_written(v) == Ok::<
                    JsonValue,
                    JsonError,
                >(json@) ==> (value matches Ok(x) && x@ == v),
    ;
}

/// The views of some values.
pub open spec fn views<T: View>(values: Seq<T>) -> Seq<T::V> {
    Seq::new(values.len(), |i: int| values[i]@)
}

/// The documents of some JSON values.
pub open spec fn docs(items: Seq<Json>) -> Seq<JsonValue> {
    Seq::new(items.len(), |i: int| items[i]@)
}

/// The documents written for a list of values, in order; the first failure stops it.
pub open spec fn json_list<T: AsJson>(values: Seq<T::V>) -> Result<Seq<JsonValue>, JsonError>
    decreases values.len(),
{
    if values.len() == 0 {
        Ok(Seq::empty())
    } else {
        match json_list::<T>(values.drop_last()) {
            Err(e) => Err(e),
            Ok(items) => match T::json_written(values.last()) {
                Err(e) => Err(e),
                Ok(item) => Ok(items.push(item)),
            },
        }
    }
}

/// The values read from a list of documents, in order; the first failure stops it.
pub open spec fn read_list<T: AsJson>(items: Seq<JsonValue>) -> Result<Seq<T::V>, JsonError>
    decreases items.len(),
{
    if items.len() == 0 {
        Ok(Seq::empty())
    } else {
        match read_list::<T>(items.drop_last()) {
            Err(e) => Err(e),
            Ok(values) => match T::json_read(items.last()) {
                Err(e) => Err(e),
                Ok(value) => Ok(values.push(value)),
            },
        }
    }
}

/// Whether each of some values reads back as written.
pub open spec fn all_valid<T: AsJson>(values: Seq<T::V>) -> bool {
    forall|i: int| 0 <= i < values.len() ==> T::json_valid(#[trigger] values[i])
}

/// A written list has one document per value, each the one written for it.
pub proof fn lemma_json_list<T: AsJson>(values: Seq<T::V>)
    ensures
        json_list::<T>(values) matches Ok(items) ==> items.len() == values.len() && forall|i: int|
            0 <= i < values.len() ==> T::json_written(#[trigger] values[i]) == Ok::<
                JsonValue,
                JsonError,
            >(items[i]),
    decreases values.len(),
{
    if values.len() > 0 {
        lemma_json_list::<T>(values.drop_last());
        if json_list::<T>(values) is Ok {
            let items = json_list::<T>(values)->Ok_0;
            assert forall|i: int| 0 <= i < values.len() implies T::json_written(
                #[trigger] values[i],
            ) == Ok::<JsonValue, JsonError>(items[i]) by {
                if i < values.len() - 1 {
                    assert(values[i] == values.drop_last()[i]);
                }
            }
        }
    }
}

/// A failure on a prefix of a list is the failure of the whole list.
pub proof fn lemma_read_list_stops<T: AsJson>(items: Seq<JsonValue>, j: int)
    requires
        0 <= j <= items.len(),
        read_list::<T>(items.take(j)) is Err,
    ensures
        read_list::<T>(items) == read_list::<T>(items.take(j)),
    decreases items.len() - j,
{
    if j < items.len() {
        assert(items.take(j + 1).drop_last() =~= items.take(j));
        lemma_read_list_stops::<T>(items, j + 1);
    } else {
        assert(items.take(j) =~= items);
    }
}

/// Write a list of values as documents, in order.
pub fn list_to_json<T: AsJson>(values: &Vec<T>) -> (items: Result<Vec<Json>, AsJsonError>)
    ensures
        items is Ok <==> json_list::<T>(views(values@)) is Ok,
        items matches Ok(v) ==> json_list::<T>(views(values@)) == Ok::<Seq<JsonValue>, JsonError>(
            docs(v@),
        ),
        items matches Err(e) ==> json_list::<T>(views(values@)) == Err::<Seq<JsonValue>, JsonError>(
            e@,
        ),
{
    let mut out: Vec<Json> = Vec::new();
    let mut i: usize = 0;
    proof {
        assert(views(values@.take(0)) =~= Seq::<T::V>::empty());
        assert(docs(out@) =~= Seq::<JsonValue>::empty());
    }
    while i < values.len()
        invariant
            i <= values@.len(),
            json_list::<T>(views(values@.take(i as int))) == Ok::<Seq<JsonValue>, JsonError>(
                docs(out@),
            ),
        decreases values@.len() - i,
    {
        proof {
            assert(views(values@.take(i + 1)).drop_last() =~= views(values@.take(i as int)));
            assert(views(values@.take(i + 1)).last() == values@[i as int]@);
        }
        match values[i].to_json() {
            Ok(j) => {
                let ghost before = out@;
                let ghost doc = j@;
                out.push(j);
                proof {
                    assert(docs(out@) =~= docs(before).push(doc));
                }
            },
            Err(e) => {
                proof {
                    assert(json_list::<T>(views(values@.take(i + 1))) == Err::<
                        Seq<JsonValue>,
                        JsonError,
                    >(e@));
                    lemma_list_stops::<T>(views(values@), i + 1);
                    assert(views(values@).take(i + 1) =~= views(values@.take(i + 1)));
                }
                return Err(e);
            },
        }
        i = i + 1;
    }
    proof {
        assert(values@.take(i as int) =~= values@);
    }
    Ok(out)
}

/// A failure on a prefix of a written list is the failure of the whole list.
pub proof fn lemma_list_stops<T: AsJson>(values: Seq<T::V>, j: int)
    requires
        0 <= j <= values.len(),
        json_list::<T>(values.take(j)) is Err,
    ensures
        json_list::<T>(values) == json_list::<T>(values.take(j)),
    decreases values.len() - j,
{
    if j < values.len() {
        assert(values.take(j + 1).drop_last() =~= values.take(j));
        lemma_list_stops::<T>(values, j + 1);
    } else {
        assert(values.take(j) =~= values);
    }
}

/// Read a list of values from documents, in order.
pub fn list_from_json<T: AsJson>(items: &Vec<Json>) -> (values: Result<Vec<T>, AsJsonError>)
    ensures
        values is Ok <==> read_list::<T>(docs(items@)) is Ok,
        values matches Ok(v) ==> read_list::<T>(docs(items@)) == Ok::<Seq<T::V>, JsonError>(
            views(v@),
        ),
        values matches Ok(v) ==> all_valid::<T>(views(v@)),
        values matches Err(e) ==> read_list::<T>(docs(items@)) == Err::<Seq<T::V>, JsonError>(
            e@,
        ),
        forall|vs: Seq<T::V>|
            all_valid::<T>(vs) && #[trigger] json_list::<T>(vs) == Ok::<Seq<JsonValue>, JsonError>(
                docs(items@),
            ) ==> (values matches Ok(v) && views(v@) == vs),
{
    let mut out: Vec<T> = Vec::new();
    let mut i: usize = 0;
    proof {
        assert(docs(items@.take(0)) =~= Seq::<JsonValue>::empty());
        assert(views(out@) =~= Seq::<T::V>::empty());
    }
    while i < items.len()
        invariant
            i <= items@.len(),
            out@.len() == i,
            read_list::<T>(docs(items@.take(i as int))) == Ok::<Seq<T::V>, JsonError>(views(out@)),
            all_valid::<T>(views(out@)),
            forall|k: int, v: T::V|
                #![trigger T::json_written(v), out@[k]]
                0 <= k < i && T::json_valid(v) && T::json_written(v) == Ok::<JsonValue, JsonError>(
                    items@[k]@,
                ) ==> out@[k]@ == v,
        decreases items@.len() - i,
    {
        proof {
            assert(docs(items@.take(i + 1)).drop_last() =~= docs(items@.take(i as int)));
            assert(docs(items@.take(i + 1)).last() == items@[i as int]@);
        }
        match T::from_json(&items[i]) {
            Ok(v) => {
                let ghost before = out@;
                let ghost view = v@;
                out.push(v);
                proof {
                    assert(views(out@) =~= views(before).push(view));
                }
            },
            Err(e) => {
                proof {
                    lemma_read_list_stops::<T>(docs(items@), i + 1);
                    assert(docs(items@).take(i + 1) =~= docs(items@.take(i + 1)));
                    assert forall|vs: Seq<T::V>|
                        all_valid::<T>(vs) && #[trigger] json_list::<T>(vs) == Ok::<
                            Seq<JsonValue>,
                            JsonError,
                        >(docs(items@)) implies false by {
                        lemma_json_list::<T>(vs);
                        assert(T::json_written(vs[i as int]) == Ok::<JsonValue, JsonError>(
                            docs(items@)[i as int],
                        ));
                    }
                }
                return Err(e);
            },
        }
        i = i + 1;
    }
    proof {
        assert(items@.take(i as int) =~= items@);
        assert forall|vs: Seq<T::V>|
            all_valid::<T>(vs) && #[trigger] json_list::<T>(vs) == Ok::<Seq<JsonValue>, JsonError>(
                docs(items@),
            ) implies views(out@) == vs by {
            lemma_json_list::<T>(vs);
            assert forall|k: int| 0 <= k < vs.len() implies views(out@)[k] == vs[k] by {
                assert(T::json_written(vs[k]) == Ok::<JsonValue, JsonError>(docs(items@)[k]));
                assert(T::json_valid(vs[k]));
            }
            assert(views(out@) =~= vs);
        }
    }
    Ok(out)
}

} // verus!
