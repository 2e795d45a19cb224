//! Decoding of JSON values into typed fields: what each type accepts, and how the members of a
//! record are read.

use crate::error::{DecodeError, Finding};
use crate::json::{
    find, items_view, lemma_items_view, lookup, members_view, Found, Json, JsonView, Lookup,
    Number,
};
use vstd::prelude::*;

verus! {

/// A type whose values have a JSON encoding.
pub trait FromJson: Sized {
    /// What keeps `v` from encoding a value of this type, if anything does. `key` is the key
    /// under which `v` was found; a fault in `v` itself is reported at it.
    spec fn defect(v: JsonView, key: &'static str) -> Option<DecodeError>;

    /// Whether `v` encodes this value.
    spec fn encoded_by(&self, v: JsonView) -> bool;

    /// Decodes the value that `json` encodes, or reports the first fault in it.
    fn decode(json: &Json, key: &'static str) -> (decoded: Result<Self, DecodeError>)
        ensures
            match decoded {
                Ok(value) => Self::defect(json@, key) is None && value.encoded_by(json@),
                Err(fault) => Self::defect(json@, key) == Some(fault),
            },
    ;
}

/// What keeps an object from holding a well-formed value under a key that the record requires.
pub open spec fn required_defect<T: FromJson>(
    members: Seq<(Seq<char>, JsonView)>,
    key: &'static str,
) -> Option<DecodeError> {
    match lookup(members, key@) {
        Lookup::Absent => Some(DecodeError::MissingField(key)),
        Lookup::Repeated => Some(DecodeError::RepeatedField(key)),
        Lookup::Once(v) => T::defect(v, key),
    }
}

/// Whether the object holds an encoding of `value` under the key.
pub open spec fn required_holds<T: FromJson>(
    members: Seq<(Seq<char>, JsonView)>,
    key: &'static str,
    value: T,
) -> bool {
    lookup(members, key@) matches Lookup::Once(v) && value.encoded_by(v)
}

/// What keeps an object from holding a well-formed value, `null` or nothing under a key that
/// the record can do without.
pub open spec fn optional_defect<T: FromJson>(
    members: Seq<(Seq<char>, JsonView)>,
    key: &'static str,
) -> Option<DecodeError> {
    match lookup(members, key@) {
        Lookup::Absent => None,
        Lookup::Repeated => Some(DecodeError::RepeatedField(key)),
        Lookup::Once(v) => if v is Null {
            None
        } else {
            T::defect(v, key)
        },
    }
}

/// Whether the object holds an encoding of `value` under the key: for `None`, no member or
/// `null`; for `Some`, an encoding of what it holds.
pub open spec fn optional_holds<T: FromJson>(
    members: Seq<(Seq<char>, JsonView)>,
    key: &'static str,
    value: Option<T>,
) -> bool {
    match value {
        None => lookup(members, key@) is Absent || lookup(members, key@) == Lookup::Once(
            JsonView::Null,
        ),
        Some(inner) => lookup(members, key@) matches Lookup::Once(v) && v !is Null
            && inner.encoded_by(v),
    }
}

/// Reads the member that a record requires under `key`.
pub fn required<T: FromJson>(members: &Vec<(String, Json)>, key: &'static str) -> (decoded: Result<
    T,
    DecodeError,
>)
    ensures
        match decoded {
            Ok(value) => required_defect::<T>(members_view(members@), key) is None
                && required_holds(members_view(members@), key, value),
            Err(fault) => required_defect::<T>(members_view(members@), key) == Some(fault),
        },
{
    match find(members, key) {
        Found::Absent => Err(DecodeError::MissingField(key)),
        Found::Repeated => Err(DecodeError::RepeatedField(key)),
        Found::Once(json) => T::decode(json, key),
    }
}

/// Reads the member that a record may hold under `key`.
pub fn optional<T: FromJson>(members: &Vec<(String, Json)>, key: &'static str) -> (decoded: Result<
    Option<T>,
    DecodeError,
>)
    ensures
        match decoded {
            Ok(value) => optional_defect::<T>(members_view(members@), key) is None
                && optional_holds(members_view(members@), key, value),
            Err(fault) => optional_defect::<T>(members_view(members@), key) == Some(fault),
        },
{
    match find(members, key) {
        Found::Absent => Ok(None),
        Found::Repeated => Err(DecodeError::RepeatedField(key)),
        Found::Once(json) => match json {
            Json::Null => Ok(None),
            _ => Ok(Some(T::decode(json, key)?)),
        },
    }
}

/// The members of the object that a record is read from.
pub fn members_of<'a>(json: &'a Json, key: &'static str) -> (members: Result<
    &'a Vec<(String, Json)>,
    DecodeError,
>)
    ensures
        match members {
            Ok(list) => json@ == JsonView::Object(members_view(list@)),
            Err(fault) => json@ !is Object && fault == DecodeError::WrongType(key),
        },
{
    match json {
        Json::Object(list) => Ok(list),
        _ => Err(DecodeError::WrongType(key)),
    }
}

/// The integer that a JSON value denotes, if it is a number written as an integer.
pub open spec fn integer_of(v: JsonView) -> Option<int> {
    match v {
        JsonView::Number(n) => n.as_int(),
        _ => None,
    }
}

/// What keeps `v` from encoding an integer between `low` and `high`.
pub open spec fn integer_defect(v: JsonView, key: &'static str, low: int, high: int) -> Option<
    DecodeError,
> {
    match integer_of(v) {
        None => Some(DecodeError::WrongType(key)),
        Some(i) => if low <= i <= high {
            None
        } else {
            Some(DecodeError::OutOfRange(key))
        },
    }
}

/// Decodes an integer between `low` and `high`.
pub fn integer(json: &Json, key: &'static str, low: i128, high: i128) -> (decoded: Result<
    i128,
    DecodeError,
>)
    ensures
        match decoded {
            Ok(i) => integer_defect(json@, key, low as int, high as int) is None && integer_of(
                json@,
            ) == Some(i as int),
            Err(fault) => integer_defect(json@, key, low as int, high as int) == Some(fault),
        },
{
    let i: i128 = match json {
        Json::Number(Number::Unsigned(u)) => *u as i128,
        Json::Number(Number::Signed(i)) => *i as i128,
        _ => { return Err(DecodeError::WrongType(key)); },
    };
    if low <= i && i <= high {
        Ok(i)
    } else {
        Err(DecodeError::OutOfRange(key))
    }
}

impl FromJson for i64 {
    open spec fn defect(v: JsonView, key: &'static str) -> Option<DecodeError> {
        integer_defect(v, key, i64::MIN as int, i64::MAX as int)
    }

    open spec fn encoded_by(&self, v: JsonView) -> bool {
        integer_of(v) == Some(*self as int)
    }

    fn decode(json: &Json, key: &'static str) -> (decoded: Result<i64, DecodeError>) {
        Ok(integer(json, key, i64::MIN as i128, i64::MAX as i128)? as i64)
    }
}

impl FromJson for i32 {
    open spec fn defect(v: JsonView, key: &'static str) -> Option<DecodeError> {
        integer_defect(v, key, i32::MIN as int, i32::MAX as int)
    }

    open spec fn encoded_by(&self, v: JsonView) -> bool {
        integer_of(v) == Some(*self as int)
    }

    fn decode(json: &Json, key: &'static str) -> (decoded: Result<i32, DecodeError>) {
        Ok(integer(json, key, i32::MIN as i128, i32::MAX as i128)? as i32)
    }
}

impl FromJson for isize {
    open spec fn defect(v: JsonView, key: &'static str) -> Option<DecodeError> {
        integer_defect(v, key, isize::MIN as int, isize::MAX as int)
    }

    open spec fn encoded_by(&self, v: JsonView) -> bool {
        integer_of(v) == Some(*self as int)
    }

    fn decode(json: &Json, key: &'static str) -> (decoded: Result<isize, DecodeError>) {
        Ok(integer(json, key, isize::MIN as i128, isize::MAX as i128)? as isize)
    }
}

impl FromJson for usize {
    open spec fn defect(v: JsonView, key: &'static str) -> Option<DecodeError> {
        integer_defect(v, key, usize::MIN as int, usize::MAX as int)
    }

    open spec fn encoded_by(&self, v: JsonView) -> bool {
        integer_of(v) == Some(*self as int)
    }

    fn decode(json: &Json, key: &'static str) -> (decoded: Result<usize, DecodeError>) {
        Ok(integer(json, key, usize::MIN as i128, usize::MAX as i128)? as usize)
    }
}

impl FromJson for u16 {
    open spec fn defect(v: JsonView, key: &'static str) -> Option<DecodeError> {
        integer_defect(v, key, u16::MIN as int, u16::MAX as int)
    }

    open spec fn encoded_by(&self, v: JsonView) -> bool {
        integer_of(v) == Some(*self as int)
    }

    fn decode(json: &Json, key: &'static str) -> (decoded: Result<u16, DecodeError>) {
        Ok(integer(json, key, u16::MIN as i128, u16::MAX as i128)? as u16)
    }
}

impl FromJson for i8 {
    open spec fn defect(v: JsonView, key: &'static str) -> Option<DecodeError> {
        integer_defect(v, key, i8::MIN as int, i8::MAX as int)
    }

    open spec fn encoded_by(&self, v: JsonView) -> bool {
        integer_of(v) == Some(*self as int)
    }

    fn decode(json: &Json, key: &'static str) -> (decoded: Result<i8, DecodeError>) {
        Ok(integer(json, key, i8::MIN as i128, i8::MAX as i128)? as i8)
    }
}

impl FromJson for Number {
    open spec fn defect(v: JsonView, key: &'static str) -> Option<DecodeError> {
        if v is Number {
            None
        } else {
            Some(DecodeError::WrongType(key))
        }
    }

    open spec fn encoded_by(&self, v: JsonView) -> bool {
        v == JsonView::Number(*self)
    }

    fn decode(json: &Json, key: &'static str) -> (decoded: Result<Number, DecodeError>) {
        match json {
            Json::Number(n) => Ok(*n),
            _ => Err(DecodeError::WrongType(key)),
        }
    }
}

impl FromJson for bool {
    open spec fn defect(v: JsonView, key: &'static str) -> Option<DecodeError> {
        if v is Bool {
            None
        } else {
            Some(DecodeError::WrongType(key))
        }
    }

    open spec fn encoded_by(&self, v: JsonView) -> bool {
        v == JsonView::Bool(*self)
    }

    fn decode(json: &Json, key: &'static str) -> (decoded: Result<bool, DecodeError>) {
        match json {
            Json::Bool(b) => Ok(*b),
            _ => Err(DecodeError::WrongType(key)),
        }
    }
}

impl FromJson for String {
    open spec fn defect(v: JsonView, key: &'static str) -> Option<DecodeError> {
        if v is Text {
            None
        } else {
            Some(DecodeError::WrongType(key))
        }
    }

    open spec fn encoded_by(&self, v: JsonView) -> bool {
        v == JsonView::Text(self@)
    }

    fn decode(json: &Json, key: &'static str) -> (decoded: Result<String, DecodeError>) {
        match json {
            Json::Text(s) => Ok(s.clone()),
            _ => Err(DecodeError::WrongType(key)),
        }
    }
}

/// The first fault among the items of an array, each held to the type `T`.
pub open spec fn first_defect<T: FromJson>(items: Seq<JsonView>, key: &'static str) -> Option<
    DecodeError,
>
    decreases items.len(),
{
    if items.len() == 0 {
        None
    } else {
        first_defect::<T>(items.drop_last(), key).otherwise(T::defect(items.last(), key))
    }
}

impl<T: FromJson> FromJson for Vec<T> {
    open spec fn defect(v: JsonView, key: &'static str) -> Option<DecodeError> {
        match v {
            JsonView::Array(items) => first_defect::<T>(items, key),
            _ => Some(DecodeError::WrongType(key)),
        }
    }

    open spec fn encoded_by(&self, v: JsonView) -> bool {
        &&& v matches JsonView::Array(items)
        &&& items.len() == self@.len()
        &&& forall|i: int| 0 <= i < items.len() ==> (#[trigger] self@[i]).encoded_by(items[i])
    }

    fn decode(json: &Json, key: &'static str) -> (decoded: Result<Vec<T>, DecodeError>) {
        match json {
            Json::Array(items) => {
                let mut values: Vec<T> = Vec::new();
                let mut i: usize = 0;
                proof {
                    lemma_items_view(items@);
                }
                while i < items.len()
                    invariant
                        i <= items.len(),
                        values@.len() == i,
                        json@ == JsonView::Array(items_view(items@)),
                        items_view(items@).len() == items@.len(),
                        first_defect::<T>(items_view(items@).take(i as int), key) is None,
                        forall|j: int|
                            0 <= j < i ==> (#[trigger] values@[j]).encoded_by(items_view(items@)[j]),
                    decreases items.len() - i,
                {
                    proof {
                        lemma_items_view(items@);
                        let upto = items_view(items@).take(i + 1);
                        assert(upto.drop_last() =~= items_view(items@).take(i as int));
                        assert(upto.last() == items@[i as int]@);
                    }
                    match T::decode(&items[i], key) {
                        Ok(value) => {
                            values.push(value);
                        },
                        Err(fault) => {
                            proof {
                                let upto = items_view(items@).take(i + 1);
                                assert(first_defect::<T>(upto, key) == Some(fault));
                                lemma_first_defect_stays::<T>(items_view(items@), i + 1, key);
                            }
                            return Err(fault);
                        },
                    }
                    i += 1;
                }
                proof {
                    lemma_items_view(items@);
                    assert(items_view(items@).take(i as int) =~= items_view(items@));
                }
                Ok(values)
            },
            _ => Err(DecodeError::WrongType(key)),
        }
    }
}

/// A fault found among the first `n` items of an array is the first fault of the whole array.
pub proof fn lemma_first_defect_stays<T: FromJson>(items: Seq<JsonView>, n: int, key: &'static str)
    requires
        0 <= n <= items.len(),
        first_defect::<T>(items.take(n), key) is Some,
    ensures
        first_defect::<T>(items, key) == first_defect::<T>(items.take(n), key),
    decreases items.len() - n,
{
    if n < items.len() {
        assert(items.take(n + 1).drop_last() =~= items.take(n));
        lemma_first_defect_stays::<T>(items, n + 1, key);
    } else {
        assert(items.take(n) =~= items);
    }
}

} // verus!
