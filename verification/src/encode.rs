//! Encoding of typed values as JSON, and of records as objects that hold only the fields that
//! were set.

use crate::json::{items_view, lemma_items_view, members_view, Json, JsonView, Number};
use vstd::prelude::*;

verus! {

/// A type whose values have a JSON encoding that this library writes.
pub trait ToJson {
    /// The JSON value that encodes this value.
    spec fn encoding(&self) -> JsonView;

    /// Encodes the value.
    fn to_json(&self) -> (json: Json)
        ensures
            json@ == self.encoding(),
    ;
}

/// The JSON number that stands for an integer: unsigned from zero on, signed below.
pub open spec fn integer_encoding(i: int) -> JsonView {
    if i >= 0 {
        JsonView::Number(Number::Unsigned(i as u64))
    } else {
        JsonView::Number(Number::Signed(i as i64))
    }
}

/// Encodes an integer that a JSON number can hold.
pub fn integer_json(i: i128) -> (json: Json)
    requires
        i64::MIN <= i <= u64::MAX,
    ensures
        json@ == integer_encoding(i as int),
{
    if i >= 0 {
        Json::Number(Number::Unsigned(i as u64))
    } else {
        Json::Number(Number::Signed(i as i64))
    }
}

impl ToJson for i64 {
    open spec fn encoding(&self) -> JsonView {
        integer_encoding(*self as int)
    }

    fn to_json(&self) -> (json: Json) {
        integer_json(*self as i128)
    }
}

impl ToJson for i32 {
    open spec fn encoding(&self) -> JsonView {
        integer_encoding(*self as int)
    }

    fn to_json(&self) -> (json: Json) {
        integer_json(*self as i128)
    }
}

impl ToJson for isize {
    open spec fn encoding(&self) -> JsonView {
        integer_encoding(*self as int)
    }

    fn to_json(&self) -> (json: Json) {
        integer_json(*self as i128)
    }
}

impl ToJson for u16 {
    open spec fn encoding(&self) -> JsonView {
        integer_encoding(*self as int)
    }

    fn to_json(&self) -> (json: Json) {
        integer_json(*self as i128)
    }
}

impl ToJson for bool {
    open spec fn encoding(&self) -> JsonView {
        JsonView::Bool(*self)
    }

    fn to_json(&self) -> (json: Json) {
        Json::Bool(*self)
    }
}

impl ToJson for Number {
    open spec fn encoding(&self) -> JsonView {
        JsonView::Number(*self)
    }

    fn to_json(&self) -> (json: Json) {
        Json::Number(*self)
    }
}

impl ToJson for String {
    open spec fn encoding(&self) -> JsonView {
        JsonView::Text(self@)
    }

    fn to_json(&self) -> (json: Json) {
        Json::Text(self.clone())
    }
}

/// The encodings of the items of a list, in their order.
pub open spec fn encodings<T: ToJson>(items: Seq<T>) -> Seq<JsonView>
    decreases items.len(),
{
    if items.len() == 0 {
        Seq::empty()
    } else {
        encodings(items.drop_last()).push(items.last().encoding())
    }
}

/// The encodings of a list stand place by place for its items.
pub proof fn lemma_encodings<T: ToJson>(items: Seq<T>)
    ensures
        encodings(items).len() == items.len(),
        forall|i: int| 0 <= i < items.len() ==> #[trigger] encodings(items)[i] == items[i].encoding(),
    decreases items.len(),
{
    if items.len() > 0 {
        lemma_encodings(items.drop_last());
    }
}

impl<T: ToJson> ToJson for Vec<T> {
    open spec fn encoding(&self) -> JsonView {
        JsonView::Array(encodings(self@))
    }

    fn to_json(&self) -> (json: Json) {
        let mut items: Vec<Json> = Vec::new();
        let mut i: usize = 0;
        while i < self.len()
            invariant
                i <= self.len(),
                items@.len() == i,
                forall|j: int| 0 <= j < i ==> (#[trigger] items@[j])@ == self@[j].encoding(),
            decreases self.len() - i,
        {
            items.push(self[i].to_json());
            i += 1;
        }
        proof {
            lemma_items_view(items@);
            lemma_encodings(self@);
            assert(items_view(items@) =~= encodings(self@));
        }
        Json::Array(items)
    }
}

/// A field of a record on its way to the wire: its key and, where the field is set, its
/// encoding.
pub type Entry = (Seq<char>, Option<JsonView>);

/// The entry of a field that may be unset.
pub open spec fn entry<T: ToJson>(key: &'static str, value: Option<T>) -> Entry {
    (
        key@,
        match value {
            Some(inner) => Some(inner.encoding()),
            None => None,
        },
    )
}

/// The entry of a field that is always written.
pub open spec fn always<T: ToJson>(key: &'static str, value: T) -> Entry {
    (key@, Some(value.encoding()))
}

/// The members that a list of entries puts on the wire: those of the fields that are set, in
/// their order. An unset field leaves no trace, neither a `null` nor a zero.
pub open spec fn written(entries: Seq<Entry>) -> Seq<(Seq<char>, JsonView)>
    decreases entries.len(),
{
    if entries.len() == 0 {
        Seq::empty()
    } else {
        let before = written(entries.drop_last());
        match entries.last().1 {
            Some(v) => before.push((entries.last().0, v)),
            None => before,
        }
    }
}

/// One more entry adds its member where it is set, and nothing where it is not.
pub broadcast proof fn lemma_written_push(entries: Seq<Entry>, last: Entry)
    ensures
        #[trigger] written(entries.push(last)) == match last.1 {
            Some(v) => written(entries).push((last.0, v)),
            None => written(entries),
        },
{
    assert(entries.push(last).drop_last() =~= entries);
}

/// Collects the members of an object while the fields of a record are written to it.
pub struct ObjectWriter {
    members: Vec<(String, Json)>,
    entries: Ghost<Seq<Entry>>,
}

impl ObjectWriter {
    /// The entries of the fields written so far.
    pub closed spec fn entries(&self) -> Seq<Entry> {
        self.entries@
    }

    /// The members collected are those that the entries put on the wire.
    pub closed spec fn well_formed(&self) -> bool {
        members_view(self.members@) == written(self.entries@)
    }

    /// A writer that has written nothing yet.
    pub fn new() -> (writer: ObjectWriter)
        ensures
            writer.well_formed(),
            writer.entries() == Seq::<Entry>::empty(),
    {
        ObjectWriter { members: Vec::new(), entries: Ghost(Seq::empty()) }
    }

    /// Writes a field if it is set, and leaves no trace of it if it is not.
    pub fn put<T: ToJson>(&mut self, key: &'static str, value: &Option<T>)
        requires
            old(self).well_formed(),
        ensures
            final(self).well_formed(),
            final(self).entries() == old(self).entries().push(entry(key, *value)),
    {
        match value {
            Some(inner) => {
                self.put_always(key, inner);
                assert(entry(key, *value) == always(key, *inner));
            },
            None => {
                proof {
                    lemma_written_push(self.entries@, entry(key, *value));
                    self.entries@ = self.entries@.push(entry(key, *value));
                }
            },
        }
    }

    /// Writes a field.
    pub fn put_always<T: ToJson>(&mut self, key: &'static str, value: &T)
        requires
            old(self).well_formed(),
        ensures
            final(self).well_formed(),
            final(self).entries() == old(self).entries().push(always(key, *value)),
    {
        let json = value.to_json();
        let name = key.to_owned();
        self.members.push((name, json));
        proof {
            assert(self.members@.drop_last() =~= old(self).members@);
            lemma_written_push(self.entries@, always(key, *value));
            self.entries@ = self.entries@.push(always(key, *value));
        }
    }

    /// The object that holds what was written.
    pub fn finish(self) -> (json: Json)
        requires
            self.well_formed(),
        ensures
            json@ == JsonView::Object(written(self.entries())),
    {
        Json::Object(self.members)
    }
}

} // verus!
