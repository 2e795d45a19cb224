//! A model of JSON values, and the lookup of members in JSON objects.

use vstd::prelude::*;
use vstd::utf8::{encode_utf8, encode_utf8_decode_utf8};

verus! {

/// A JSON number as a parser hands it over, unrounded.
#[derive(Clone, Copy, Debug, PartialEq, Eq)]
pub enum Number {
    /// A non-negative integer.
    Unsigned(u64),
    /// An integer; parsers use it for the negative ones.
    Signed(i64),
    /// Any other number, as the bit pattern of its IEEE 754 binary64 value.
    Real(u64),
}

impl Number {
    /// The integer that the number denotes, if it is written as one.
    pub open spec fn as_int(self) -> Option<int> {
        match self {
            Number::Unsigned(u) => Some(u as int),
            Number::Signed(i) => Some(i as int),
            Number::Real(_) => None,
        }
    }
}

/// A JSON value.
#[derive(Debug, PartialEq, Eq)]
pub enum Json {
    Null,
    Bool(bool),
    Number(Number),
    Text(String),
    Array(Vec<Json>),
    /// The members of an object, in the order in which they were written.
    Object(Vec<(String, Json)>),
}

/// The mathematical value of a [`Json`].
pub enum JsonView {
    Null,
    Bool(bool),
    Number(Number),
    Text(Seq<char>),
    Array(Seq<JsonView>),
    Object(Seq<(Seq<char>, JsonView)>),
}

impl View for Json {
    type V = JsonView;

    open spec fn view(&self) -> JsonView {
        json_view(*self)
    }
}

/// The mathematical value of a JSON value.
pub open spec fn json_view(json: Json) -> JsonView
    decreases json,
{
    match json {
        Json::Null => JsonView::Null,
        Json::Bool(b) => JsonView::Bool(b),
        Json::Number(n) => JsonView::Number(n),
        Json::Text(s) => JsonView::Text(s@),
        Json::Array(items) => JsonView::Array(items_view(items@)),
        Json::Object(members) => JsonView::Object(members_view(members@)),
    }
}

/// The items of an array, in their order.
pub open spec fn items_view(items: Seq<Json>) -> Seq<JsonView>
    decreases items,
{
    if items.len() == 0 {
        Seq::empty()
    } else {
        items_view(items.drop_last()).push(json_view(items.last()))
    }
}

/// The members of an object as keys and values, in their order.
pub open spec fn members_view(members: Seq<(String, Json)>) -> Seq<(Seq<char>, JsonView)>
    decreases members,
{
    if members.len() == 0 {
        Seq::empty()
    } else {
        members_view(members.drop_last()).push((members.last().0@, json_view(members.last().1)))
    }
}

/// An array's view has the views of its items, place by place.
pub proof fn lemma_items_view(items: Seq<Json>)
    ensures
        items_view(items).len() == items.len(),
        forall|i: int| 0 <= i < items.len() ==> #[trigger] items_view(items)[i] == items[i]@,
    decreases items.len(),
{
    if items.len() > 0 {
        lemma_items_view(items.drop_last());
    }
}

/// An object's view has the keys and the views of its members, place by place.
pub proof fn lemma_members_view(members: Seq<(String, Json)>)
    ensures
        members_view(members).len() == members.len(),
        forall|i: int|
            0 <= i < members.len() ==> #[trigger] members_view(members)[i] == (
                members[i].0@,
                members[i].1@,
            ),
    decreases members.len(),
{
    if members.len() > 0 {
        lemma_members_view(members.drop_last());
    }
}

/// What an object holds under one key.
pub enum Lookup {
    /// No member has the key.
    Absent,
    /// Exactly one member has the key, with this value.
    Once(JsonView),
    /// Two or more members have the key.
    Repeated,
}

/// Looks a key up among the members of an object.
pub open spec fn lookup(members: Seq<(Seq<char>, JsonView)>, key: Seq<char>) -> Lookup
    decreases members.len(),
{
    if members.len() == 0 {
        Lookup::Absent
    } else {
        let before = lookup(members.drop_last(), key);
        if members.last().0 == key {
            match before {
                Lookup::Absent => Lookup::Once(members.last().1),
                _ => Lookup::Repeated,
            }
        } else {
            before
        }
    }
}

/// Whether two strings hold the same characters.
pub fn same_text(a: &str, b: &str) -> (same: bool)
    ensures
        same <==> a@ == b@,
{
    let x = a.as_bytes();
    let y = b.as_bytes();
    if x.len() != y.len() {
        return false;
    }
    let mut i: usize = 0;
    while i < x.len()
        invariant
            i <= x.len(),
            x.len() == y.len(),
            x@ == encode_utf8(a@),
            y@ == encode_utf8(b@),
            forall|j: int| 0 <= j < i ==> x@[j] == y@[j],
        decreases x.len() - i,
    {
        if x[i] != y[i] {
            return false;
        }
        i += 1;
    }
    proof {
        assert(x@ =~= y@);
        encode_utf8_decode_utf8(a@);
        encode_utf8_decode_utf8(b@);
    }
    true
}

impl Json {
    /// The JSON string with the characters of `text`.
    pub fn text(text: &str) -> (json: Json)
        ensures
            json@ == JsonView::Text(text@),
    {
        Json::Text(text.to_owned())
    }

    /// The JSON number that stands for an integer: unsigned from zero on, signed below.
    pub fn integer(i: i64) -> (json: Json)
        ensures
            json@ == JsonView::Number(
                if i >= 0 {
                    Number::Unsigned(i as u64)
                } else {
                    Number::Signed(i)
                },
            ),
    {
        if i >= 0 {
            Json::Number(Number::Unsigned(i as u64))
        } else {
            Json::Number(Number::Signed(i))
        }
    }

    /// The JSON object with the given members, in their order.
    pub fn object(members: Vec<(String, Json)>) -> (json: Json)
        ensures
            json@ == JsonView::Object(members_view(members@)),
    {
        Json::Object(members)
    }

    /// A member of an object.
    pub fn member(key: &str, value: Json) -> (member: (String, Json))
        ensures
            member.0@ == key@,
            member.1 == value,
    {
        (key.to_owned(), value)
    }

    /// The value that an object holds under a key: `None` where the value is no object, or
    /// holds no member or more than one under the key.
    pub fn get(&self, key: &str) -> (value: Option<&Json>)
        ensures
            match value {
                Some(held) => self@ matches JsonView::Object(members) && lookup(members, key@)
                    == Lookup::Once(held@),
                None => self@ matches JsonView::Object(members) ==> lookup(members, key@)
                    !is Once,
            },
    {
        match self {
            Json::Object(members) => match find(members, key) {
                Found::Once(held) => Some(held),
                _ => None,
            },
            _ => None,
        }
    }
}

impl Clone for Json {
    /// A copy of the value, with the same view.
    fn clone(&self) -> (copy: Json)
        ensures
            copy@ == self@,
        decreases self,
    {
        match self {
            Json::Null => Json::Null,
            Json::Bool(b) => Json::Bool(*b),
            Json::Number(n) => Json::Number(*n),
            Json::Text(s) => Json::Text(s.clone()),
            Json::Array(items) => {
                let mut copies: Vec<Json> = Vec::new();
                let mut i: usize = 0;
                while i < items.len()
                    invariant
                        i <= items.len(),
                        copies@.len() == i,
                        *self == Json::Array(*items),
                        forall|j: int| 0 <= j < i ==> (#[trigger] copies@[j])@ == items@[j]@,
                    decreases items.len() - i,
                {
                    assert(decreases_to!(*self => self->Array_0@[i as int]));
                    copies.push(items[i].clone());
                    i += 1;
                }
                proof {
                    lemma_items_view(items@);
                    lemma_items_view(copies@);
                    assert(items_view(copies@) =~= items_view(items@));
                }
                Json::Array(copies)
            },
            Json::Object(members) => {
                let mut copies: Vec<(String, Json)> = Vec::new();
                let mut i: usize = 0;
                while i < members.len()
                    invariant
                        i <= members.len(),
                        copies@.len() == i,
                        *self == Json::Object(*members),
                        forall|j: int|
                            0 <= j < i ==> (#[trigger] copies@[j]).0@ == members@[j].0@
                                && copies@[j].1@ == members@[j].1@,
                    decreases members.len() - i,
                {
                    assert(decreases_to!(*self => self->Object_0@[i as int].1));
                    copies.push((members[i].0.clone(), members[i].1.clone()));
                    i += 1;
                }
                proof {
                    lemma_members_view(members@);
                    lemma_members_view(copies@);
                    assert(members_view(copies@) =~= members_view(members@));
                }
                Json::Object(copies)
            },
        }
    }
}

/// What [`find`] found: the executable counterpart of [`Lookup`].
pub enum Found<'a> {
    Absent,
    Once(&'a Json),
    Repeated,
}

impl<'a> View for Found<'a> {
    type V = Lookup;

    open spec fn view(&self) -> Lookup {
        match self {
            Found::Absent => Lookup::Absent,
            Found::Once(json) => Lookup::Once(json@),
            Found::Repeated => Lookup::Repeated,
        }
    }
}

/// Looks a key up among the members of an object, reading all of them.
pub fn find<'a>(members: &'a Vec<(String, Json)>, key: &str) -> (found: Found<'a>)
    ensures
        found@ == lookup(members_view(members@), key@),
{
    let mut found: Found<'a> = Found::Absent;
    let mut i: usize = 0;
    while i < members.len()
        invariant
            i <= members.len(),
            found@ == lookup(members_view(members@).take(i as int), key@),
        decreases members.len() - i,
    {
        let member = &members[i];
        proof {
            lemma_members_view(members@);
            let upto = members_view(members@).take(i + 1);
            assert(upto.drop_last() =~= members_view(members@).take(i as int));
            assert(upto.last() == (member.0@, member.1@));
        }
        if same_text(member.0.as_str(), key) {
            found =
            match found {
                Found::Absent => Found::Once(&member.1),
                _ => Found::Repeated,
            };
        }
        i += 1;
    }
    proof {
        lemma_members_view(members@);
        assert(members_view(members@).take(i as int) =~= members_view(members@));
    }
    found
}

} // verus!
