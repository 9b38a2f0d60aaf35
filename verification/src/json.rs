//! JSON values as the library holds them, and their mathematical model.
//!
//! [`Json`] is the executable tree; [`JsonValue`] is what it denotes. Every
//! contract in this crate speaks of the latter, reached through `@`.

use crate::text::same_text;
use vstd::prelude::*;

verus! {

/// The mathematical content of a JSON value.
pub enum JsonValue {
    Null,
    Bool(bool),
    /// An integer number.
    Integer(int),
    /// Any other number, as its decimal text.
    Real(Seq<char>),
    Text(Seq<char>),
    Array(Seq<JsonValue>),
    /// The members of an object, in the order in which they are held.
    Object(Seq<(Seq<char>, JsonValue)>),
}

/// The value of the first member called `name`, if there is one.
pub open spec fn lookup(members: Seq<(Seq<char>, JsonValue)>, name: Seq<char>) -> Option<
    JsonValue,
>
    decreases members.len(),
{
    if members.len() == 0 {
        None
    } else if members[0].0 == name {
        Some(members[0].1)
    } else {
        lookup(members.drop_first(), name)
    }
}

impl JsonValue {
    /// The member `name` of an object; `None` for a missing member and for
    /// anything that is not an object.
    pub open spec fn member(self, name: Seq<char>) -> Option<JsonValue> {
        match self {
            JsonValue::Object(members) => lookup(members, name),
            _ => None,
        }
    }

    /// The member `name`, or `Null` where [`Self::member`] finds none.
    pub open spec fn at(self, name: Seq<char>) -> JsonValue {
        match self.member(name) {
            Some(value) => value,
            None => JsonValue::Null,
        }
    }

    /// The member `name`, or `default` where [`Self::member`] finds none.
    pub open spec fn member_or(self, name: Seq<char>, default: JsonValue) -> JsonValue {
        match self.member(name) {
            Some(value) => value,
            None => default,
        }
    }

    /// The member `inner` of the member `outer`.
    pub open spec fn nested(self, outer: Seq<char>, inner: Seq<char>) -> Option<JsonValue> {
        match self.member(outer) {
            Some(value) => value.member(inner),
            None => None,
        }
    }

    /// The member `inner` of the member `outer`, or `default` where either is
    /// missing.
    pub open spec fn nested_or(
        self,
        outer: Seq<char>,
        inner: Seq<char>,
        default: JsonValue,
    ) -> JsonValue {
        match self.nested(outer, inner) {
            Some(value) => value,
            None => default,
        }
    }

    /// The member `name`, or the empty string where there is none.
    pub open spec fn or_blank(self, name: Seq<char>) -> JsonValue {
        self.member_or(name, JsonValue::empty_text())
    }

    /// The member `name`, or the number zero where there is none.
    pub open spec fn or_zero(self, name: Seq<char>) -> JsonValue {
        self.member_or(name, JsonValue::zero())
    }

    /// The member `name`, or the object without members where there is none.
    pub open spec fn or_empty(self, name: Seq<char>) -> JsonValue {
        self.member_or(name, JsonValue::empty_object())
    }

    /// The member `inner` of the member `outer`, or the empty string where
    /// either is missing.
    pub open spec fn nested_or_blank(self, outer: Seq<char>, inner: Seq<char>) -> JsonValue {
        self.nested_or(outer, inner, JsonValue::empty_text())
    }

    /// The member `inner` of the member `outer`, or the number zero where
    /// either is missing.
    pub open spec fn nested_or_zero(self, outer: Seq<char>, inner: Seq<char>) -> JsonValue {
        self.nested_or(outer, inner, JsonValue::zero())
    }

    /// The characters of a string value.
    pub open spec fn text(self) -> Option<Seq<char>> {
        match self {
            JsonValue::Text(t) => Some(t),
            _ => None,
        }
    }

    /// The elements of an array value.
    pub open spec fn items(self) -> Option<Seq<JsonValue>> {
        match self {
            JsonValue::Array(items) => Some(items),
            _ => None,
        }
    }

    /// The elements of an array value; no elements for anything else.
    pub open spec fn items_or_empty(self) -> Seq<JsonValue> {
        match self {
            JsonValue::Array(items) => items,
            _ => Seq::empty(),
        }
    }

    /// An integer number that fits 64 unsigned bits.
    pub open spec fn unsigned(self) -> Option<u64> {
        match self {
            JsonValue::Integer(n) if 0 <= n <= u64::MAX => Some(n as u64),
            _ => None,
        }
    }

    /// The empty string value.
    pub open spec fn empty_text() -> JsonValue {
        JsonValue::Text(Seq::empty())
    }

    /// The number zero.
    pub open spec fn zero() -> JsonValue {
        JsonValue::Integer(0)
    }

    /// The object without members.
    pub open spec fn empty_object() -> JsonValue {
        JsonValue::Object(Seq::empty())
    }
}

/// A JSON value.
///
/// An object keeps its members in a vector; where a name occurs more than once
/// the first occurrence is the one that lookups find.
///
/// `==` compares two values as they are held, so that `Unsigned(1)` and
/// `Signed(1)` differ, though they denote the same number.
#[derive(Debug, PartialEq, Eq)]
pub enum Json {
    Null,
    Bool(bool),
    /// An integer number from 0 to 2^64 - 1.
    Unsigned(u64),
    /// An integer number from -2^63 to 2^63 - 1.
    Signed(i64),
    /// Any other number, held as its decimal text, such as `29.97` or `1e+30`.
    Real(String),
    Text(String),
    Array(Vec<Json>),
    Object(Vec<(String, Json)>),
}

impl Json {
    /// What this value denotes. `@` is short for it.
    pub open spec fn value(&self) -> JsonValue
        decreases self,
    {
        match self {
            Json::Null => JsonValue::Null,
            Json::Bool(b) => JsonValue::Bool(*b),
            Json::Unsigned(n) => JsonValue::Integer(*n as int),
            Json::Signed(n) => JsonValue::Integer(*n as int),
            Json::Real(t) => JsonValue::Real(t@),
            Json::Text(t) => JsonValue::Text(t@),
            Json::Array(items) => JsonValue::Array(
                Seq::new(
                    items.len() as nat,
                    |i: int|
                        if 0 <= i < items.len() {
                            items[i].value()
                        } else {
                            JsonValue::Null
                        },
                ),
            ),
            Json::Object(members) => JsonValue::Object(
                Seq::new(
                    members.len() as nat,
                    |i: int|
                        if 0 <= i < members.len() {
                            (members[i].0@, members[i].1.value())
                        } else {
                            (Seq::empty(), JsonValue::Null)
                        },
                ),
            ),
        }
    }
}

impl View for Json {
    type V = JsonValue;

    open spec fn view(&self) -> JsonValue {
        self.value()
    }
}

/// What a borrowed value denotes, if there is one.
pub open spec fn denoted(found: Option<&Json>) -> Option<JsonValue> {
    match found {
        Some(value) => Some(value@),
        None => None,
    }
}

/// What a borrowed string holds, if there is one.
pub open spec fn characters(found: Option<&str>) -> Option<Seq<char>> {
    match found {
        Some(text) => Some(text@),
        None => None,
    }
}

/// What the elements of a sequence denote, element by element.
pub open spec fn views<T: View>(items: Seq<T>) -> Seq<T::V> {
    Seq::new(items.len(), |i: int| items[i]@)
}

/// What the members of an object denote, member by member.
pub open spec fn members_of(members: Seq<(String, Json)>) -> Seq<(Seq<char>, JsonValue)> {
    Seq::new(members.len(), |i: int| (members[i].0@, members[i].1@))
}

impl Clone for Json {
    /// A deep copy: it denotes what the value copied denotes.
    fn clone(&self) -> (copy: Json)
        ensures
            copy@ == self@,
        decreases self,
    {
        match self {
            Json::Null => Json::Null,
            Json::Bool(b) => Json::Bool(*b),
            Json::Unsigned(n) => Json::Unsigned(*n),
            Json::Signed(n) => Json::Signed(*n),
            Json::Real(t) => Json::Real(t.clone()),
            Json::Text(t) => Json::Text(t.clone()),
            Json::Array(items) => {
                let mut copies: Vec<Json> = Vec::new();
                let mut i: usize = 0;
                while i < items.len()
                    invariant
                        i <= items.len(),
                        copies.len() == i,
                        *self == Json::Array(*items),
                        forall|k: int| 0 <= k < i ==> copies[k]@ == items[k]@,
                    decreases items.len() - i,
                {
                    assert(decreases_to!(*self => (self->Array_0)[i as int]));
                    copies.push(items[i].clone());
                    i = i + 1;
                }
                let copy = Json::Array(copies);
                assert(copy@->Array_0 =~= self@->Array_0);
                copy
            },
            Json::Object(members) => {
                let mut copies: Vec<(String, Json)> = Vec::new();
                let mut i: usize = 0;
                while i < members.len()
                    invariant
                        i <= members.len(),
                        copies.len() == i,
                        *self == Json::Object(*members),
                        forall|k: int|
                            0 <= k < i ==> copies[k].0@ == members[k].0@ && copies[k].1@
                                == members[k].1@,
                    decreases members.len() - i,
                {
                    assert(decreases_to!(*self => (self->Object_0)[i as int].1));
                    copies.push((members[i].0.clone(), members[i].1.clone()));
                    i = i + 1;
                }
                let copy = Json::Object(copies);
                assert(copy@->Object_0 =~= self@->Object_0);
                copy
            },
        }
    }
}

impl Json {
    /// The member `name` of an object.
    pub fn get(&self, name: &str) -> (found: Option<&Json>)
        ensures
            denoted(found) == self@.member(name@),
    {
        match self {
            Json::Object(members) => {
                let ghost all = self@->Object_0;
                let mut i: usize = 0;
                assert(all.skip(0) =~= all);
                while i < members.len()
                    invariant
                        i <= members.len(),
                        self@ == JsonValue::Object(all),
                        all.len() == members.len(),
                        forall|k: int|
                            0 <= k < members.len() ==> all[k] == (members[k].0@, members[k].1@),
                        lookup(all, name@) == lookup(all.skip(i as int), name@),
                    decreases members.len() - i,
                {
                    assert(all.skip(i as int)[0] == all[i as int]);
                    if same_text(members[i].0.as_str(), name) {
                        return Some(&members[i].1);
                    }
                    assert(all.skip(i as int).drop_first() =~= all.skip(i + 1));
                    i = i + 1;
                }
                None
            },
            _ => None,
        }
    }

    /// A copy of the member `name`, or `Null` where there is none.
    pub fn at(&self, name: &str) -> (value: Json)
        ensures
            value@ == self@.at(name@),
    {
        match self.get(name) {
            Some(value) => value.clone(),
            None => Json::Null,
        }
    }

    /// A copy of the member `name`, or `default` where there is none.
    pub fn member_or(&self, name: &str, default: Json) -> (value: Json)
        ensures
            value@ == self@.member_or(name@, default@),
    {
        match self.get(name) {
            Some(value) => value.clone(),
            None => default,
        }
    }

    /// The member `inner` of the member `outer`.
    pub fn nested(&self, outer: &str, inner: &str) -> (found: Option<&Json>)
        ensures
            denoted(found) == self@.nested(outer@, inner@),
    {
        match self.get(outer) {
            Some(value) => value.get(inner),
            None => None,
        }
    }

    /// A copy of the member `inner` of the member `outer`, or `default` where
    /// either is missing.
    pub fn nested_or(&self, outer: &str, inner: &str, default: Json) -> (value: Json)
        ensures
            value@ == self@.nested_or(outer@, inner@, default@),
    {
        match self.nested(outer, inner) {
            Some(value) => value.clone(),
            None => default,
        }
    }

    /// A copy of the member `name`, or the empty string where there is none.
    pub fn or_blank(&self, name: &str) -> (value: Json)
        ensures
            value@ == self@.or_blank(name@),
    {
        self.member_or(name, Json::empty_text())
    }

    /// A copy of the member `name`, or the number zero where there is none.
    pub fn or_zero(&self, name: &str) -> (value: Json)
        ensures
            value@ == self@.or_zero(name@),
    {
        self.member_or(name, Json::zero())
    }

    /// A copy of the member `name`, or the object without members where there
    /// is none.
    pub fn or_empty(&self, name: &str) -> (value: Json)
        ensures
            value@ == self@.or_empty(name@),
    {
        self.member_or(name, Json::empty_object())
    }

    /// A copy of the member `inner` of the member `outer`, or the empty string
    /// where either is missing.
    pub fn nested_or_blank(&self, outer: &str, inner: &str) -> (value: Json)
        ensures
            value@ == self@.nested_or_blank(outer@, inner@),
    {
        self.nested_or(outer, inner, Json::empty_text())
    }

    /// A copy of the member `inner` of the member `outer`, or the number zero
    /// where either is missing.
    pub fn nested_or_zero(&self, outer: &str, inner: &str) -> (value: Json)
        ensures
            value@ == self@.nested_or_zero(outer@, inner@),
    {
        self.nested_or(outer, inner, Json::zero())
    }

    /// The characters of a string value.
    pub fn as_str(&self) -> (found: Option<&str>)
        ensures
            characters(found) == self@.text(),
    {
        match self {
            Json::Text(t) => Some(t.as_str()),
            _ => None,
        }
    }

    /// Whether this is the string `expected`.
    pub fn is_text(&self, expected: &str) -> (same: bool)
        ensures
            same == (self@.text() == Some(expected@)),
    {
        match self {
            Json::Text(t) => same_text(t.as_str(), expected),
            _ => false,
        }
    }

    /// The elements of an array value.
    pub fn as_array(&self) -> (found: Option<&Vec<Json>>)
        ensures
            match found {
                Some(items) => self@.items() == Some(views(items@)),
                None => self@.items() is None,
            },
    {
        match self {
            Json::Array(items) => {
                assert(self@->Array_0 =~= views(items@));
                Some(items)
            },
            _ => None,
        }
    }

    /// An integer number that fits 64 unsigned bits.
    pub fn as_u64(&self) -> (found: Option<u64>)
        ensures
            found == self@.unsigned(),
    {
        match self {
            Json::Unsigned(n) => Some(*n),
            Json::Signed(n) => if *n >= 0 {
                Some(*n as u64)
            } else {
                None
            },
            _ => None,
        }
    }

    /// The array of `items`.
    pub fn array(items: Vec<Json>) -> (value: Json)
        ensures
            value@ == JsonValue::Array(views(items@)),
    {
        let value = Json::Array(items);
        assert(value@->Array_0 =~= views(items@));
        value
    }

    /// The object of `members`.
    pub fn object(members: Vec<(String, Json)>) -> (value: Json)
        ensures
            value@ == JsonValue::Object(members_of(members@)),
    {
        let value = Json::Object(members);
        assert(value@->Object_0 =~= members_of(members@));
        value
    }

    /// Adds the member `name` with the value `value` at the end of `members`.
    pub fn put(members: &mut Vec<(String, Json)>, name: &str, value: Json)
        ensures
            members_of(final(members)@) == members_of(old(members)@).push((name@, value@)),
    {
        members.push((name.to_owned(), value));
        assert(members_of(members@) =~= members_of(old(members)@).push((name@, value@)));
    }

    /// The empty string value.
    pub fn empty_text() -> (value: Json)
        ensures
            value@ == JsonValue::empty_text(),
    {
        Json::Text(String::new())
    }

    /// The number zero.
    pub fn zero() -> (value: Json)
        ensures
            value@ == JsonValue::zero(),
    {
        Json::Unsigned(0)
    }

    /// The object without members.
    pub fn empty_object() -> (value: Json)
        ensures
            value@ == JsonValue::empty_object(),
    {
        let value = Json::Object(Vec::new());
        assert(value@->Object_0 =~= Seq::empty());
        value
    }
}

} // verus!
