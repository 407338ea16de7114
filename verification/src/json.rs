//! A JSON document as the service sends it, and the lookups the feed parser makes
//! in one.
use vstd::prelude::*;

use crate::text::strings_equal;

verus! {

/// A JSON value. Objects keep their members in order; a service document names each
/// member once. A number is kept as the whole number it is when it fits in `u64`, and
/// as `None` otherwise (negative, fractional or too large): nothing here reads other
/// numbers.
#[derive(Debug, PartialEq, Eq)]
pub enum Json {
    Null,
    Bool(bool),
    Number(Option<u64>),
    String(String),
    Array(Vec<Json>),
    Object(Vec<(String, Json)>),
}

/// The value of the first member named `key`.
pub open spec fn member(entries: Seq<(String, Json)>, key: Seq<char>) -> Option<Json>
    decreases entries.len(),
{
    if entries.len() == 0 {
        None
    } else if entries[0].0@ == key {
        Some(entries[0].1)
    } else {
        member(entries.drop_first(), key)
    }
}

impl Json {
    /// `value.get(key)`: the member of an object; nothing for other values.
    pub open spec fn field(self, key: Seq<char>) -> Option<Json> {
        match self {
            Json::Object(entries) => member(entries@, key),
            _ => None,
        }
    }

    pub open spec fn as_text(self) -> Option<Seq<char>> {
        match self {
            Json::String(s) => Some(s@),
            _ => None,
        }
    }

    pub open spec fn as_items(self) -> Option<Seq<Json>> {
        match self {
            Json::Array(items) => Some(items@),
            _ => None,
        }
    }

    /// The text of the string member `key`.
    pub open spec fn text_field(self, key: Seq<char>) -> Option<Seq<char>> {
        match self.field(key) {
            Some(v) => v.as_text(),
            None => None,
        }
    }

    pub open spec fn bool_field(self, key: Seq<char>) -> Option<bool> {
        match self.field(key) {
            Some(Json::Bool(b)) => Some(b),
            _ => None,
        }
    }

    pub open spec fn number_field(self, key: Seq<char>) -> Option<u64> {
        match self.field(key) {
            Some(Json::Number(n)) => n,
            _ => None,
        }
    }

    /// The items of the array member `key`; none when it is missing or not an array.
    pub open spec fn items_field(self, key: Seq<char>) -> Seq<Json> {
        match self.field(key) {
            Some(Json::Array(items)) => items@,
            _ => Seq::empty(),
        }
    }

    /// The members found under `key` are parts of the value.
    pub proof fn lemma_field_decreases(self, key: Seq<char>)
        ensures
            self.field(key) matches Some(v) ==> decreases_to!(self => v),
    {
        if let Json::Object(entries) = self {
            lemma_member_in(entries@, key);
            if let Some(v) = member(entries@, key) {
                let i = choose|i: int| 0 <= i < entries@.len() && entries@[i].1 == v;
                assert(decreases_to!(self => entries));
                assert(decreases_to!(entries => entries@));
                assert(decreases_to!(entries@ => entries@[i]));
                assert(decreases_to!(entries@[i] => entries@[i].1));
            }
        }
    }

    /// The items of an array member are parts of the value.
    pub proof fn lemma_items_decrease(self, key: Seq<char>, i: int)
        requires
            0 <= i < self.items_field(key).len(),
        ensures
            decreases_to!(self => self.items_field(key)[i]),
    {
        self.lemma_field_decreases(key);
        if let Some(Json::Array(items)) = self.field(key) {
            assert(decreases_to!(Json::Array(items) => items));
            assert(decreases_to!(items => items@));
            assert(decreases_to!(items@ => items@[i]));
        }
    }

    /// `value.get(key)`.
    pub fn get(&self, key: &str) -> (r: Option<&Json>)
        ensures
            match r {
                Some(v) => self.field(key@) == Some(*v),
                None => self.field(key@) is None,
            },
    {
        match self {
            Json::Object(entries) => {
                let mut i: usize = 0;
                assert(entries@.skip(0) =~= entries@);
                while i < entries.len()
                    invariant
                        i <= entries@.len(),
                        self.field(key@) == member(entries@, key@),
                        member(entries@, key@) == member(entries@.skip(i as int), key@),
                    decreases entries@.len() - i,
                {
                    assert(entries@.skip(i as int).drop_first() =~= entries@.skip(i + 1));
                    if strings_equal(entries[i].0.as_str(), key) {
                        assert(entries@.skip(i as int)[0] == entries@[i as int]);
                        return Some(&entries[i].1);
                    }
                    i += 1;
                }
                None
            },
            _ => None,
        }
    }

    pub fn as_str(&self) -> (r: Option<&str>)
        ensures
            match r {
                Some(s) => self.as_text() == Some(s@),
                None => self.as_text() is None,
            },
    {
        match self {
            Json::String(s) => Some(s.as_str()),
            _ => None,
        }
    }

    pub fn as_array(&self) -> (r: Option<&Vec<Json>>)
        ensures
            match r {
                Some(v) => self.as_items() == Some(v@),
                None => self.as_items() is None,
            },
    {
        match self {
            Json::Array(items) => Some(items),
            _ => None,
        }
    }

    /// An owned copy of the string member `key`.
    pub fn string_field(&self, key: &str) -> (r: Option<String>)
        ensures
            match r {
                Some(s) => self.text_field(key@) == Some(s@),
                None => self.text_field(key@) is None,
            },
    {
        match self.get(key) {
            Some(v) => match v.as_str() {
                Some(s) => Some(s.to_owned()),
                None => None,
            },
            None => None,
        }
    }

    pub fn bool_member(&self, key: &str) -> (r: Option<bool>)
        ensures
            r == self.bool_field(key@),
    {
        match self.get(key) {
            Some(Json::Bool(b)) => Some(*b),
            _ => None,
        }
    }

    pub fn number_member(&self, key: &str) -> (r: Option<u64>)
        ensures
            r == self.number_field(key@),
    {
        match self.get(key) {
            Some(Json::Number(n)) => *n,
            _ => None,
        }
    }

    /// The array member `key`, if there is one.
    pub fn array_member(&self, key: &str) -> (r: Option<&Vec<Json>>)
        ensures
            match r {
                Some(v) => self.field(key@) matches Some(Json::Array(items)) && items@ == v@,
                None => !(self.field(key@) matches Some(Json::Array(_))),
            },
            r matches Some(v) ==> v@ == self.items_field(key@),
            r is None ==> self.items_field(key@).len() == 0,
    {
        match self.get(key) {
            Some(Json::Array(items)) => Some(items),
            _ => None,
        }
    }
}

/// Some member named `key` exists exactly when `member` finds one, and what it finds is
/// one of the members.
pub proof fn lemma_member_in(entries: Seq<(String, Json)>, key: Seq<char>)
    ensures
        member(entries, key) matches Some(v) ==> exists|i: int| 0 <= i < entries.len() && entries[i].1 == v,
    decreases entries.len(),
{
    if entries.len() > 0 && entries[0].0@ != key {
        lemma_member_in(entries.drop_first(), key);
        if let Some(v) = member(entries, key) {
            let i = choose|i: int| 0 <= i < entries.drop_first().len() && entries.drop_first()[i].1 == v;
            assert(entries[i + 1] == entries.drop_first()[i]);
        }
    }
}

} // verus!
