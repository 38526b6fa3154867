//! A plain model of a decoded JSON document, as the providers read it.
use vstd::prelude::*;

verus! {

/// A decoded JSON value. Numbers that are non-negative integers within `u64` are
/// held as such; any other number is held by its text.
#[derive(Debug)]
pub enum Json {
    Null,
    Bool(bool),
    UInt(u64),
    OtherNumber(String),
    Str(String),
    Array(Vec<Json>),
    Object(Vec<(String, Json)>),
}

/// The first value stored under `key` among `entries`.
pub open spec fn lookup(entries: Seq<(String, Json)>, key: Seq<char>) -> Option<Json>
    decreases entries.len(),
{
    if entries.len() == 0 {
        None
    } else if entries[0].0@ == key {
        Some(entries[0].1)
    } else {
        lookup(entries.drop_first(), key)
    }
}

/// The member `key` of `j` when `j` is an object that has it.
pub open spec fn field(j: Json, key: Seq<char>) -> Option<Json> {
    match j {
        Json::Object(entries) => lookup(entries@, key),
        _ => None,
    }
}

/// The member `key` of `j`, where `j` itself may be absent.
pub open spec fn field_of(j: Option<Json>, key: Seq<char>) -> Option<Json> {
    match j {
        Some(v) => field(v, key),
        None => None,
    }
}

/// The text of `j` when it is a string.
pub open spec fn text_of(j: Option<Json>) -> Option<Seq<char>> {
    match j {
        Some(Json::Str(s)) => Some(s@),
        _ => None,
    }
}

/// The text of an optional borrowed string.
pub open spec fn opt_text(v: Option<&String>) -> Option<Seq<char>> {
    match v {
        Some(s) => Some(s@),
        None => None,
    }
}

/// The string member `key` of `j`.
pub open spec fn str_field(j: Json, key: Seq<char>) -> Option<Seq<char>> {
    text_of(field(j, key))
}

/// The elements of `j` when it is an array.
pub open spec fn items_of(j: Option<Json>) -> Option<Seq<Json>> {
    match j {
        Some(Json::Array(v)) => Some(v@),
        _ => None,
    }
}

/// The members of `j` when it is an object.
pub open spec fn members_of(j: Option<Json>) -> Option<Seq<(String, Json)>> {
    match j {
        Some(Json::Object(v)) => Some(v@),
        _ => None,
    }
}

impl Json {
    /// The member `key`, when `self` is an object that has it.
    pub fn get(&self, key: &str) -> (r: Option<&Json>)
        ensures
            match r {
                Some(v) => field(*self, key@) == Some(*v),
                None => field(*self, key@) is None,
            },
    {
        match self {
            Json::Object(entries) => {
                let wanted = String::from_str(key);
                let mut i: usize = 0;
                assert(entries@.subrange(0, entries@.len() as int) =~= entries@);
                while i < entries.len()
                    invariant
                        *self == Json::Object(*entries),
                        wanted@ == key@,
                        i <= entries@.len(),
                        lookup(entries@, key@) == lookup(
                            entries@.subrange(i as int, entries@.len() as int),
                            key@,
                        ),
                    decreases entries@.len() - i,
                {
                    assert(entries@.subrange(i as int, entries@.len() as int).drop_first()
                        =~= entries@.subrange(i + 1, entries@.len() as int));
                    assert(entries@.subrange(i as int, entries@.len() as int)[0] == entries@[i as int]);
                    if entries[i].0 == wanted {
                        return Some(&entries[i].1);
                    }
                    i = i + 1;
                }
                None
            },
            _ => None,
        }
    }

    /// The text, when `self` is a string.
    pub fn as_str(&self) -> (r: Option<&String>)
        ensures
            match r {
                Some(s) => text_of(Some(*self)) == Some(s@) && *self == Json::Str(*s),
                None => text_of(Some(*self)) is None && !(*self is Str),
            },
    {
        match self {
            Json::Str(s) => Some(s),
            _ => None,
        }
    }

    /// The elements, when `self` is an array.
    pub fn as_array(&self) -> (r: Option<&Vec<Json>>)
        ensures
            match r {
                Some(v) => items_of(Some(*self)) == Some(v@),
                None => items_of(Some(*self)) is None,
            },
    {
        match self {
            Json::Array(v) => Some(v),
            _ => None,
        }
    }

    /// The members, when `self` is an object.
    pub fn as_object(&self) -> (r: Option<&Vec<(String, Json)>>)
        ensures
            match r {
                Some(v) => members_of(Some(*self)) == Some(v@),
                None => members_of(Some(*self)) is None,
            },
    {
        match self {
            Json::Object(v) => Some(v),
            _ => None,
        }
    }

    /// The number, when `self` is a non-negative integer within `u64`.
    pub fn as_u64(&self) -> (r: Option<u64>)
        ensures
            r == (match *self {
                Json::UInt(n) => Some(n),
                _ => None::<u64>,
            }),
    {
        match self {
            Json::UInt(n) => Some(*n),
            _ => None,
        }
    }
}

/// The string member `key` of an optional value.
pub fn get_str<'a>(j: Option<&'a Json>, key: &str) -> (r: Option<&'a String>)
    ensures
        match (j, r) {
            (Some(v), Some(s)) => str_field(*v, key@) == Some(s@),
            (Some(v), None) => str_field(*v, key@) is None,
            (None, r) => r is None,
        },
{
    match j {
        Some(v) => match v.get(key) {
            Some(m) => m.as_str(),
            None => None,
        },
        None => None,
    }
}

} // verus!
