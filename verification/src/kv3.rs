//! Values of the game's KeyValues3 documents, as the physics data of a map
//! stores them, with the typed reads the physics parser makes.
use vstd::prelude::*;

verus! {

/// A KeyValues3 value. Doubles are kept as the bits of their `f64`.
#[derive(Debug)]
pub enum Kv3Value {
    Null,
    Bool(bool),
    Int(i64),
    UInt(u64),
    Double(u64),
    String(String),
    Binary(Vec<u8>),
    Array(Vec<Kv3Value>),
    Object(Vec<(String, Kv3Value)>),
}

/// The value of the first member named `key` among `members[from..]`.
pub open spec fn spec_find_member(members: Seq<(String, Kv3Value)>, key: Seq<char>, from: int) -> Option<Kv3Value>
    decreases members.len() - from,
{
    if from < 0 || from >= members.len() {
        None
    } else if members[from].0@ == key {
        Some(members[from].1)
    } else {
        spec_find_member(members, key, from + 1)
    }
}

/// The member `key` of an object; `None` for a missing member or a value
/// that is not an object.
pub open spec fn spec_get(value: Kv3Value, key: Seq<char>) -> Option<Kv3Value> {
    match value {
        Kv3Value::Object(members) => spec_find_member(members@, key, 0),
        _ => None,
    }
}

/// An unsigned integer value, or a signed one that is not negative.
pub open spec fn spec_as_u64(value: Kv3Value) -> Option<u64> {
    match value {
        Kv3Value::UInt(u) => Some(u),
        Kv3Value::Int(i) => if i >= 0 { Some(i as u64) } else { None },
        _ => None,
    }
}

/// An integer value that fits 32 bits.
pub open spec fn spec_as_u32(value: Kv3Value) -> Option<u32> {
    match spec_as_u64(value) {
        Some(u) => if u <= u32::MAX { Some(u as u32) } else { None },
        None => None,
    }
}

/// The bits of a double value.
pub open spec fn spec_double_bits(value: Kv3Value) -> Option<u64> {
    match value {
        Kv3Value::Double(bits) => Some(bits),
        _ => None,
    }
}

/// Three doubles, given as an array of exactly three doubles.
pub open spec fn spec_as_vec3_f64(value: Kv3Value) -> Option<(u64, u64, u64)> {
    match value {
        Kv3Value::Array(items) => if items@.len() == 3 && spec_double_bits(items@[0]) is Some && spec_double_bits(
            items@[1],
        ) is Some && spec_double_bits(items@[2]) is Some {
            Some((
                spec_double_bits(items@[0])->0,
                spec_double_bits(items@[1])->0,
                spec_double_bits(items@[2])->0,
            ))
        } else {
            None
        },
        _ => None,
    }
}

impl Kv3Value {
    /// The member `key` of an object: the first member of that name.
    pub fn get(&self, key: &str) -> (member: Option<&Kv3Value>)
        ensures
            member is None <==> spec_get(*self, key@) is None,
            member matches Some(m) ==> spec_get(*self, key@) == Some(*m),
    {
        match self {
            Kv3Value::Object(members) => {
                assert(spec_get(*self, key@) == spec_find_member(members@, key@, 0));
                let wanted = key.to_owned();
                let mut i: usize = 0;
                while i < members.len()
                    invariant
                        i <= members@.len(),
                        wanted@ == key@,
                        spec_get(*self, key@) == spec_find_member(members@, key@, i as int),
                    decreases members@.len() - i,
                {
                    if members[i].0 == wanted {
                        assert(spec_find_member(members@, key@, i as int) == Some(members@[i as int].1));
                        return Some(&members[i].1);
                    }
                    i = i + 1;
                }
                None
            },
            _ => None,
        }
    }

    pub fn as_str(&self) -> (text: Option<&str>)
        ensures
            match *self {
                Kv3Value::String(s) => text matches Some(t) && t@ == s@,
                _ => text is None,
            },
    {
        match self {
            Kv3Value::String(s) => Some(s.as_str()),
            _ => None,
        }
    }

    pub fn as_u64(&self) -> (number: Option<u64>)
        ensures
            number == spec_as_u64(*self),
    {
        match self {
            Kv3Value::UInt(u) => Some(*u),
            Kv3Value::Int(i) => if *i >= 0 { Some(*i as u64) } else { None },
            _ => None,
        }
    }

    pub fn as_u32(&self) -> (number: Option<u32>)
        ensures
            number == spec_as_u32(*self),
    {
        match self.as_u64() {
            Some(u) => if u <= 0xFFFF_FFFF { Some(u as u32) } else { None },
            None => None,
        }
    }

    pub fn as_array(&self) -> (items: Option<&Vec<Kv3Value>>)
        ensures
            match *self {
                Kv3Value::Array(a) => items == Some(&a),
                _ => items is None,
            },
    {
        match self {
            Kv3Value::Array(a) => Some(a),
            _ => None,
        }
    }

    pub fn as_binary(&self) -> (bytes: Option<&Vec<u8>>)
        ensures
            match *self {
                Kv3Value::Binary(b) => bytes == Some(&b),
                _ => bytes is None,
            },
    {
        match self {
            Kv3Value::Binary(b) => Some(b),
            _ => None,
        }
    }

    pub fn as_vec3_f64(&self) -> (v: Option<(u64, u64, u64)>)
        ensures
            v == spec_as_vec3_f64(*self),
    {
        match self {
            Kv3Value::Array(items) => {
                if items.len() != 3 {
                    return None;
                }
                let x = match &items[0] {
                    Kv3Value::Double(bits) => *bits,
                    _ => return None,
                };
                let y = match &items[1] {
                    Kv3Value::Double(bits) => *bits,
                    _ => return None,
                };
                let z = match &items[2] {
                    Kv3Value::Double(bits) => *bits,
                    _ => return None,
                };
                Some((x, y, z))
            },
            _ => None,
        }
    }
}

} // verus!
