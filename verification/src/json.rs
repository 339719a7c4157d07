//! A plain-value model of the JSON documents that travel through the
//! render pipeline as `RuntimeData::Json` envelopes.
//!
//! The model mirrors `serde_json::Value` as built with its default
//! features: objects hold each key at most once, integers that are not
//! negative are `PosInt`, negative ones `NegInt`, and every other number is
//! a finite `Float`, held here by the bit pattern of its `f64`.

use vstd::prelude::*;

verus! {

/// A JSON number.
#[derive(Clone, Copy, Debug, PartialEq, Eq)]
pub enum JsonNumber {
    /// An integer `>= 0`.
    PosInt(u64),
    /// An integer `< 0`.
    NegInt(i64),
    /// A finite floating-point number, held by the bits of its `f64`.
    Float(u64),
}

/// A JSON value.
#[derive(Debug, PartialEq)]
pub enum JsonValue {
    Null,
    Bool(bool),
    Number(JsonNumber),
    Str(String),
    Array(Vec<JsonValue>),
    /// Key/value pairs; a key occurs at most once.
    Object(Vec<(String, JsonValue)>),
}

/// The value stored under `key` among `fields` (the first entry with that
/// key, which is the only one in a well-formed object).
pub open spec fn lookup(fields: Seq<(String, JsonValue)>, key: Seq<char>) -> Option<JsonValue>
    decreases fields.len(),
{
    if fields.len() == 0 {
        None
    } else if fields[0].0@ == key {
        Some(fields[0].1)
    } else {
        lookup(fields.drop_first(), key)
    }
}

/// No key occurs twice among `fields`.
pub open spec fn keys_distinct(fields: Seq<(String, JsonValue)>) -> bool {
    forall|i: int, j: int| 0 <= i < j < fields.len() ==> #[trigger] fields[i].0@ != #[trigger] fields[j].0@
}

impl JsonValue {
    /// The value is not an object, or an object whose keys are distinct
    /// (as in every object that `serde_json` holds).
    pub open spec fn has_distinct_keys(self) -> bool {
        self is Object ==> keys_distinct(self->Object_0@)
    }

    /// The member `key` of an object; `None` for a missing key and for
    /// every value that is not an object.
    pub open spec fn field(self, key: Seq<char>) -> Option<JsonValue> {
        match self {
            JsonValue::Object(fields) => lookup(fields@, key),
            _ => None,
        }
    }

    /// The member `key` of an object (`serde_json::Value::get` with a
    /// string index).
    pub fn get(&self, key: &str) -> (r: Option<&JsonValue>)
        ensures
            r is Some == self.field(key@) is Some,
            r is Some ==> *r->0 == self.field(key@)->0,
    {
        match self {
            JsonValue::Object(fields) => {
                let k = key.to_owned();
                let mut i: usize = 0;
                assert(fields@.skip(0) =~= fields@);
                while i < fields.len()
                    invariant
                        i <= fields.len(),
                        k@ == key@,
                        self.field(key@) == lookup(fields@, key@),
                        lookup(fields@, key@) == lookup(fields@.skip(i as int), key@),
                    decreases fields.len() - i,
                {
                    assert(fields@.skip(i as int).drop_first() =~= fields@.skip(i + 1));
                    assert(fields@.skip(i as int)[0] == fields@[i as int]);
                    if fields[i].0 == k {
                        return Some(&fields[i].1);
                    }
                    i = i + 1;
                }
                None
            },
            _ => None,
        }
    }

    /// The text of a string value.
    pub fn as_str(&self) -> (r: Option<&str>)
        ensures
            r is Some == self is Str,
            r is Some ==> r->0@ == self->Str_0@,
    {
        match self {
            JsonValue::Str(s) => Some(s.as_str()),
            _ => None,
        }
    }

    /// The value of a non-negative integer (`serde_json::Value::as_u64`).
    pub fn as_u64(&self) -> (r: Option<u64>)
        ensures
            r == spec_as_u64(*self),
    {
        match self {
            JsonValue::Number(JsonNumber::PosInt(n)) => Some(*n),
            _ => None,
        }
    }

    /// The items of an array.
    pub fn as_array(&self) -> (r: Option<&Vec<JsonValue>>)
        ensures
            r is Some == self is Array,
            r is Some ==> r->0@ == self->Array_0@,
    {
        match self {
            JsonValue::Array(items) => Some(items),
            _ => None,
        }
    }
}

/// `serde_json::Value::as_u64` on the model.
pub open spec fn spec_as_u64(v: JsonValue) -> Option<u64> {
    match v {
        JsonValue::Number(JsonNumber::PosInt(n)) => Some(n),
        _ => None,
    }
}

/// The text of the string member `key`, if there is one.
pub open spec fn str_field(v: JsonValue, key: Seq<char>) -> Option<Seq<char>> {
    match v.field(key) {
        Some(JsonValue::Str(s)) => Some(s@),
        _ => None,
    }
}

/// The non-negative integer member `key`, if there is one.
pub open spec fn u64_field(v: JsonValue, key: Seq<char>) -> Option<u64> {
    match v.field(key) {
        Some(x) => spec_as_u64(x),
        None => None,
    }
}

/// What a key finds is a member with that key.
pub proof fn lemma_lookup_finds_member(fields: Seq<(String, JsonValue)>, key: Seq<char>)
    requires
        lookup(fields, key) is Some,
    ensures
        exists|m: int|
            0 <= m < fields.len() && #[trigger] fields[m].0@ == key && fields[m].1 == lookup(
                fields,
                key,
            )->0,
    decreases fields.len(),
{
    if fields[0].0@ == key {
        assert(fields[0].0@ == key);
    } else {
        let rest = fields.drop_first();
        lemma_lookup_finds_member(rest, key);
        let m = choose|m: int|
            0 <= m < rest.len() && #[trigger] rest[m].0@ == key && rest[m].1 == lookup(rest, key)->0;
        assert(fields[m + 1] == rest[m]);
    }
}

/// In an object whose keys are distinct, each member is found by its key,
/// wherever it stands.
pub proof fn lemma_lookup_member(fields: Seq<(String, JsonValue)>, i: int)
    requires
        keys_distinct(fields),
        0 <= i < fields.len(),
    ensures
        lookup(fields, fields[i].0@) == Some(fields[i].1),
    decreases i,
{
    if i > 0 {
        let rest = fields.drop_first();
        assert(fields[0].0@ != fields[i].0@);
        assert(rest[i - 1] == fields[i]);
        assert forall|a: int, b: int| 0 <= a < b < rest.len() implies #[trigger] rest[a].0@
            != #[trigger] rest[b].0@ by {
            assert(rest[a] == fields[a + 1]);
            assert(rest[b] == fields[b + 1]);
        }
        lemma_lookup_member(rest, i - 1);
    }
}

/// A key that no member has finds nothing.
pub proof fn lemma_lookup_absent(fields: Seq<(String, JsonValue)>, key: Seq<char>)
    requires
        forall|m: int| 0 <= m < fields.len() ==> #[trigger] fields[m].0@ != key,
    ensures
        lookup(fields, key) is None,
    decreases fields.len(),
{
    if fields.len() > 0 {
        let rest = fields.drop_first();
        assert(fields[0].0@ != key);
        assert forall|m: int| 0 <= m < rest.len() implies #[trigger] rest[m].0@ != key by {
            assert(rest[m] == fields[m + 1]);
        }
        lemma_lookup_absent(rest, key);
    }
}

} // verus!
