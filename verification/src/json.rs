//! A typed model of the JSON bodies the protocol carries. The dispatcher
//! and the directory readers work on [`JsonValue`], a plain tree of strings,
//! integers, booleans, arrays and objects; `serde_json` does the parsing
//! behind a pair of trusted wrappers.

use vstd::prelude::*;
use vstd::string::StrSliceExecFns;

verus! {

/// A JSON value as this library reads it. An object parsed from bytes
/// arrives with its fields sorted by key and duplicate keys collapsed to
/// their last value, so its keys are unique; lookups never depend on field
/// order. A number that is not a signed 64-bit integer carries no
/// information the protocol uses and is modeled as `Null`.
#[derive(Debug)]
pub enum JsonValue {
    Null,
    Bool(bool),
    Int(i64),
    Str(String),
    Arr(Vec<JsonValue>),
    Obj(Vec<(String, JsonValue)>),
}

/// The first field of `fields` named `key`, if any.
pub open spec fn obj_lookup(fields: Seq<(String, JsonValue)>, key: Seq<char>) -> Option<JsonValue>
    decreases fields.len(),
{
    if fields.len() == 0 {
        None
    } else if fields[0].0@ == key {
        Some(fields[0].1)
    } else {
        obj_lookup(fields.drop_first(), key)
    }
}

/// Looking a key up ignores a prefix of fields that do not carry it.
proof fn lemma_obj_lookup_skip(fields: Seq<(String, JsonValue)>, key: Seq<char>, i: int)
    requires
        0 <= i <= fields.len(),
        forall|j: int| 0 <= j < i ==> #[trigger] fields[j].0@ != key,
    ensures
        obj_lookup(fields, key) == obj_lookup(fields.skip(i), key),
    decreases i,
{
    if i > 0 {
        assert(fields.skip(1) =~= fields.drop_first());
        lemma_obj_lookup_skip(fields.drop_first(), key, i - 1);
        assert(fields.drop_first().skip(i - 1) =~= fields.skip(i));
    } else {
        assert(fields.skip(0) =~= fields);
    }
}

impl JsonValue {
    /// The value under `key` when this is an object that carries it.
    pub open spec fn spec_get(self, key: Seq<char>) -> Option<JsonValue> {
        match self {
            JsonValue::Obj(fields) => obj_lookup(fields@, key),
            _ => None,
        }
    }

    /// The element at index `i` when this is an array long enough.
    pub open spec fn spec_at(self, i: int) -> Option<JsonValue> {
        match self {
            JsonValue::Arr(items) => if 0 <= i < items@.len() {
                Some(items@[i])
            } else {
                None
            },
            _ => None,
        }
    }

    /// The character sequence when this is a string.
    pub open spec fn spec_str(self) -> Option<Seq<char>> {
        match self {
            JsonValue::Str(s) => Some(s@),
            _ => None,
        }
    }

    /// The integer when this is a number.
    pub open spec fn spec_int(self) -> Option<i64> {
        match self {
            JsonValue::Int(i) => Some(i),
            _ => None,
        }
    }

    /// Looks `key` up in an object; `None` for a missing key or any other
    /// kind of value.
    pub fn get<'a>(&'a self, key: &str) -> (r: Option<&'a JsonValue>)
        ensures
            match r {
                Some(v) => self.spec_get(key@) == Some(*v),
                None => self.spec_get(key@) is None,
            },
    {
        match self {
            JsonValue::Obj(fields) => {
                let n = fields.len();
                let mut i: usize = 0;
                while i < n
                    invariant
                        0 <= i <= n,
                        n == fields@.len(),
                        *self == JsonValue::Obj(*fields),
                        forall|j: int| 0 <= j < i ==> #[trigger] fields@[j].0@ != key@,
                    decreases n - i,
                {
                    let pair = &fields[i];
                    if str_eq(pair.0.as_str(), key) {
                        proof {
                            lemma_obj_lookup_skip(fields@, key@, i as int);
                            let s = fields@.skip(i as int);
                            assert(s.len() > 0);
                            assert(s[0] == fields@[i as int]);
                            assert(s[0].0@ == key@);
                            assert(obj_lookup(s, key@) == Some(s[0].1));
                        }
                        return Some(&fields[i].1);
                    }
                    i = i + 1;
                }
                proof {
                    lemma_obj_lookup_skip(fields@, key@, n as int);
                    assert(fields@.skip(n as int) =~= Seq::<(String, JsonValue)>::empty());
                }
                None
            },
            _ => None,
        }
    }

    /// The `i`-th element of an array; `None` past the end or for any other
    /// kind of value.
    pub fn at<'a>(&'a self, i: usize) -> (r: Option<&'a JsonValue>)
        ensures
            match r {
                Some(v) => self.spec_at(i as int) == Some(*v),
                None => self.spec_at(i as int) is None,
            },
    {
        match self {
            JsonValue::Arr(items) => {
                if i < items.len() {
                    Some(&items[i])
                } else {
                    None
                }
            },
            _ => None,
        }
    }

    /// The string contents, when this is a string.
    pub fn as_str<'a>(&'a self) -> (r: Option<&'a String>)
        ensures
            match r {
                Some(s) => self.spec_str() == Some(s@),
                None => self.spec_str() is None,
            },
    {
        match self {
            JsonValue::Str(s) => Some(s),
            _ => None,
        }
    }

    /// The integer value, when this is a number.
    pub fn as_int(&self) -> (r: Option<i64>)
        ensures
            r == self.spec_int(),
    {
        match self {
            JsonValue::Int(i) => Some(*i),
            _ => None,
        }
    }
}

/// Compares two strings character by character.
pub fn str_eq(a: &str, b: &str) -> (r: bool)
    ensures
        r == (a@ == b@),
{
    let a_len = a.unicode_len();
    let b_len = b.unicode_len();
    if a_len != b_len {
        return false;
    }
    let mut i: usize = 0;
    while i < a_len
        invariant
            0 <= i <= a_len,
            a_len == a@.len(),
            b_len == b@.len(),
            a_len == b_len,
            forall|j: int| 0 <= j < i ==> a@[j] == b@[j],
        decreases a_len - i,
    {
        if a.get_char(i) != b.get_char(i) {
            return false;
        }
        i = i + 1;
    }
    assert(a@ =~= b@);
    true
}

#[verifier::external_type_specification]
#[verifier::external_body]
pub struct ExValue(serde_json::Value);

/// The [`JsonValue`] tree that a `serde_json::Value` stands for: the same
/// structure, with every number narrowed to `i64` or, failing that, `Null`.
pub uninterp spec fn value_model(v: serde_json::Value) -> JsonValue;

/// The model of the JSON document encoded by `data`, or `None` when `data`
/// is not valid JSON. Parsing depends on the input bytes alone.
pub uninterp spec fn json_parse(data: Seq<u8>) -> Option<JsonValue>;

/// Relies on `serde_json::from_slice`: it parses a byte buffer into a
/// `serde_json::Value`, fails exactly on input that is not valid JSON, and
/// depends on nothing but the input bytes.
#[verifier::external_body]
fn from_slice_raw(data: &[u8]) -> (r: Option<serde_json::Value>)
    ensures
        r matches Some(v) ==> json_parse(data@) == Some(value_model(v)),
        r is None ==> json_parse(data@) is None,
{
    serde_json::from_slice::<serde_json::Value>(data).ok()
}

/// Relies on the shape of `serde_json::Value` and on `Number::as_i64`: each
/// variant is moved across into the library's own tree, one arm per
/// variant, with non-`i64` numbers becoming `Null`.
#[verifier::external_body]
fn convert_value(v: serde_json::Value) -> (r: JsonValue)
    ensures
        r == value_model(v),
{
    match v {
        serde_json::Value::Null => JsonValue::Null,
        serde_json::Value::Bool(b) => JsonValue::Bool(b),
        serde_json::Value::Number(n) => match n.as_i64() {
            Some(i) => JsonValue::Int(i),
            None => JsonValue::Null,
        },
        serde_json::Value::String(s) => JsonValue::Str(s),
        serde_json::Value::Array(a) => JsonValue::Arr(a.into_iter().map(convert_value).collect()),
        serde_json::Value::Object(m) => JsonValue::Obj(
            m.into_iter().map(|(k, w)| (k, convert_value(w))).collect(),
        ),
    }
}

/// Parses a JSON document into the library's own tree; `None` exactly when
/// the bytes are not valid JSON.
pub fn parse_json(data: &[u8]) -> (r: Option<JsonValue>)
    ensures
        r == json_parse(data@),
{
    match from_slice_raw(data) {
        Some(v) => Some(convert_value(v)),
        None => None,
    }
}

} // verus!
