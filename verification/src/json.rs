//! The library's own model of JSON values.
//!
//! Response bodies arrive as JSON text. Parsing is delegated to serde_json
//! behind a trusted boundary; the parsed document is converted into
//! [`JsonVal`], a plain recursive type that the verified decoders work on.
//! Numbers that are non-negative integers are kept as `u64`; any other
//! number is kept as its canonical text, so that no value is lost.

use vstd::prelude::*;
use crate::encode::spec_dec_str;

verus! {

/// A JSON value, as the library models it.
pub enum JsonVal {
    /// `null`
    Null,
    /// `true` or `false`
    Bool(bool),
    /// A number that is a non-negative integer.
    UInt(u64),
    /// Any other number, kept as its canonical text.
    NumText(String),
    /// A string.
    Str(String),
    /// An array.
    Arr(Vec<JsonVal>),
    /// An object: its fields in order, each a key with a value.
    Obj(Vec<(String, JsonVal)>),
}

/// The mathematical model of a JSON value.
pub enum Jv {
    /// `null`
    Null,
    /// `true` or `false`
    Bool(bool),
    /// A number that is a non-negative integer.
    UInt(u64),
    /// Any other number, kept as its canonical text.
    NumText(Seq<char>),
    /// A string.
    Str(Seq<char>),
    /// An array.
    Arr(Seq<Jv>),
    /// An object: its fields in order, each a key with a value.
    Obj(Seq<(Seq<char>, Jv)>),
}

/// The model of a JSON value.
pub open spec fn jv_of(v: JsonVal) -> Jv
    decreases v,
{
    match v {
        JsonVal::Null => Jv::Null,
        JsonVal::Bool(b) => Jv::Bool(b),
        JsonVal::UInt(u) => Jv::UInt(u),
        JsonVal::NumText(s) => Jv::NumText(s@),
        JsonVal::Str(s) => Jv::Str(s@),
        JsonVal::Arr(a) => Jv::Arr(jv_of_seq(a@)),
        JsonVal::Obj(o) => Jv::Obj(jv_of_fields(o@)),
    }
}

/// The models of an array's items.
pub open spec fn jv_of_seq(s: Seq<JsonVal>) -> Seq<Jv>
    decreases s,
{
    if s.len() == 0 {
        Seq::empty()
    } else {
        seq![jv_of(s[0])] + jv_of_seq(s.subrange(1, s.len() as int))
    }
}

/// The models of an object's fields.
pub open spec fn jv_of_fields(fs: Seq<(String, JsonVal)>) -> Seq<(Seq<char>, Jv)>
    decreases fs,
{
    if fs.len() == 0 {
        Seq::empty()
    } else {
        seq![(fs[0].0@, jv_of(fs[0].1))] + jv_of_fields(fs.subrange(1, fs.len() as int))
    }
}

impl View for JsonVal {
    type V = Jv;

    open spec fn view(&self) -> Jv {
        jv_of(*self)
    }
}

/// The models of an array's items, one by one.
pub proof fn lemma_jv_of_seq(s: Seq<JsonVal>)
    ensures
        jv_of_seq(s).len() == s.len(),
        forall|i: int| 0 <= i < s.len() ==> jv_of_seq(s)[i] == jv_of(s[i]),
    decreases s.len(),
{
    if s.len() > 0 {
        lemma_jv_of_seq(s.subrange(1, s.len() as int));
    }
}

/// The models of an object's fields, one by one.
pub proof fn lemma_jv_of_fields(fs: Seq<(String, JsonVal)>)
    ensures
        jv_of_fields(fs).len() == fs.len(),
        forall|i: int| 0 <= i < fs.len() ==> jv_of_fields(fs)[i] == (fs[i].0@, jv_of(fs[i].1)),
    decreases fs.len(),
{
    if fs.len() > 0 {
        lemma_jv_of_fields(fs.subrange(1, fs.len() as int));
    }
}

/// The value of the first field with the given key, if any.
pub open spec fn obj_get(fields: Seq<(Seq<char>, Jv)>, key: Seq<char>) -> Option<Jv>
    decreases fields.len(),
{
    if fields.len() == 0 {
        None
    } else if fields[0].0 == key {
        Some(fields[0].1)
    } else {
        obj_get(fields.drop_first(), key)
    }
}

/// A field appended under one key leaves every lookup under another key
/// unchanged.
pub proof fn lemma_obj_get_push_other(
    fields: Seq<(Seq<char>, Jv)>,
    k: Seq<char>,
    v: Jv,
    key: Seq<char>,
)
    requires
        k != key,
    ensures
        obj_get(fields.push((k, v)), key) == obj_get(fields, key),
    decreases fields.len(),
{
    if fields.len() == 0 {
        assert(fields.push((k, v))[0] == (k, v));
        assert(fields.push((k, v)).drop_first() =~= Seq::empty());
    } else {
        assert(fields.push((k, v))[0] == fields[0]);
        assert(fields.push((k, v)).drop_first() =~= fields.drop_first().push((k, v)));
        lemma_obj_get_push_other(fields.drop_first(), k, v, key);
    }
}

/// The given field's text, if it is present and a string.
pub open spec fn spec_get_str(fields: Seq<(Seq<char>, Jv)>, key: Seq<char>) -> Option<Seq<char>> {
    match obj_get(fields, key) {
        Some(Jv::Str(s)) => Some(s),
        _ => None,
    }
}

/// The given optional field: absent or `null` count as absent, a string
/// counts as present, and anything else does not fit.
pub open spec fn spec_get_opt_str(fields: Seq<(Seq<char>, Jv)>, key: Seq<char>) -> Option<
    Option<Seq<char>>,
> {
    match obj_get(fields, key) {
        None => Some(None),
        Some(Jv::Null) => Some(None),
        Some(Jv::Str(s)) => Some(Some(s)),
        Some(_) => None,
    }
}

/// The texts of an array's items, if every item is a string.
pub open spec fn spec_strings(items: Seq<Jv>) -> Option<Seq<Seq<char>>> {
    if forall|i: int| 0 <= i < items.len() ==> items[i] is Str {
        Some(Seq::new(items.len(), |i: int| items[i]->Str_0))
    } else {
        None
    }
}

/// The given field's items as texts, if it is an array of strings.
pub open spec fn spec_get_strings(fields: Seq<(Seq<char>, Jv)>, key: Seq<char>) -> Option<
    Seq<Seq<char>>,
> {
    match obj_get(fields, key) {
        Some(Jv::Arr(items)) => spec_strings(items),
        _ => None,
    }
}

/// The given field's value, if it is a non-negative integer number.
pub open spec fn spec_get_uint(fields: Seq<(Seq<char>, Jv)>, key: Seq<char>) -> Option<u64> {
    match obj_get(fields, key) {
        Some(Jv::UInt(u)) => Some(u),
        _ => None,
    }
}

/// The given field's value as number text, if it is a number.
pub open spec fn spec_get_number_text(fields: Seq<(Seq<char>, Jv)>, key: Seq<char>) -> Option<
    Seq<char>,
> {
    match obj_get(fields, key) {
        Some(Jv::UInt(u)) => Some(spec_dec_str(u as nat)),
        Some(Jv::NumText(t)) => Some(t),
        _ => None,
    }
}

/// `serde_json::Value`, the parsed form of a JSON document.
#[verifier::external_type_specification]
#[verifier::external_body]
pub struct ExValue(serde_json::Value);

/// The JSON value that a text denotes, if it is a well-formed JSON document.
pub uninterp spec fn spec_json_of(s: Seq<char>) -> Option<Jv>;

/// Turns a parsed `serde_json::Value` into the library's own JSON type.
///
/// Relies on `serde_json::Value` having exactly the six documented variants,
/// on `Number::as_u64` returning the value of every number that is a
/// non-negative integer, and on `Number`'s display form for the rest.
#[verifier::external_body]
fn value_to_json(v: serde_json::Value) -> JsonVal {
    match v {
        serde_json::Value::Null => JsonVal::Null,
        serde_json::Value::Bool(b) => JsonVal::Bool(b),
        serde_json::Value::Number(n) => match n.as_u64() {
            Some(u) => JsonVal::UInt(u),
            None => JsonVal::NumText(n.to_string()),
        },
        serde_json::Value::String(s) => JsonVal::Str(s),
        serde_json::Value::Array(a) => JsonVal::Arr(a.into_iter().map(value_to_json).collect()),
        serde_json::Value::Object(o) => JsonVal::Obj(
            o.into_iter().map(|(k, x)| (k, value_to_json(x))).collect(),
        ),
    }
}

/// Parses a JSON document into the library's own JSON type.
///
/// Relies on `serde_json::from_str::<serde_json::Value>`: whether a text is
/// a well-formed JSON document, and the value it denotes, depend on the
/// text alone.
#[verifier::external_body]
pub(crate) fn parse_json(s: &str) -> (r: Option<JsonVal>)
    ensures
        match (r, spec_json_of(s@)) {
            (Some(v), Some(m)) => v@ == m,
            (None, None) => true,
            _ => false,
        },
{
    match serde_json::from_str::<serde_json::Value>(s) {
        Ok(v) => Some(value_to_json(v)),
        Err(_) => None,
    }
}

/// Looks up the first field with the given key.
pub(crate) fn get_field<'a>(fields: &'a Vec<(String, JsonVal)>, key: &str) -> (r: Option<
    &'a JsonVal,
>)
    ensures
        match r {
            Some(v) => obj_get(jv_of_fields(fields@), key@) == Some(v@),
            None => obj_get(jv_of_fields(fields@), key@) is None,
        },
{
    proof {
        lemma_jv_of_fields(fields@);
    }
    let ghost fs = jv_of_fields(fields@);
    let key_owned = key.to_owned();
    let n = fields.len();
    proof {
        assert(fs.skip(0) =~= fs);
    }
    let mut i: usize = 0;
    while i < n
        invariant
            n == fields@.len(),
            i <= n,
            key_owned@ == key@,
            fs == jv_of_fields(fields@),
            fs.len() == n,
            forall|j: int| 0 <= j < n ==> fs[j] == (fields@[j].0@, jv_of(fields@[j].1)),
            obj_get(fs, key@) == obj_get(fs.skip(i as int), key@),
        decreases n - i,
    {
        proof {
            assert(fs.skip(i as int).len() == n - i);
            assert(fs.skip(i as int)[0] == fs[i as int]);
        }
        let hit = fields[i].0.eq(&key_owned);
        if hit {
            assert(obj_get(fs.skip(i as int), key@) == Some(fs[i as int].1));
            return Some(&fields[i].1);
        }
        proof {
            assert(fs.skip(i as int).drop_first() =~= fs.skip(i + 1));
            assert(obj_get(fs.skip(i as int), key@) == obj_get(fs.skip(i + 1), key@));
        }
        i = i + 1;
    }
    proof {
        assert(fs.skip(n as int) =~= Seq::empty());
    }
    None
}

/// Extracts the given field's text, if it is present and a string.
pub(crate) fn get_str(fields: &Vec<(String, JsonVal)>, key: &str) -> (r: Option<String>)
    ensures
        match r {
            Some(s) => spec_get_str(jv_of_fields(fields@), key@) == Some(s@),
            None => spec_get_str(jv_of_fields(fields@), key@) is None,
        },
{
    match get_field(fields, key) {
        Some(JsonVal::Str(s)) => Some(s.clone()),
        _ => None,
    }
}

/// Extracts the given optional field: absent or `null` count as absent,
/// a string counts as present, and anything else does not fit.
pub(crate) fn get_opt_str(fields: &Vec<(String, JsonVal)>, key: &str) -> (r: Option<
    Option<String>,
>)
    ensures
        match r {
            Some(Some(s)) => spec_get_opt_str(jv_of_fields(fields@), key@) == Some(Some(s@)),
            Some(None) => spec_get_opt_str(jv_of_fields(fields@), key@) == Some(
                None::<Seq<char>>,
            ),
            None => spec_get_opt_str(jv_of_fields(fields@), key@) is None,
        },
{
    match get_field(fields, key) {
        None => Some(None),
        Some(JsonVal::Null) => Some(None),
        Some(JsonVal::Str(s)) => Some(Some(s.clone())),
        Some(_) => None,
    }
}

/// Copies an array's items, if every item is a string.
fn strings_of(items: &Vec<JsonVal>) -> (r: Option<Vec<String>>)
    ensures
        match r {
            Some(v) => spec_strings(jv_of_seq(items@)) == Some(v.deep_view()),
            None => spec_strings(jv_of_seq(items@)) is None,
        },
{
    proof {
        lemma_jv_of_seq(items@);
    }
    let ghost m = jv_of_seq(items@);
    let mut out: Vec<String> = Vec::new();
    let n = items.len();
    let mut i: usize = 0;
    while i < n
        invariant
            n == items@.len(),
            i <= n,
            m == jv_of_seq(items@),
            m.len() == n,
            forall|j: int| 0 <= j < n ==> m[j] == jv_of(items@[j]),
            out@.len() == i,
            forall|j: int| 0 <= j < i ==> m[j] is Str && out@[j]@ == m[j]->Str_0,
        decreases n - i,
    {
        match &items[i] {
            JsonVal::Str(s) => {
                out.push(s.clone());
            },
            _ => {
                assert(!(m[i as int] is Str));
                return None;
            },
        }
        i = i + 1;
    }
    assert(spec_strings(m) == Some(out.deep_view())) by {
        assert(forall|j: int| 0 <= j < m.len() ==> m[j] is Str);
        assert(out.deep_view() =~= Seq::new(m.len(), |j: int| m[j]->Str_0));
    }
    Some(out)
}

/// Extracts the given field's items, if it is an array of strings.
pub(crate) fn get_strings(fields: &Vec<(String, JsonVal)>, key: &str) -> (r: Option<Vec<String>>)
    ensures
        match r {
            Some(v) => spec_get_strings(jv_of_fields(fields@), key@) == Some(v.deep_view()),
            None => spec_get_strings(jv_of_fields(fields@), key@) is None,
        },
{
    match get_field(fields, key) {
        Some(JsonVal::Arr(items)) => strings_of(items),
        _ => None,
    }
}

/// Extracts the given field's value, if it is a non-negative integer number.
pub(crate) fn get_uint(fields: &Vec<(String, JsonVal)>, key: &str) -> (r: Option<u64>)
    ensures
        match r {
            Some(u) => spec_get_uint(jv_of_fields(fields@), key@) == Some(u),
            None => spec_get_uint(jv_of_fields(fields@), key@) is None,
        },
{
    match get_field(fields, key) {
        Some(JsonVal::UInt(u)) => Some(*u),
        _ => None,
    }
}

/// Extracts the given field's value as number text, if it is a number.
pub(crate) fn get_number_text(fields: &Vec<(String, JsonVal)>, key: &str) -> (r: Option<String>)
    ensures
        match r {
            Some(t) => spec_get_number_text(jv_of_fields(fields@), key@) == Some(t@),
            None => spec_get_number_text(jv_of_fields(fields@), key@) is None,
        },
{
    match get_field(fields, key) {
        Some(JsonVal::UInt(u)) => Some(crate::encode::u64_to_string(*u)),
        Some(JsonVal::NumText(t)) => Some(t.clone()),
        _ => None,
    }
}

} // verus!
