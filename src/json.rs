//! A plain model of JSON values, and the typed field reads that the wire
//! records are decoded with.
use vstd::prelude::*;

verus! {

/// A JSON value as the node's API sends and receives it.
///
/// Numbers with a fraction or an exponent are kept only as a tag: no record of
/// this library holds one.
#[derive(Debug)]
pub enum JsonValue {
    Null,
    Bool(bool),
    UInt(u64),
    NegInt(i64),
    OtherNumber,
    Str(String),
    Array(Vec<JsonValue>),
    Object(Vec<(String, JsonValue)>),
}

/// The entries of an object, with each key seen as its characters.
pub open spec fn entries_of(fields: Seq<(String, JsonValue)>) -> Seq<(Seq<char>, JsonValue)> {
    fields.map_values(|p: (String, JsonValue)| (p.0@, p.1))
}

/// The value under `key`: the first entry that has that key.
pub open spec fn field_of(entries: Seq<(Seq<char>, JsonValue)>, key: Seq<char>) -> Option<JsonValue>
    decreases entries.len(),
{
    if entries.len() == 0 {
        None
    } else if entries[0].0 == key {
        Some(entries[0].1)
    } else {
        field_of(entries.subrange(1, entries.len() as int), key)
    }
}

/// The entries of `v` if it is an object.
pub open spec fn object_entries(v: JsonValue) -> Option<Seq<(Seq<char>, JsonValue)>> {
    match v {
        JsonValue::Object(fields) => Some(entries_of(fields@)),
        _ => None,
    }
}

/// One entry `(key, Str(s))` if `o` holds `s`, none otherwise.
pub open spec fn opt_str_entry(key: Seq<char>, o: Option<String>) -> Seq<(Seq<char>, JsonValue)> {
    match o {
        Some(s) => seq![(key, JsonValue::Str(s))],
        None => Seq::empty(),
    }
}

/// One entry `(key, UInt(n))` if `o` holds `n`, none otherwise.
pub open spec fn opt_u64_entry(key: Seq<char>, o: Option<u64>) -> Seq<(Seq<char>, JsonValue)> {
    match o {
        Some(n) => seq![(key, JsonValue::UInt(n))],
        None => Seq::empty(),
    }
}

/// A required unsigned integer field.
pub open spec fn u64_field(e: Seq<(Seq<char>, JsonValue)>, key: Seq<char>) -> Option<u64> {
    match field_of(e, key) {
        Some(JsonValue::UInt(n)) => Some(n),
        _ => None,
    }
}

/// A required string field.
pub open spec fn str_field(e: Seq<(Seq<char>, JsonValue)>, key: Seq<char>) -> Option<String> {
    match field_of(e, key) {
        Some(JsonValue::Str(s)) => Some(s),
        _ => None,
    }
}

/// A required boolean field.
pub open spec fn bool_field(e: Seq<(Seq<char>, JsonValue)>, key: Seq<char>) -> Option<bool> {
    match field_of(e, key) {
        Some(JsonValue::Bool(b)) => Some(b),
        _ => None,
    }
}

/// An optional string field: absent or null reads as no value; any other
/// kind of value does not read.
pub open spec fn opt_str_field(e: Seq<(Seq<char>, JsonValue)>, key: Seq<char>) -> Option<Option<String>> {
    match field_of(e, key) {
        None => Some(None),
        Some(JsonValue::Null) => Some(None),
        Some(JsonValue::Str(s)) => Some(Some(s)),
        _ => None,
    }
}

/// An optional unsigned integer field, read as `opt_str_field` reads strings.
pub open spec fn opt_u64_field(e: Seq<(Seq<char>, JsonValue)>, key: Seq<char>) -> Option<Option<u64>> {
    match field_of(e, key) {
        None => Some(None),
        Some(JsonValue::Null) => Some(None),
        Some(JsonValue::UInt(n)) => Some(Some(n)),
        _ => None,
    }
}

/// A single entry holds its own key and no other.
pub broadcast proof fn lemma_field_of_single(k: Seq<char>, v: JsonValue, key: Seq<char>)
    ensures
        #[trigger] field_of(seq![(k, v)], key) == (if k == key { Some(v) } else { None::<JsonValue> }),
{
    let s = seq![(k, v)];
    assert(s.subrange(1, 1).len() == 0);
    reveal_with_fuel(field_of, 2);
}

/// No entries hold no key.
pub broadcast proof fn lemma_field_of_empty(key: Seq<char>)
    ensures
        #[trigger] field_of(Seq::<(Seq<char>, JsonValue)>::empty(), key) is None,
{
}

/// A field's value is found in `a + b` in `a` first.
pub broadcast proof fn lemma_field_of_append(a: Seq<(Seq<char>, JsonValue)>, b: Seq<(Seq<char>, JsonValue)>, key: Seq<char>)
    ensures
        #[trigger] field_of(a + b, key) == (if field_of(a, key) is Some { field_of(a, key) } else { field_of(b, key) }),
    decreases a.len(),
{
    if a.len() > 0 {
        assert((a + b).subrange(1, (a + b).len() as int) =~= a.subrange(1, a.len() as int) + b);
        lemma_field_of_append(a.subrange(1, a.len() as int), b, key);
        assert((a + b)[0] == a[0]);
    } else {
        assert(a + b =~= b);
    }
}

pub broadcast group group_field_of {
    lemma_field_of_single,
    lemma_field_of_empty,
    lemma_field_of_append,
}

/// The value under `key` in the entries of an object.
pub fn get_field<'a>(fields: &'a Vec<(String, JsonValue)>, key: &String) -> (r: Option<&'a JsonValue>)
    ensures
        r is Some == field_of(entries_of(fields@), key@) is Some,
        r is Some ==> field_of(entries_of(fields@), key@) == Some(*r->Some_0),
{
    let ghost e = entries_of(fields@);
    let mut i: usize = 0;
    assert(e.subrange(0, e.len() as int) =~= e);
    while i < fields.len()
        invariant
            i <= fields.len(),
            e == entries_of(fields@),
            field_of(e, key@) == field_of(e.subrange(i as int, e.len() as int), key@),
        decreases fields.len() - i,
    {
        let ghost rest = e.subrange(i as int, e.len() as int);
        assert(rest[0] == e[i as int]);
        if fields[i].0 == *key {
            return Some(&fields[i].1);
        }
        assert(rest.subrange(1, rest.len() as int) =~= e.subrange(i + 1, e.len() as int));
        i = i + 1;
    }
    None
}

/// Reads a required unsigned integer field.
pub fn read_u64(fields: &Vec<(String, JsonValue)>, key: &String) -> (r: Option<u64>)
    ensures
        r == u64_field(entries_of(fields@), key@),
{
    match get_field(fields, key) {
        Some(JsonValue::UInt(n)) => Some(*n),
        _ => None,
    }
}

/// Reads a required string field.
pub fn read_str(fields: &Vec<(String, JsonValue)>, key: &String) -> (r: Option<String>)
    ensures
        r == str_field(entries_of(fields@), key@),
{
    match get_field(fields, key) {
        Some(JsonValue::Str(s)) => Some(s.clone()),
        _ => None,
    }
}

/// Reads a required boolean field.
pub fn read_bool(fields: &Vec<(String, JsonValue)>, key: &String) -> (r: Option<bool>)
    ensures
        r == bool_field(entries_of(fields@), key@),
{
    match get_field(fields, key) {
        Some(JsonValue::Bool(b)) => Some(*b),
        _ => None,
    }
}

/// Reads an optional string field.
pub fn read_opt_str(fields: &Vec<(String, JsonValue)>, key: &String) -> (r: Option<Option<String>>)
    ensures
        r == opt_str_field(entries_of(fields@), key@),
{
    match get_field(fields, key) {
        None => Some(None),
        Some(JsonValue::Null) => Some(None),
        Some(JsonValue::Str(s)) => Some(Some(s.clone())),
        _ => None,
    }
}

/// Reads an optional unsigned integer field.
pub fn read_opt_u64(fields: &Vec<(String, JsonValue)>, key: &String) -> (r: Option<Option<u64>>)
    ensures
        r == opt_u64_field(entries_of(fields@), key@),
{
    match get_field(fields, key) {
        None => Some(None),
        Some(JsonValue::Null) => Some(None),
        Some(JsonValue::UInt(n)) => Some(Some(*n)),
        _ => None,
    }
}

/// Appends `(key, Str(s))` when `o` holds `s`.
pub fn push_opt_str(fields: &mut Vec<(String, JsonValue)>, k: &str, o: &Option<String>)
    ensures
        entries_of(final(fields)@) == entries_of(old(fields)@) + opt_str_entry(k@, *o),
{
    if let Some(s) = o {
        fields.push((key(k), JsonValue::Str(s.clone())));
        assert(entries_of(final(fields)@) =~= entries_of(old(fields)@) + opt_str_entry(k@, *o));
    } else {
        assert(entries_of(final(fields)@) =~= entries_of(old(fields)@) + opt_str_entry(k@, *o));
    }
}

/// Appends `(key, UInt(n))` when `o` holds `n`.
pub fn push_opt_u64(fields: &mut Vec<(String, JsonValue)>, k: &str, o: Option<u64>)
    ensures
        entries_of(final(fields)@) == entries_of(old(fields)@) + opt_u64_entry(k@, o),
{
    if let Some(n) = o {
        fields.push((key(k), JsonValue::UInt(n)));
        assert(entries_of(final(fields)@) =~= entries_of(old(fields)@) + opt_u64_entry(k@, o));
    } else {
        assert(entries_of(final(fields)@) =~= entries_of(old(fields)@) + opt_u64_entry(k@, o));
    }
}

/// Appends `(key, v)`.
pub fn push_entry(fields: &mut Vec<(String, JsonValue)>, k: &str, v: JsonValue)
    ensures
        entries_of(final(fields)@) == entries_of(old(fields)@) + seq![(k@, v)],
{
    fields.push((key(k), v));
    assert(entries_of(final(fields)@) =~= entries_of(old(fields)@) + seq![(k@, v)]);
}

/// A key of the wire format as an owned string.
pub fn key(s: &str) -> (r: String)
    ensures
        r@ == s@,
{
    s.to_string()
}

} // verus!
