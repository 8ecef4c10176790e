//! A model of JSON values as far as the manifest schema reads them, and the
//! trusted boundary around `serde_json`, which does the actual parsing.
use vstd::prelude::*;

verus! {

/// The shape of a parsed JSON value, as far as this library reads it: strings
/// and objects are resolved; every other kind of value (null, booleans,
/// numbers, arrays) is `Other`, since the manifest schema never looks inside
/// one.
pub enum Jv {
    Str(Seq<char>),
    Obj(Map<Seq<char>, Jv>),
    Other,
}

/// The map that a sequence of key-value pairs holds; a later pair with the
/// same key overrides an earlier one.
pub open spec fn kv_map<V>(s: Seq<(Seq<char>, V)>) -> Map<Seq<char>, V>
    decreases s.len(),
{
    if s.len() == 0 {
        Map::empty()
    } else {
        kv_map(s.drop_last()).insert(s.last().0, s.last().1)
    }
}

/// No two pairs share a key.
pub open spec fn distinct_keys<V>(s: Seq<(Seq<char>, V)>) -> bool {
    forall|i: int, j: int| 0 <= i < j < s.len() ==> (#[trigger] s[i]).0 != (#[trigger] s[j]).0
}

/// A key is in the map exactly when some pair carries it.
pub proof fn lemma_kv_map_dom<V>(s: Seq<(Seq<char>, V)>, k: Seq<char>)
    ensures
        kv_map(s).dom().contains(k) <==> exists|i: int| 0 <= i < s.len() && (#[trigger] s[i]).0 == k,
    decreases s.len(),
{
    if s.len() == 0 {
    } else {
        lemma_kv_map_dom(s.drop_last(), k);
        if s.last().0 == k {
            assert(s[s.len() - 1].0 == k);
        } else if exists|i: int| 0 <= i < s.len() && (#[trigger] s[i]).0 == k {
            let i = choose|i: int| 0 <= i < s.len() && (#[trigger] s[i]).0 == k;
            assert(s.drop_last()[i] == s[i]);
        } else if kv_map(s).dom().contains(k) {
            let i = choose|i: int| 0 <= i < s.drop_last().len() && (#[trigger] s.drop_last()[i]).0 == k;
            assert(s[i] == s.drop_last()[i]);
        }
    }
}

/// With distinct keys, each pair's key maps to that pair's value.
pub proof fn lemma_kv_map_index<V>(s: Seq<(Seq<char>, V)>, i: int)
    requires
        distinct_keys(s),
        0 <= i < s.len(),
    ensures
        kv_map(s).dom().contains(s[i].0),
        kv_map(s)[s[i].0] == s[i].1,
    decreases s.len(),
{
    if i == s.len() - 1 {
    } else {
        assert(distinct_keys(s.drop_last())) by {
            assert(forall|x: int, y: int|
                0 <= x < y < s.drop_last().len() ==> s.drop_last()[x] == s[x] && s.drop_last()[y]
                    == s[y]);
        }
        assert(s.drop_last()[i] == s[i]);
        lemma_kv_map_index(s.drop_last(), i);
        assert(s[i].0 != s.last().0);
    }
}

/// The pairs that a borrowed slice of object entries stands for.
pub open spec fn entries_model(es: Seq<(String, serde_json::Value)>) -> Seq<(Seq<char>, Jv)> {
    es.map_values(|p: (String, serde_json::Value)| (p.0@, jv_of(p.1)))
}

#[verifier::external_type_specification]
#[verifier::external_body]
pub struct ExValue(serde_json::Value);

/// What a `serde_json::Value` holds, as far as this library reads it.
pub uninterp spec fn jv_of(v: serde_json::Value) -> Jv;

/// What parsing a text as JSON yields: the parsed value's shape on success,
/// the parser's diagnostic message on failure. `serde_json::from_str`
/// computes its result from the text alone.
pub uninterp spec fn json_parse(s: Seq<char>) -> Result<Jv, Seq<char>>;

/// Relies on `serde_json::from_str::<Value>`: it parses the text as JSON and
/// returns the parsed value, or an error whose message describes the fault.
/// The error is rendered with its `Display` implementation, which is likewise
/// computed from the error value alone.
#[verifier::external_body]
pub fn json_from_str(s: &str) -> (r: Result<serde_json::Value, String>)
    ensures
        r is Ok <==> json_parse(s@) is Ok,
        (r matches Ok(v) ==> json_parse(s@) == Ok::<Jv, Seq<char>>(jv_of(v))),
        (r matches Err(e) ==> json_parse(s@) == Err::<Jv, Seq<char>>(e@)),
{
    match serde_json::from_str::<serde_json::Value>(s) {
        Ok(v) => Ok(v),
        Err(e) => Err(e.to_string()),
    }
}

/// Relies on `serde_json::Value::as_str`: it returns the inner string slice
/// exactly when the value is a JSON string. The slice is copied into an owned
/// `String`.
#[verifier::external_body]
pub fn value_as_str(v: &serde_json::Value) -> (r: Option<String>)
    ensures
        r is Some <==> jv_of(*v) is Str,
        (r matches Some(s) ==> jv_of(*v) == Jv::Str(s@)),
{
    v.as_str().map(|s| s.to_owned())
}

/// Relies on `serde_json::Value::as_object`: it returns the inner map exactly
/// when the value is a JSON object, and a `serde_json::Map` holds one value
/// per key. Each entry is copied out with `String::clone` and `Value::clone`,
/// which preserve their contents.
#[verifier::external_body]
pub fn value_entries(v: &serde_json::Value) -> (r: Option<Vec<(String, serde_json::Value)>>)
    ensures
        r is Some <==> jv_of(*v) is Obj,
        (r matches Some(es) ==> jv_of(*v) == Jv::Obj(kv_map(entries_model(es@)))
            && distinct_keys(entries_model(es@))),
{
    v.as_object().map(|m| m.iter().map(|(k, w)| (k.clone(), w.clone())).collect())
}

/// Relies on the `serde_json::Value::String` constructor: the value holds
/// exactly the given characters.
#[verifier::external_body]
pub fn value_string(s: &str) -> (v: serde_json::Value)
    ensures
        jv_of(v) == Jv::Str(s@),
{
    serde_json::Value::String(s.to_owned())
}

/// Relies on the `serde_json::Value::Object` constructor and on
/// `serde_json::Map`'s `FromIterator`: with pairwise distinct keys, the value
/// is a JSON object holding exactly the given entries.
#[verifier::external_body]
pub fn value_object(entries: Vec<(String, serde_json::Value)>) -> (v: serde_json::Value)
    requires
        distinct_keys(entries_model(entries@)),
    ensures
        jv_of(v) == Jv::Obj(kv_map(entries_model(entries@))),
{
    serde_json::Value::Object(entries.into_iter().collect())
}

/// Look a key up among an object's entries.
pub fn find_entry<'a>(entries: &'a Vec<(String, serde_json::Value)>, key: &str) -> (r: Option<
    &'a serde_json::Value,
>)
    requires
        distinct_keys(entries_model(entries@)),
    ensures
        (r matches Some(val) ==> kv_map(entries_model(entries@)).dom().contains(key@) && kv_map(
            entries_model(entries@),
        )[key@] == jv_of(*val)),
        r is None ==> !kv_map(entries_model(entries@)).dom().contains(key@),
{
    let wanted: String = key.to_owned();
    let n = entries.len();
    for i in 0..n
        invariant
            n == entries@.len(),
            wanted@ == key@,
            distinct_keys(entries_model(entries@)),
            forall|j: int| 0 <= j < i ==> (#[trigger] entries@[j]).0@ != key@,
    {
        if entries[i].0 == wanted {
            proof {
                lemma_kv_map_index(entries_model(entries@), i as int);
            }
            return Some(&entries[i].1);
        }
    }
    proof {
        lemma_kv_map_dom(entries_model(entries@), key@);
    }
    None
}

} // verus!
