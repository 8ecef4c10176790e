//! The manifest schema: a required `name` string and an optional `scripts`
//! mapping of command names to command strings; unknown fields are ignored.
use vstd::prelude::*;

use crate::json::{
    distinct_keys, entries_model, find_entry, json_from_str, json_parse, jv_of, kv_map,
    lemma_kv_map_dom, lemma_kv_map_index, value_as_str, value_entries, value_object, value_string,
    Jv,
};

verus! {

/// A parsed manifest: the project's name and, when declared, its commands in
/// the order the parse produced them.
#[derive(Clone, Debug, PartialEq, Eq)]
pub struct Manifest {
    pub name: String,
    pub scripts: Option<Vec<(String, String)>>,
}

/// The pairs that a script list stands for.
pub open spec fn pairs_model(s: Seq<(String, String)>) -> Seq<(Seq<char>, Seq<char>)> {
    s.map_values(|p: (String, String)| (p.0@, p.1@))
}

impl Manifest {
    /// The scripts mapping the manifest holds, key by key.
    pub open spec fn scripts_model(self) -> Option<Map<Seq<char>, Seq<char>>> {
        match self.scripts {
            Some(v) => Some(kv_map(pairs_model(v@))),
            None => None,
        }
    }

    /// Well-formed: no two scripts share a name.
    pub open spec fn wf(self) -> bool {
        self.scripts matches Some(v) ==> distinct_keys(pairs_model(v@))
    }
}

/// How a JSON value fares against the manifest schema: accepted with a name
/// and an optional scripts mapping, or rejected with a diagnostic message.
pub enum SchemaOutcome {
    Accept { name: Seq<char>, scripts: Option<Map<Seq<char>, Seq<char>>> },
    Reject { message: Seq<char> },
}

pub open spec fn msg_not_object() -> Seq<char> {
    "expected a JSON object at the top level"@
}

pub open spec fn msg_missing_name() -> Seq<char> {
    "missing required field `name`"@
}

pub open spec fn msg_name_not_string() -> Seq<char> {
    "field `name` must be a string"@
}

pub open spec fn msg_scripts_not_object() -> Seq<char> {
    "field `scripts` must be an object"@
}

pub open spec fn msg_script_not_string() -> Seq<char> {
    "every value in `scripts` must be a string"@
}

/// Every value of the object is a JSON string.
pub open spec fn all_strings(m: Map<Seq<char>, Jv>) -> bool {
    forall|k: Seq<char>| #[trigger] m.dom().contains(k) ==> m[k] is Str
}

/// The characters each string value of the object holds.
pub open spec fn string_values(m: Map<Seq<char>, Jv>) -> Map<Seq<char>, Seq<char>> {
    m.map_values(|j: Jv| j->Str_0)
}

/// The manifest schema itself: a JSON object whose `name` member is a string;
/// `scripts`, when present, must be an object with only string values; every
/// other member is ignored.
pub open spec fn manifest_schema(j: Jv) -> SchemaOutcome {
    match j {
        Jv::Obj(m) => if !m.dom().contains("name"@) {
            SchemaOutcome::Reject { message: msg_missing_name() }
        } else if !(m["name"@] is Str) {
            SchemaOutcome::Reject { message: msg_name_not_string() }
        } else if !m.dom().contains("scripts"@) {
            SchemaOutcome::Accept { name: m["name"@]->Str_0, scripts: None }
        } else {
            match m["scripts"@] {
                Jv::Obj(sm) => if all_strings(sm) {
                    SchemaOutcome::Accept {
                        name: m["name"@]->Str_0,
                        scripts: Some(string_values(sm)),
                    }
                } else {
                    SchemaOutcome::Reject { message: msg_script_not_string() }
                },
                _ => SchemaOutcome::Reject { message: msg_scripts_not_object() },
            }
        },
        _ => SchemaOutcome::Reject { message: msg_not_object() },
    }
}

/// The manifest carries exactly the accepted name and scripts mapping.
pub open spec fn manifest_matches(
    m: Manifest,
    name: Seq<char>,
    scripts: Option<Map<Seq<char>, Seq<char>>>,
) -> bool {
    &&& m.name@ == name
    &&& m.wf()
    &&& m.scripts_model() == scripts
}

/// Two pair lists, the first of string-shaped JSON values and the second of
/// the characters those values hold, stand for the same mapping.
proof fn lemma_kv_map_mapped(s: Seq<(Seq<char>, Jv)>, t: Seq<(Seq<char>, Seq<char>)>)
    requires
        distinct_keys(s),
        t.len() == s.len(),
        forall|i: int|
            0 <= i < s.len() ==> t[i].0 == (#[trigger] s[i]).0 && s[i].1 is Str
                && t[i].1 == s[i].1->Str_0,
    ensures
        distinct_keys(t),
        all_strings(kv_map(s)),
        kv_map(t) == string_values(kv_map(s)),
{
    assert forall|i: int, j: int| 0 <= i < j < t.len() implies (#[trigger] t[i]).0 != (
    #[trigger] t[j]).0 by {
        assert(t[i].0 == s[i].0 && t[j].0 == s[j].0);
        assert(s[i].0 != s[j].0);
    }
    assert forall|k: Seq<char>| #[trigger] kv_map(s).dom().contains(k) implies kv_map(s)[k]
        is Str by {
        lemma_kv_map_dom(s, k);
        let i = choose|i: int| 0 <= i < s.len() && (#[trigger] s[i]).0 == k;
        lemma_kv_map_index(s, i);
    }
    let lhs = kv_map(t);
    let rhs = string_values(kv_map(s));
    assert forall|k: Seq<char>| #[trigger] lhs.dom().contains(k) implies rhs.dom().contains(k)
        && lhs[k] == rhs[k] by {
        lemma_kv_map_dom(t, k);
        let i = choose|i: int| 0 <= i < t.len() && (#[trigger] t[i]).0 == k;
        lemma_kv_map_index(t, i);
        lemma_kv_map_index(s, i);
    }
    assert forall|k: Seq<char>| #[trigger] rhs.dom().contains(k) implies lhs.dom().contains(k) by {
        lemma_kv_map_dom(s, k);
        let i = choose|i: int| 0 <= i < s.len() && (#[trigger] s[i]).0 == k;
        lemma_kv_map_dom(t, k);
        assert(t[i].0 == k);
    }
    assert(lhs =~= rhs);
}

fn err_string(msg: &str) -> (r: String)
    ensures
        r@ == msg@,
{
    msg.to_owned()
}

/// Validate a parsed JSON value against the manifest schema.
pub fn manifest_from_value(v: &serde_json::Value) -> (r: Result<Manifest, String>)
    ensures
        match manifest_schema(jv_of(*v)) {
            SchemaOutcome::Accept { name, scripts } => r matches Ok(m) && manifest_matches(
                m,
                name,
                scripts,
            ),
            SchemaOutcome::Reject { message } => r matches Err(e) && e@ == message,
        },
{
    let entries = match value_entries(v) {
        Some(es) => es,
        None => {
            return Err(err_string("expected a JSON object at the top level"));
        },
    };
    let ghost m = kv_map(entries_model(entries@));
    let name_val = match find_entry(&entries, "name") {
        Some(val) => val,
        None => {
            return Err(err_string("missing required field `name`"));
        },
    };
    let name = match value_as_str(name_val) {
        Some(s) => s,
        None => {
            return Err(err_string("field `name` must be a string"));
        },
    };
    let scripts_val = match find_entry(&entries, "scripts") {
        Some(val) => val,
        None => {
            return Ok(Manifest { name, scripts: None });
        },
    };
    let sentries = match value_entries(scripts_val) {
        Some(es) => es,
        None => {
            return Err(err_string("field `scripts` must be an object"));
        },
    };
    let ghost smodel = entries_model(sentries@);
    let ghost sm = kv_map(smodel);
    let mut scripts: Vec<(String, String)> = Vec::new();
    let n = sentries.len();
    for i in 0..n
        invariant
            n == sentries@.len(),
            smodel == entries_model(sentries@),
            sm == kv_map(smodel),
            distinct_keys(smodel),
            jv_of(*v) == Jv::Obj(m),
            m.dom().contains("name"@),
            m["name"@] is Str,
            m["name"@]->Str_0 == name@,
            m.dom().contains("scripts"@),
            m["scripts"@] == jv_of(*scripts_val),
            jv_of(*scripts_val) == Jv::Obj(sm),
            scripts@.len() == i,
            forall|j: int|
                0 <= j < i ==> (#[trigger] smodel[j]).1 is Str && pairs_model(scripts@)[j] == (
                smodel[j].0,
                smodel[j].1->Str_0,
                ),
    {
        let sval = match value_as_str(&sentries[i].1) {
            Some(s) => s,
            None => {
                proof {
                    lemma_kv_map_index(smodel, i as int);
                    assert(smodel[i as int] == (
                        sentries@[i as int].0@,
                        jv_of(sentries@[i as int].1),
                    ));
                    assert(sm.dom().contains(smodel[i as int].0) && !(sm[smodel[i as int].0]
                        is Str));
                }
                return Err(err_string("every value in `scripts` must be a string"));
            },
        };
        let key = sentries[i].0.clone();
        scripts.push((key, sval));
        assert(pairs_model(scripts@)[i as int] == (smodel[i as int].0, smodel[i as int].1->Str_0));
    }
    proof {
        lemma_kv_map_mapped(smodel, pairs_model(scripts@));
    }
    Ok(Manifest { name, scripts: Some(scripts) })
}

/// The schema form of a manifest: a JSON object with its `name` and, when
/// declared, its `scripts`.
pub open spec fn manifest_jv(m: Manifest) -> Jv {
    match m.scripts {
        None => Jv::Obj(map!["name"@ => Jv::Str(m.name@)]),
        Some(v) => Jv::Obj(
            map![
                "name"@ => Jv::Str(m.name@),
                "scripts"@ => Jv::Obj(kv_map(pairs_model(v@)).map_values(|t: Seq<char>| Jv::Str(t))),
            ],
        ),
    }
}

/// The two pair lists of `lemma_kv_map_mapped`, read the other way around:
/// wrapping each string value as a JSON string keeps the mapping.
proof fn lemma_kv_map_wrapped(s: Seq<(Seq<char>, Jv)>, t: Seq<(Seq<char>, Seq<char>)>)
    requires
        distinct_keys(t),
        t.len() == s.len(),
        forall|i: int|
            0 <= i < s.len() ==> (#[trigger] s[i]).0 == t[i].0 && s[i].1 == Jv::Str(t[i].1),
    ensures
        distinct_keys(s),
        kv_map(s) == kv_map(t).map_values(|x: Seq<char>| Jv::Str(x)),
{
    assert forall|i: int, j: int| 0 <= i < j < s.len() implies (#[trigger] s[i]).0 != (
    #[trigger] s[j]).0 by {
        assert(s[i].0 == t[i].0 && s[j].0 == t[j].0);
        assert(t[i].0 != t[j].0);
    }
    lemma_kv_map_mapped(s, t);
    let lhs = kv_map(s);
    let rhs = kv_map(t).map_values(|x: Seq<char>| Jv::Str(x));
    assert forall|k: Seq<char>| #[trigger] lhs.dom().contains(k) implies rhs.dom().contains(k)
        && lhs[k] == rhs[k] by {
        lemma_kv_map_dom(s, k);
        let i = choose|i: int| 0 <= i < s.len() && (#[trigger] s[i]).0 == k;
        lemma_kv_map_index(s, i);
        assert(t[i].0 == k);
        lemma_kv_map_index(t, i);
    }
    assert forall|k: Seq<char>| #[trigger] rhs.dom().contains(k) implies lhs.dom().contains(k) by {
        lemma_kv_map_dom(t, k);
        let i = choose|i: int| 0 <= i < t.len() && (#[trigger] t[i]).0 == k;
        assert(s[i].0 == k);
        lemma_kv_map_dom(s, k);
    }
    assert(lhs =~= rhs);
}

/// The two member names of the schema form differ.
proof fn lemma_name_scripts_distinct()
    ensures
        "name"@ != "scripts"@,
{
    reveal_strlit("name");
    reveal_strlit("scripts");
    assert("name"@.len() == 4);
    assert("scripts"@.len() == 7);
}

/// Render a manifest to its schema form as a JSON value.
pub fn manifest_to_value(m: &Manifest) -> (v: serde_json::Value)
    requires
        m.wf(),
    ensures
        jv_of(v) == manifest_jv(*m),
{
    proof {
        lemma_name_scripts_distinct();
    }
    let name_value = value_string(m.name.as_str());
    let mut top: Vec<(String, serde_json::Value)> = Vec::new();
    top.push(("name".to_owned(), name_value));
    match &m.scripts {
        None => {},
        Some(sv) => {
            let ghost tpairs = pairs_model(sv@);
            let mut sentries: Vec<(String, serde_json::Value)> = Vec::new();
            let k = sv.len();
            for i in 0..k
                invariant
                    k == sv@.len(),
                    tpairs == pairs_model(sv@),
                    sentries@.len() == i,
                    forall|j: int|
                        0 <= j < i ==> (#[trigger] entries_model(sentries@)[j]).0 == tpairs[j].0
                            && entries_model(sentries@)[j].1 == Jv::Str(tpairs[j].1),
            {
                let key = sv[i].0.clone();
                let val = value_string(sv[i].1.as_str());
                let ghost prev = sentries@;
                sentries.push((key, val));
                proof {
                    assert forall|j: int| 0 <= j < i + 1 implies (#[trigger] entries_model(
                        sentries@,
                    )[j]).0 == tpairs[j].0 && entries_model(sentries@)[j].1 == Jv::Str(
                        tpairs[j].1,
                    ) by {
                        if j < i {
                            assert(sentries@[j] == prev[j]);
                            assert(entries_model(prev)[j].0 == tpairs[j].0 && entries_model(
                                prev,
                            )[j].1 == Jv::Str(tpairs[j].1));
                        } else {
                            assert(sentries@[j] == (key, val));
                        }
                    }
                }
            }
            proof {
                lemma_kv_map_wrapped(entries_model(sentries@), tpairs);
            }
            let scripts_value = value_object(sentries);
            top.push(("scripts".to_owned(), scripts_value));
        },
    }
    assert(distinct_keys(entries_model(top@))) by {
        assert(forall|j: int|
            0 <= j < entries_model(top@).len() ==> (#[trigger] entries_model(top@)[j]).0
                == top@[j].0@);
    }
    let out = value_object(top);
    proof {
        let tm = entries_model(top@);
        lemma_kv_map_index(tm, 0);
        if tm.len() == 2 {
            lemma_kv_map_index(tm, 1);
        }
        assert forall|q: Seq<char>| #[trigger] kv_map(tm).dom().contains(q) implies exists|i: int|
            0 <= i < tm.len() && tm[i].0 == q by {
            lemma_kv_map_dom(tm, q);
        }
        assert(kv_map(tm) =~= (manifest_jv(*m)->Obj_0));
    }
    out
}

/// Round trip: a well-formed manifest, rendered to its schema form and
/// validated back against the schema, is accepted with the same name and the
/// same scripts mapping.
pub proof fn lemma_manifest_round_trip(m: Manifest)
    requires
        m.wf(),
    ensures
        manifest_schema(manifest_jv(m)) == (SchemaOutcome::Accept {
            name: m.name@,
            scripts: m.scripts_model(),
        }),
{
    lemma_name_scripts_distinct();
    match m.scripts {
        None => {},
        Some(v) => {
            let tpairs = pairs_model(v@);
            let wrapped = tpairs.map_values(|p: (Seq<char>, Seq<char>)| (p.0, Jv::Str(p.1)));
            lemma_kv_map_wrapped(wrapped, tpairs);
            lemma_kv_map_mapped(wrapped, tpairs);
            let sm = kv_map(tpairs).map_values(|x: Seq<char>| Jv::Str(x));
            assert(kv_map(wrapped) == sm);
            assert(all_strings(sm));
            assert(string_values(sm) == kv_map(tpairs));
            assert(m.scripts_model() == Some(kv_map(tpairs)));
        },
    }
}

/// Parse a manifest text: decode it as JSON, then validate it against the
/// schema. The error, when one comes, is the JSON parser's own diagnostic or
/// the schema's.
pub fn parse_manifest(text: &str) -> (r: Result<Manifest, String>)
    ensures
        (json_parse(text@) matches Err(msg) ==> r matches Err(e) && e@ == msg),
        (json_parse(text@) matches Ok(j) ==> match manifest_schema(j) {
            SchemaOutcome::Accept { name, scripts } => r matches Ok(m) && manifest_matches(
                m,
                name,
                scripts,
            ),
            SchemaOutcome::Reject { message } => r matches Err(e) && e@ == message,
        }),
{
    match json_from_str(text) {
        Ok(v) => manifest_from_value(&v),
        Err(e) => Err(e),
    }
}

} // verus!
