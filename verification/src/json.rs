//! The hosting tool's pull-request response. Parsing is serde_json's
//! work, behind trusted declarations; what verified code reads of the
//! parsed value goes through trusted accessors whose contracts speak
//! over the `JsonData` model. The shape of the response itself — an
//! object whose "commits" entry lists records each carrying a text
//! "oid" — is this library's own logic, checked by a verified walk.

use vstd::prelude::*;
use vstd::slice::slice_to_vec;

verus! {

/// serde_json's value type, declared so a parsed document can flow
/// through verified code; its contents are reached only through the
/// trusted accessors below.
#[verifier::external_type_specification]
#[verifier::external_body]
pub struct ExValue(serde_json::Value);

/// serde_json's error type, returned where a response does not parse.
#[verifier::external_type_specification]
#[verifier::external_body]
pub struct ExError(serde_json::Error);

/// What a JSON value holds, as far as this library reads one. An object
/// is keyed by its entry names; a text carries the string's UTF-8 bytes.
/// Numeric contents are never read here, so a number's value is not
/// modelled.
pub enum JsonData {
    Null,
    Bool(bool),
    Number,
    Text(Seq<u8>),
    List(Seq<JsonData>),
    Object(Map<Seq<char>, JsonData>),
}

/// The contents of a serde_json value.
pub uninterp spec fn data_of(v: serde_json::Value) -> JsonData;

/// The document a byte string parses to as JSON, or `None` where
/// serde_json rejects it as malformed.
pub uninterp spec fn parsed_json(s: Seq<u8>) -> Option<JsonData>;

/// Relies on serde_json::from_slice at the Value type: it returns Ok
/// exactly on bytes it accepts as one JSON document (malformed input,
/// and input nested beyond serde_json's recursion limit, is rejected),
/// and whether it accepts, and what document it builds, are functions of
/// the bytes alone. `parsed_json` names that outcome.
#[verifier::external_body]
pub(crate) fn parse_json(body: &[u8]) -> (r: Result<serde_json::Value, serde_json::Error>)
    ensures
        r matches Ok(v) ==> parsed_json(body@) == Some(data_of(v)),
        r is Err ==> parsed_json(body@) is None,
{
    serde_json::from_slice(body)
}

/// Relies on serde_json::Value::get with a string index: on an object it
/// looks the key up; on any other value it returns None.
#[verifier::external_body]
pub(crate) fn get_entry<'a>(v: &'a serde_json::Value, key: &str) -> (r: Option<
    &'a serde_json::Value,
>)
    ensures
        match data_of(*v) {
            JsonData::Object(m) => match r {
                Some(w) => m.contains_key(key@) && m[key@] == data_of(*w),
                None => !m.contains_key(key@),
            },
            _ => r is None,
        },
{
    v.get(key)
}

/// Relies on serde_json::Value::as_array: Some exactly on an array, with
/// the elements in the array's order.
#[verifier::external_body]
pub(crate) fn as_list<'a>(v: &'a serde_json::Value) -> (r: Option<&'a Vec<serde_json::Value>>)
    ensures
        match data_of(*v) {
            JsonData::List(elems) => match r {
                Some(a) => a@.len() == elems.len() && (forall|i: int|
                    0 <= i < elems.len() ==> #[trigger] data_of(a@[i]) == elems[i]),
                None => false,
            },
            _ => r is None,
        },
{
    v.as_array()
}

/// Relies on serde_json::Value::as_str: Some exactly on a string; the
/// result is handed out as the string's UTF-8 bytes (str::as_bytes).
#[verifier::external_body]
pub(crate) fn as_text<'a>(v: &'a serde_json::Value) -> (r: Option<&'a [u8]>)
    ensures
        match data_of(*v) {
            JsonData::Text(t) => r matches Some(b) && b@ == t,
            _ => r is None,
        },
{
    v.as_str().map(str::as_bytes)
}

/// The commit hash of one commit record: the record must be an object
/// carrying a text under "oid".
pub open spec fn spec_commit_oid(d: JsonData) -> Option<Seq<u8>> {
    match d {
        JsonData::Object(m) => if m.contains_key("oid"@) {
            match m["oid"@] {
                JsonData::Text(t) => Some(t),
                _ => None,
            }
        } else {
            None
        },
        _ => None,
    }
}

/// The commit hashes of a pull-request response document, in order: the
/// document must be an object whose "commits" entry is a list in which
/// every record carries a hash; any other shape yields None. Entries
/// beside "commits", and record entries beside "oid", are ignored.
pub open spec fn spec_commit_oids(d: JsonData) -> Option<Seq<Seq<u8>>> {
    match d {
        JsonData::Object(m) => if m.contains_key("commits"@) {
            match m["commits"@] {
                JsonData::List(elems) => if (forall|i: int|
                    0 <= i < elems.len() ==> (#[trigger] spec_commit_oid(elems[i])) is Some) {
                    Some(Seq::new(elems.len(), |i: int| spec_commit_oid(elems[i])->Some_0))
                } else {
                    None
                },
                _ => None,
            }
        } else {
            None
        },
        _ => None,
    }
}

/// Extracts every commit hash from a parsed pull-request response,
/// rejecting a document of the wrong shape.
#[verifier::loop_isolation(false)]
pub fn commit_oids_of_doc(doc: &serde_json::Value) -> (r: Option<Vec<Vec<u8>>>)
    ensures
        match spec_commit_oids(data_of(*doc)) {
            Some(oids) => r matches Some(v) && v@.len() == oids.len() && (forall|i: int|
                0 <= i < oids.len() ==> #[trigger] v@[i]@ == oids[i]),
            None => r is None,
        },
{
    let commits = match get_entry(doc, "commits") {
        Some(c) => c,
        None => { return None; },
    };
    let elems = match as_list(commits) {
        Some(a) => a,
        None => { return None; },
    };
    let ghost espec = data_of(*commits)->List_0;
    let mut oids: Vec<Vec<u8>> = Vec::new();
    let mut i: usize = 0;
    while i < elems.len()
        invariant
            i <= espec.len(),
            oids@.len() == i,
            forall|j: int|
                0 <= j < i ==> ((#[trigger] spec_commit_oid(espec[j])) matches Some(t) && oids@[j]@
                    == t),
        decreases espec.len() - i,
    {
        let rec = &elems[i];
        proof {
            assert(data_of(elems@[i as int]) == espec[i as int]);
        }
        let oid_val = match get_entry(rec, "oid") {
            Some(o) => o,
            None => {
                proof {
                    assert(spec_commit_oid(espec[i as int]) is None);
                }
                return None;
            },
        };
        let text = match as_text(oid_val) {
            Some(t) => t,
            None => {
                proof {
                    assert(spec_commit_oid(espec[i as int]) is None);
                }
                return None;
            },
        };
        oids.push(slice_to_vec(text));
        i = i + 1;
    }
    Some(oids)
}

} // verus!
