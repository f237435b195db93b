//! JSON documents as plain values, and the JSON parser that reads them.

use vstd::prelude::*;

verus! {

#[verifier::external_type_specification]
#[verifier::external_body]
pub struct ExJsonValue(serde_json::Value);

/// A JSON document: numbers as the text serde_json displays them with
/// (plain decimal digits exactly for the unsigned integers), objects as
/// their members.
#[derive(Debug)]
pub enum Json {
    Null,
    Bool(bool),
    Number(String),
    Text(String),
    Array(Vec<Json>),
    Object(Vec<(String, Json)>),
}

/// The document that `serde_json::from_str::<Value>` reads from `body`, or
/// none where `body` is not JSON.
pub uninterp spec fn spec_json(body: Seq<char>) -> Option<Json>;

/// The message of the error that `serde_json::from_str::<Value>` gives for
/// `body`.
pub uninterp spec fn spec_json_error(body: Seq<char>) -> Seq<char>;

/// Calls `serde_json::from_str::<serde_json::Value>` on `body`. Claimed: the
/// result is a function of `body` alone, the document on success and the
/// error's message (its `Display`) on failure. What the document is for a
/// given body is not stated.
#[verifier::external_body]
pub(crate) fn parse_json(body: &str) -> (r: Result<Json, String>)
    ensures
        r matches Ok(j) ==> spec_json(body@) == Some(j),
        r matches Err(e) ==> spec_json(body@) is None && e@ == spec_json_error(body@),
{
    match serde_json::from_str::<serde_json::Value>(body) {
        Ok(v) => Ok(json_of_value(v)),
        Err(e) => Err(e.to_string()),
    }
}

/// Converts a `serde_json::Value` into `Json` variant for variant, numbers
/// by their `Display` text. Nothing is claimed of the result: `parse_json`
/// makes the claim for the whole parse.
#[verifier::external_body]
fn json_of_value(v: serde_json::Value) -> Json {
    match v {
        serde_json::Value::Null => Json::Null,
        serde_json::Value::Bool(b) => Json::Bool(b),
        serde_json::Value::Number(n) => Json::Number(n.to_string()),
        serde_json::Value::String(s) => Json::Text(s),
        serde_json::Value::Array(a) => Json::Array(a.into_iter().map(json_of_value).collect()),
        serde_json::Value::Object(m) => Json::Object(
            m.into_iter().map(|(k, x)| (k, json_of_value(x))).collect(),
        ),
    }
}

/// The value of the first member named `key` among the members `m` of an
/// object.
pub open spec fn member(m: Seq<(String, Json)>, key: Seq<char>) -> Option<Json>
    decreases m.len(),
{
    if m.len() == 0 {
        None
    } else if m[0].0@ == key {
        Some(m[0].1)
    } else {
        member(m.drop_first(), key)
    }
}

proof fn lemma_member(m: Seq<(String, Json)>, key: Seq<char>, k: int)
    requires
        0 <= k <= m.len(),
        forall|j: int| 0 <= j < k ==> (#[trigger] m[j]).0@ != key,
        k == m.len() || m[k].0@ == key,
    ensures
        member(m, key) == if k < m.len() {
            Some(m[k].1)
        } else {
            None::<Json>
        },
    decreases k,
{
    if k > 0 {
        let d = m.drop_first();
        assert forall|j: int| 0 <= j < k - 1 implies (#[trigger] d[j]).0@ != key by {
            assert(d[j] == m[j + 1]);
        }
        if k < m.len() {
            assert(d[k - 1] == m[k]);
        }
        assert(m[0].0@ != key);
        lemma_member(d, key, k - 1);
    }
}

/// The value of the member named `key` in the members `m`.
pub fn find_member<'a>(m: &'a Vec<(String, Json)>, key: &str) -> (r: Option<&'a Json>)
    ensures
        match member(m@, key@) {
            Some(j) => r matches Some(x) && *x == j,
            None => r is None,
        },
{
    let k = String::from_str(key);
    let n = m.len();
    let mut i: usize = 0;
    while i < n
        invariant
            n == m@.len(),
            i <= n,
            k@ == key@,
            forall|j: int| 0 <= j < i ==> (#[trigger] m@[j]).0@ != key@,
        decreases n - i,
    {
        if m[i].0 == k {
            proof {
                lemma_member(m@, key@, i as int);
            }
            return Some(&m[i].1);
        }
        i = i + 1;
    }
    proof {
        lemma_member(m@, key@, n as int);
    }
    None
}

} // verus!
