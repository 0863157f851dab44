//! The model presence query against the service's tag listing.
//!
//! The service's `api/tags` endpoint answers with a JSON object whose
//! `models` array names the models it already holds.  The surrounding
//! application fetches that body; here it is parsed and searched: a model
//! counts as downloaded when any listed name contains the requested name as
//! a substring.

use vstd::prelude::*;
use crate::strutil::{is_substring, str_contains};

verus! {

/// The model names a tag-listing body names, in order, `None` when the body
/// is not valid JSON.  Entries without a string `name` field are left out.
/// A body's bytes alone determine it.
pub uninterp spec fn tag_names_of(body: Seq<u8>) -> Option<Seq<Seq<char>>>;

/// Relies on `serde_json::from_slice::<Value>` and `Value::{get, as_array,
/// as_str}`: one attempted JSON read of the body, then the `name` strings
/// moved out of the `models` array; a missing or malformed array yields no
/// names rather than a failure.
#[verifier::external_body]
fn parse_tags_body(body: &Vec<u8>) -> (r: Option<Vec<String>>)
    ensures
        r is Some <==> tag_names_of(body@) is Some,
        r matches Some(names) ==> Some(names.deep_view()) == tag_names_of(body@),
{
    let json: serde_json::Value = match serde_json::from_slice(body) {
        Ok(v) => v,
        Err(_) => return None,
    };
    let mut names: Vec<String> = Vec::new();
    if let Some(arr) = json.get("models").and_then(|v| v.as_array()) {
        for model in arr {
            if let Some(name) = model.get("name").and_then(|v| v.as_str()) {
                names.push(name.to_string());
            }
        }
    }
    Some(names)
}

/// Whether any of the listed names contains the requested name.
pub fn model_listed(names: &Vec<String>, model_name: &str) -> (r: bool)
    ensures
        r == exists|i: int| 0 <= i < names@.len() && #[trigger] is_substring(names@[i]@, model_name@),
{
    let mut i: usize = 0;
    while i < names.len()
        invariant
            i <= names@.len(),
            forall|j: int| 0 <= j < i ==> !#[trigger] is_substring(names@[j]@, model_name@),
        decreases names@.len() - i,
    {
        if str_contains(names[i].as_str(), model_name) {
            return true;
        }
        i += 1;
    }
    false
}

/// Whether the tag listing in `body` already names the model: `None` when
/// the body is unreadable (the caller treats that as a failed query), else
/// exactly whether some listed name contains the requested one.
pub fn is_model_in_tags(body: &Vec<u8>, model_name: &str) -> (r: Option<bool>)
    ensures
        r is Some <==> tag_names_of(body@) is Some,
        tag_names_of(body@) matches Some(names) ==> r == Some(
            exists|i: int| 0 <= i < names.len() && #[trigger] is_substring(names[i], model_name@),
        ),
{
    match parse_tags_body(body) {
        None => None,
        Some(names) => {
            let found = model_listed(&names, model_name);
            proof {
                let ghost listed = tag_names_of(body@)->Some_0;
                assert(names.deep_view() == listed);
                assert(forall|i: int| 0 <= i < names@.len() ==> #[trigger] listed[i] == names@[i]@);
                if found {
                    let ghost w = choose|i: int| 0 <= i < names@.len() && #[trigger] is_substring(names@[i]@, model_name@);
                    assert(is_substring(listed[w], model_name@));
                } else {
                    assert(forall|i: int| 0 <= i < listed.len() ==> !#[trigger] is_substring(listed[i], model_name@));
                }
            }
            Some(found)
        },
    }
}

} // verus!
