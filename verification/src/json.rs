//! The JSON that the delay table holds: message payloads, and the headers of
//! a message as a JSON object of strings.
use vstd::prelude::*;

use crate::headers::HeaderMap;
use crate::pairs::{distinct_names, pairs_map, StringMap};

verus! {

/// Whether `serde_json` reads some bytes as a JSON value.
pub uninterp spec fn json_accepts(bytes: Seq<u8>) -> bool;

/// The text `serde_json` writes for a map of strings (a JSON object).
pub uninterp spec fn headers_json_text(headers: StringMap) -> Seq<char>;

/// The map of strings that `serde_json` reads from a text, if the text is a
/// JSON object whose values are all strings.
pub uninterp spec fn headers_from_json(text: Seq<char>) -> Option<StringMap>;

/// `serde_json::from_slice::<serde_json::Value>(bytes).is_ok()`.
#[verifier::external_body]
pub(crate) fn is_json(bytes: &[u8]) -> (res: bool)
    ensures
        res == json_accepts(bytes@),
{
    serde_json::from_slice::<serde_json::Value>(bytes).is_ok()
}

/// `serde_json::to_string` of the headers as a map of strings. Reading the
/// text back as a map of strings gives the same map.
#[verifier::external_body]
pub(crate) fn headers_to_json(headers: &HeaderMap) -> (res: String)
    ensures
        res@ == headers_json_text(headers@),
        headers_from_json(res@) == Some(headers@),
{
    let map: std::collections::BTreeMap<&String, &String> = headers.entries.iter().map(
        |p| (&p.0, &p.1),
    ).collect();
    serde_json::to_string(&map).unwrap_or_default()
}

/// `serde_json::from_str::<HashMap<String, String>>(text)`, its entries as
/// pairs. Their order is that of the hash map, which the contract leaves
/// open; the names are distinct and the pairs give the map.
#[verifier::external_body]
pub(crate) fn json_to_header_pairs(text: &str) -> (res: Option<Vec<(String, String)>>)
    ensures
        match res {
            Some(pairs) => distinct_names(pairs@) && headers_from_json(text@) == Some(
                pairs_map(pairs@),
            ),
            None => headers_from_json(text@) is None,
        },
{
    match serde_json::from_str::<std::collections::HashMap<String, String>>(text) {
        Ok(map) => Some(map.into_iter().collect()),
        Err(_) => None,
    }
}

} // verus!
