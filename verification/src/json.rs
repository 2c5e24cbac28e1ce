//! The JSON collaborator.  Replies from the remote API are JSON text;
//! the three functions here hand that text to serde_json and give the
//! outcome a name the rest of the library can reason about.  Everything
//! that depends on the shape of a particular record — which fields must
//! exist, of which kind, and what text they render to — is ordinary
//! verified code built on top of these.

use vstd::prelude::*;

use crate::text::pair_views;

verus! {

/// The contents of a list of raw element texts.
pub open spec fn elements_view(v: Seq<String>) -> Seq<Seq<char>> {
    v.map_values(|e: String| e@)
}

/// What parsing `s` as one JSON object yields: `None` when `s` is not a
/// JSON object, otherwise each key paired with the raw JSON text of its
/// value, in the order serde_json's map iterates them (sorted by key).
pub uninterp spec fn json_object_entries_of(s: Seq<char>) -> Option<
    Seq<(Seq<char>, Seq<char>)>,
>;

/// What parsing `s` as one JSON array yields: `None` when `s` is not a
/// JSON array, otherwise the raw JSON text of each element, in order.
pub uninterp spec fn json_array_elements_of(s: Seq<char>) -> Option<Seq<Seq<char>>>;

/// What parsing `s` as one JSON string yields: `None` when `s` is not a
/// JSON string, otherwise its decoded contents.
pub uninterp spec fn json_string_of(s: Seq<char>) -> Option<Seq<char>>;

/// Relies on serde_json::from_str into serde_json::Map, and on the
/// Display of serde_json::Value, which prints a value back as compact
/// JSON.  Both are functions of the text alone: without the
/// preserve_order feature the map is a BTreeMap, so its iteration order
/// is the key order.
#[verifier::external_body]
pub(crate) fn json_object_entries(text: &str) -> (r: Option<Vec<(String, String)>>)
    ensures
        (r is Some) == (json_object_entries_of(text@) is Some),
        r matches Some(v) ==> Some(pair_views(v@)) == json_object_entries_of(text@),
{
    let parsed: Result<serde_json::Map<String, serde_json::Value>, serde_json::Error> =
        serde_json::from_str(text);
    match parsed {
        Ok(m) => Some(m.into_iter().map(|(k, v)| (k, v.to_string())).collect()),
        Err(_) => None,
    }
}

/// Relies on serde_json::from_str into Vec of serde_json::Value, and on
/// the Display of serde_json::Value, which prints each element back as
/// compact JSON.  The result is a function of the text alone.
#[verifier::external_body]
pub(crate) fn json_array_elements(text: &str) -> (r: Option<Vec<String>>)
    ensures
        (r is Some) == (json_array_elements_of(text@) is Some),
        r matches Some(v) ==> Some(elements_view(v@)) == json_array_elements_of(text@),
{
    let parsed: Result<Vec<serde_json::Value>, serde_json::Error> = serde_json::from_str(text);
    match parsed {
        Ok(a) => Some(a.into_iter().map(|v| v.to_string()).collect()),
        Err(_) => None,
    }
}

/// Whether `s` is the raw text of a JSON number.  Raw texts here come
/// from serde_json printing a parsed value back, and among those texts
/// exactly the numbers begin with a digit or a minus sign: strings
/// begin with a quote, and the other kinds with one of `{`, `[`, `t`,
/// `f`, `n`.
pub open spec fn is_number_text(s: Seq<char>) -> bool {
    s.len() > 0 && (s[0] == '-' || ('0' <= s[0] && s[0] <= '9'))
}

/// The number classification as executable code.
pub fn is_number(text: &str) -> (r: bool)
    ensures
        r == is_number_text(text@),
{
    if text.unicode_len() == 0 {
        return false;
    }
    let c = text.get_char(0);
    c == '-' || ('0' <= c && c <= '9')
}

/// Relies on serde_json::from_str into String: it succeeds exactly on a
/// JSON string and decodes its escapes.  The result is a function of
/// the text alone.
#[verifier::external_body]
pub(crate) fn json_string_value(text: &str) -> (r: Option<String>)
    ensures
        (r is Some) == (json_string_of(text@) is Some),
        r matches Some(v) ==> Some(v@) == json_string_of(text@),
{
    let parsed: Result<String, serde_json::Error> = serde_json::from_str(text);
    parsed.ok()
}

} // verus!
