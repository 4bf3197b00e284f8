//! The package-index decision for the dependency-synchronization step: the
//! host fetches a small region-lookup document over the network, and this
//! module reads the country code out of the JSON body and decides whether
//! the synchronization command should name the mirror index.
use vstd::prelude::*;
use vstd::string::StrSliceExecFns;

use crate::strutil::opt_str_view;

verus! {

/// What the serde_json extraction below returns: the string under `key`
/// when `doc` parses as JSON holding a string there, nothing otherwise. A
/// function of the two arguments alone; named rather than written out,
/// since stating a JSON parse takes pages.
pub uninterp spec fn str_field_of(doc: Seq<char>, key: Seq<char>) -> Option<Seq<char>>;

/// Relies on serde_json::from_str::<Value>, Value::get and Value::as_str:
/// the string field under `key`, if `doc` parses as an object holding one;
/// nothing on malformed JSON, a missing key, or a non-string value.
#[verifier::external_body]
fn extract_str_field(doc: &str, key: &str) -> (r: Option<String>)
    ensures
        r matches Some(s) ==> str_field_of(doc@, key@) == Some(s@),
        r is None ==> str_field_of(doc@, key@) is None,
{
    serde_json::from_str::<serde_json::Value>(doc).ok().and_then(
        |v| v.get(key).and_then(|f| f.as_str().map(|s| s.to_string())),
    )
}

/// Whether a country code names the mirror's region: the two letters `CN`,
/// in either case.
pub open spec fn is_mirror_region_code(code: Seq<char>) -> bool {
    code.len() == 2 && (code[0] == 'C' || code[0] == 'c') && (code[1] == 'N' || code[1] == 'n')
}

/// The decision owed for a region-lookup outcome: the mirror exactly when a
/// body was fetched and its `country_code` field is a string naming the
/// mirror's region; the default index on every failure path — no body,
/// unparsable JSON, a missing or non-string field, any other region.
pub open spec fn mirror_index_decision(body: Option<Seq<char>>) -> bool {
    match body {
        Some(doc) => match str_field_of(doc, "country_code"@) {
            Some(code) => is_mirror_region_code(code),
            None => false,
        },
        None => false,
    }
}

/// Decide from a country code whether the mirror index applies.
pub fn is_mirror_region(code: &str) -> (r: bool)
    ensures
        r == is_mirror_region_code(code@),
{
    let n = code.unicode_len();
    if n != 2 {
        return false;
    }
    let c0 = code.get_char(0);
    let c1 = code.get_char(1);
    (c0 == 'C' || c0 == 'c') && (c1 == 'N' || c1 == 'n')
}

/// Decide from the region-lookup response whether the synchronization step
/// should name the mirror index: yes exactly when the body's `country_code`
/// is the mirror region's code, no on every failure path.
pub fn decide_index_url(body: &Option<String>) -> (r: bool)
    ensures
        r == mirror_index_decision(opt_str_view(*body)),
{
    match body {
        None => false,
        Some(text) => match extract_str_field(text.as_str(), "country_code") {
            None => false,
            Some(code) => is_mirror_region(code.as_str()),
        },
    }
}

} // verus!
