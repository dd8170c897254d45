//! From a wikidata page to the English Wikipedia summary of an artist:
//! the addresses to fetch and what is read from the json answers.
use vstd::prelude::*;

use crate::text::{after_last, join_texts, last_segment};

verus! {

/// Wikidata REST address of an item, before the item id.
pub const WIKIDATA_ITEMS_URL: &'static str = "https://wikidata.org/w/rest.php/wikibase/v0/entities/items/";

/// What follows the item id: only the sitelinks are asked for.
pub const WIKIDATA_SITELINKS_FIELDS: &'static str = "?_fields=sitelinks";

/// English Wikipedia REST address of a page summary, before the page title.
pub const WIKIPEDIA_SUMMARY_URL: &'static str = "https://en.wikipedia.org/api/rest_v1/page/summary/";

/// JSON pointer to the English Wikipedia url in a wikidata sitelinks answer.
pub const ENWIKI_URL_POINTER: &'static str = "/sitelinks/enwiki/url";

/// JSON pointer to the extract in a Wikipedia summary answer.
pub const EXTRACT_POINTER: &'static str = "/extract";

/// The string that `text`, read as a JSON document, holds at the JSON pointer
/// `pointer`; `None` when `text` is not JSON, nothing is there, or what is there
/// is not a string.
pub uninterp spec fn json_string_at(text: Seq<char>, pointer: Seq<char>) -> Option<Seq<char>>;

/// Parses `text` with `serde_json::from_str` into a `serde_json::Value`, looks up
/// `pointer` with `Value::pointer`, and reads the string there with `Value::as_str`.
/// Trusted: the result is `json_string_at` of the two texts; the contract says
/// nothing of what that is on given texts.
#[verifier::external_body]
fn json_string_at_pointer(text: &str, pointer: &str) -> (r: Option<String>)
    ensures
        r is Some <==> json_string_at(text@, pointer@) is Some,
        r matches Some(s) ==> json_string_at(text@, pointer@) == Some(s@),
{
    let v: serde_json::Value = serde_json::from_str(text).ok()?;
    let s = v.pointer(pointer)?.as_str()?;
    Some(s.to_string())
}

/// The wikidata REST address that gives the sitelinks of the item whose page is
/// `wikidata_url`; the item id is the last `/`-separated piece of that url.
pub fn wikidata_api_url(wikidata_url: &str) -> (r: String)
    ensures
        r@ == WIKIDATA_ITEMS_URL@ + after_last(wikidata_url@, '/') + WIKIDATA_SITELINKS_FIELDS@,
{
    let id = last_segment(wikidata_url, '/');
    let mut r = join_texts(WIKIDATA_ITEMS_URL, id.as_str());
    r.append(WIKIDATA_SITELINKS_FIELDS);
    r
}

/// The summary address of the Wikipedia page at `enwiki_url`: the page title is
/// the last `/`-separated piece of the url.
pub fn summary_url(enwiki_url: &str) -> (r: String)
    ensures
        r@ == WIKIPEDIA_SUMMARY_URL@ + after_last(enwiki_url@, '/'),
{
    let title = last_segment(enwiki_url, '/');
    join_texts(WIKIPEDIA_SUMMARY_URL, title.as_str())
}

/// The summary address for the English Wikipedia url read from a sitelinks
/// answer, when the answer held one.
pub fn summary_url_for(enwiki_url: Option<String>) -> (r: Option<String>)
    ensures
        enwiki_url is None ==> r is None,
        enwiki_url matches Some(u) ==> r matches Some(s) && s@ == WIKIPEDIA_SUMMARY_URL@
            + after_last(u@, '/'),
{
    match enwiki_url {
        Some(u) => Some(summary_url(u.as_str())),
        None => None,
    }
}

/// The English Wikipedia url in a wikidata sitelinks answer.
pub fn enwiki_url(sitelinks_answer: &str) -> (r: Option<String>)
    ensures
        r is Some <==> json_string_at(sitelinks_answer@, ENWIKI_URL_POINTER@) is Some,
        r matches Some(s) ==> json_string_at(sitelinks_answer@, ENWIKI_URL_POINTER@) == Some(s@),
{
    json_string_at_pointer(sitelinks_answer, ENWIKI_URL_POINTER)
}

/// The summary address to fetch after the wikidata sitelinks answer, when that
/// answer names an English Wikipedia page.
pub fn summary_url_from_sitelinks(sitelinks_answer: &str) -> (r: Option<String>)
    ensures
        json_string_at(sitelinks_answer@, ENWIKI_URL_POINTER@) is None ==> r is None,
        json_string_at(sitelinks_answer@, ENWIKI_URL_POINTER@) matches Some(u) ==> r matches Some(
            s,
        ) && s@ == WIKIPEDIA_SUMMARY_URL@ + after_last(u, '/'),
{
    summary_url_for(enwiki_url(sitelinks_answer))
}

/// The extract (the artist's biography) in a Wikipedia summary answer.
pub fn extract_from_summary(summary_answer: &str) -> (r: Option<String>)
    ensures
        r is Some <==> json_string_at(summary_answer@, EXTRACT_POINTER@) is Some,
        r matches Some(s) ==> json_string_at(summary_answer@, EXTRACT_POINTER@) == Some(s@),
{
    json_string_at_pointer(summary_answer, EXTRACT_POINTER)
}

} // verus!
