//! JSON text, written and read by `serde_json`.
//!
//! The library never spells out JSON itself. What `serde_json` returns for a
//! value is given a name here, and the contracts of the library speak of the
//! text under that name.

use vstd::prelude::*;

verus! {

/// `serde_json::Error`, the error of every call below. The library only
/// tells it from success.
#[verifier::external_type_specification]
#[verifier::external_body]
pub struct ExJsonError(serde_json::Error);

/// What `serde_json::to_string` returns for a list of strings: the text, or
/// `None` where it reports an error.
pub uninterp spec fn tab_list_json(tabs: Seq<Seq<char>>) -> Option<Seq<char>>;

/// What `serde_json::from_str` returns when it is asked to read a text as a
/// list of strings: the list, or `None` where it reports an error.
pub uninterp spec fn tab_list_of_json(text: Seq<char>) -> Option<Seq<Seq<char>>>;

/// What `serde_json::to_string` returns for a single string: the quoted and
/// escaped text, or `None` where it reports an error.
pub uninterp spec fn json_string(s: Seq<char>) -> Option<Seq<char>>;

/// What `String::from_utf8_lossy` makes of a sequence of bytes.
pub uninterp spec fn lossy_text(bytes: Seq<u8>) -> Seq<char>;

/// `String::from_utf8_lossy`, with its result as an owned string: the text of
/// a payload as it came off the wire, with what is no UTF-8 replaced. The
/// result depends on the bytes alone; the contract gives it its name and
/// claims nothing more of it.
#[verifier::external_body]
pub(crate) fn text_from_bytes(bytes: &[u8]) -> (text: String)
    ensures
        text@ == lossy_text(bytes@),
{
    String::from_utf8_lossy(bytes).into_owned()
}

/// `serde_json::to_string` at `Vec<String>`. Its outcome depends on the
/// list alone; the contract gives that outcome its name and claims nothing
/// more of it.
#[verifier::external_body]
fn list_to_json(tabs: &Vec<String>) -> (r: Result<String, serde_json::Error>)
    ensures
        match r {
            Ok(text) => tab_list_json(tabs.deep_view()) == Some(text@),
            Err(_) => tab_list_json(tabs.deep_view()) is None,
        },
{
    serde_json::to_string(tabs)
}

/// `serde_json::from_str` at `Vec<String>`. Its outcome
/// depends on the text alone; the contract gives that outcome its name and
/// claims nothing more of it.
#[verifier::external_body]
fn list_from_json(text: &str) -> (r: Result<Vec<String>, serde_json::Error>)
    ensures
        match r {
            Ok(tabs) => tab_list_of_json(text@) == Some(tabs.deep_view()),
            Err(_) => tab_list_of_json(text@) is None,
        },
{
    serde_json::from_str::<Vec<String>>(text)
}

/// `serde_json::to_string` at `str`. Its outcome depends on the
/// string alone; the contract gives that outcome its name and claims nothing
/// more of it.
#[verifier::external_body]
fn string_to_json(s: &str) -> (r: Result<String, serde_json::Error>)
    ensures
        match r {
            Ok(text) => json_string(s@) == Some(text@),
            Err(_) => json_string(s@) is None,
        },
{
    serde_json::to_string(s)
}

/// The JSON array that carries a tab list to a peer.
pub fn encode_tab_list(tabs: &Vec<String>) -> (text: Option<String>)
    ensures
        match text {
            Some(t) => tab_list_json(tabs.deep_view()) == Some(t@),
            None => tab_list_json(tabs.deep_view()) is None,
        },
{
    match list_to_json(tabs) {
        Ok(t) => Some(t),
        Err(_) => None,
    }
}

/// The tab list that a peer reads out of a payload, if the payload is a JSON
/// array of strings.
pub fn decode_tab_list(text: &str) -> (tabs: Option<Vec<String>>)
    ensures
        match tabs {
            Some(list) => tab_list_of_json(text@) == Some(list.deep_view()),
            None => tab_list_of_json(text@) is None,
        },
{
    match list_from_json(text) {
        Ok(list) => Some(list),
        Err(_) => None,
    }
}

/// A string as a JSON string literal.
pub fn encode_string(s: &str) -> (text: Option<String>)
    ensures
        match text {
            Some(t) => json_string(s@) == Some(t@),
            None => json_string(s@) is None,
        },
{
    match string_to_json(s) {
        Ok(t) => Some(t),
        Err(_) => None,
    }
}

} // verus!
