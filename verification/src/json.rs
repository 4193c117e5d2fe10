//! Ordered lists of strings as columns of JSON text.

use vstd::prelude::*;
use crate::text::{texts, texts_equal};

verus! {

/// The list of strings that a JSON text decodes to, or `None` where the text
/// is not a JSON array of strings.
pub uninterp spec fn json_string_list(text: Seq<char>) -> Option<Seq<Seq<char>>>;

/// The JSON text that a list of strings encodes to.
pub uninterp spec fn json_text_of_list(list: Seq<Seq<char>>) -> Seq<char>;

/// Decodes a JSON array of strings. Calls `serde_json::from_str` at the type
/// `Vec<String>`; a failure of the decoder becomes `None`. The result is a
/// function of the text alone.
#[verifier::external_body]
pub(crate) fn decode_string_list(text: &str) -> (r: Option<Vec<String>>)
    ensures
        crate::text::opt_texts(r) == json_string_list(text@),
{
    serde_json::from_str::<Vec<String>>(text).ok()
}

/// Encodes a list of strings as a JSON array. Calls `serde_json::to_string`
/// on the list. The encoder fails only where a value refuses to be
/// serialised, a map has a key that is no string, or the writer fails; a
/// list of strings written into memory does none of these, so the call
/// succeeds. The text is a function of the list alone.
#[verifier::external_body]
pub(crate) fn encode_string_list(list: &Vec<String>) -> (r: Result<String, String>)
    ensures
        r is Ok,
        r matches Ok(text) ==> text@ == json_text_of_list(texts(list@)),
{
    serde_json::to_string(list).map_err(|e| e.to_string())
}

/// The JSON text of a list that may be absent.
pub open spec fn list_text(list: Option<Seq<Seq<char>>>) -> Option<Seq<char>> {
    match list {
        Some(l) => Some(json_text_of_list(l)),
        None => None,
    }
}

/// Whether a list comes back unchanged when its JSON text is decoded.
pub open spec fn round_trips(list: Seq<Seq<char>>) -> bool {
    json_string_list(json_text_of_list(list)) == Some(list)
}

/// Tests whether a list comes back unchanged when its JSON text is decoded:
/// encodes the list, decodes the text and holds what comes back against the
/// list.
pub fn list_round_trips(list: &Vec<String>) -> (b: bool)
    ensures
        b == round_trips(texts(list@)),
{
    match encode_string_list(list) {
        Ok(text) => match decode_string_list(text.as_str()) {
            Some(back) => texts_equal(&back, list),
            None => false,
        },
        Err(_) => false,
    }
}

/// The list held by a column of JSON text that may be empty of value: absent
/// where the column is, and where its text does not decode.
pub open spec fn list_of_column(column: Option<Seq<char>>) -> Option<Seq<Seq<char>>> {
    match column {
        Some(text) => json_string_list(text),
        None => None,
    }
}

/// Reads the list held by a column of JSON text. A column whose text does
/// not decode reads as absent.
pub fn read_list_column(column: &Option<String>) -> (r: Option<Vec<String>>)
    ensures
        crate::text::opt_texts(r) == list_of_column(crate::text::opt_text(*column)),
{
    match column {
        Some(text) => decode_string_list(text.as_str()),
        None => None,
    }
}

} // verus!
