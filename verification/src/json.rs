//! Decoding of the JSON arrays that the metadata service returns for list-valued fields.
use vstd::prelude::*;
use crate::error::{list_result, Error, ErrorKind, Failure};
use crate::text::texts;

verus! {

/// The array of strings that `text` denotes as a JSON document, if it denotes one.
pub uninterp spec fn json_text_array(text: Seq<char>) -> Option<Seq<Seq<char>>>;

/// The array of strings that `bytes` denote as a JSON document read from a stream,
/// if they denote one.
pub uninterp spec fn json_stream_array(bytes: Seq<u8>) -> Option<Seq<Seq<char>>>;

/// Calls `serde_json::from_str` for a vector of strings and drops the error's detail.
/// The parser reads nothing but its argument, so what it returns is named by
/// `json_text_array`: the decoded strings where the text is a JSON array of strings
/// and nothing else, nothing otherwise.
#[verifier::external_body]
pub(crate) fn array_from_str(text: &str) -> (r: Option<Vec<String>>)
    ensures
        match r {
            Some(list) => json_text_array(text@) == Some(texts(list@)),
            None => json_text_array(text@) is None,
        },
{
    serde_json::from_str::<Vec<String>>(text).ok()
}

/// Calls `serde_json::from_reader` for a vector of strings, on bytes held in memory,
/// and drops the error's detail. The parser reads nothing but these bytes, so what
/// it returns is named by `json_stream_array`.
#[verifier::external_body]
pub(crate) fn array_from_reader(bytes: &[u8]) -> (r: Option<Vec<String>>)
    ensures
        match r {
            Some(list) => json_stream_array(bytes@) == Some(texts(list@)),
            None => json_stream_array(bytes@) is None,
        },
{
    serde_json::from_reader::<&[u8], Vec<String>>(bytes).ok()
}

/// What `json_array` returns for a document that denotes `decoded`.
pub open spec fn array_or_parse_error(decoded: Option<Seq<Seq<char>>>) -> Result<
    Seq<Seq<char>>,
    Failure,
> {
    match decoded {
        Some(list) => Ok(list),
        None => Err(Failure::MetadataParse("json array"@)),
    }
}

/// Turns the outcome of decoding into the getter's result: the list as it is, and
/// a failure to decode into a parse error with the tag `json array`.
pub fn array_result(decoded: Option<Vec<String>>) -> (r: Result<Vec<String>, Error>)
    ensures
        match decoded {
            Some(list) => r == Ok::<Vec<String>, Error>(list),
            None => r matches Err(e) && e@ == Failure::MetadataParse("json array"@),
        },
{
    match decoded {
        Some(list) => Ok(list),
        None => Err(Error::new(ErrorKind::MetadataParse("json array"))),
    }
}

/// Decodes a JSON array of strings. Anything else is a parse error with the tag
/// `json array`.
pub fn json_array(text: &str) -> (r: Result<Vec<String>, Error>)
    ensures
        list_result(r) == array_or_parse_error(json_text_array(text@)),
{
    array_result(array_from_str(text))
}

} // verus!
