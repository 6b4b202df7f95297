//! The outside parsers that decoding relies on. Each result is a function of
//! the input alone and is given a name here; what the datasets make of it is
//! verified in `decode`.
use vstd::prelude::*;
use std::str::FromStr;

verus! {

/// The records of a CSV text (comma separated, `"` quoted, quotes doubled
/// inside quotes), each as its fields, or `None` where the text is not such
/// a table.
pub uninterp spec fn csv_table(bytes: Seq<u8>) -> Option<Seq<Seq<Seq<char>>>>;

/// Whether a text is a decimal number.
pub uninterp spec fn decimal_accepts(s: Seq<char>) -> bool;

/// Whether a text is a JSON document.
pub uninterp spec fn json_accepts(s: Seq<char>) -> bool;

/// The strings of a text that is a JSON array of strings, in order.
pub uninterp spec fn json_string_list(s: Seq<char>) -> Option<Seq<Seq<char>>>;

/// Relies on csv's `Reader::records`, with no header row taken out: splits
/// the bytes into records of UTF-8 fields, and fails on a malformed record,
/// on invalid UTF-8, or on a record whose length differs from the first one.
#[verifier::external_body]
pub(crate) fn read_csv_records(bytes: &[u8]) -> (r: Result<Vec<Vec<String>>, String>)
    ensures
        match r {
            Ok(rows) => csv_table(bytes@) == Some(rows.deep_view()),
            Err(_) => csv_table(bytes@) is None,
        },
{
    csv::ReaderBuilder::new()
        .has_headers(false)
        .from_reader(bytes)
        .records()
        .map(|rec| rec.map(|fields| fields.iter().map(String::from).collect()))
        .collect::<Result<Vec<Vec<String>>, csv::Error>>()
        .map_err(|e| e.to_string())
}

/// Relies on bigdecimal's `BigDecimal::from_str`: whether the text parses as
/// a decimal number.
#[verifier::external_body]
pub(crate) fn is_decimal(s: &str) -> (r: bool)
    ensures
        r == decimal_accepts(s@),
{
    bigdecimal::BigDecimal::from_str(s).is_ok()
}

/// Relies on serde_json's `from_str` into a `Value`: whether the text is a
/// JSON document.
#[verifier::external_body]
pub(crate) fn is_json(s: &str) -> (r: bool)
    ensures
        r == json_accepts(s@),
{
    serde_json::from_str::<serde_json::Value>(s).is_ok()
}

/// Relies on serde_json's `from_str` into a `Vec<String>`: decodes a JSON
/// array of strings.
#[verifier::external_body]
pub(crate) fn decode_string_list(s: &str) -> (r: Option<Vec<String>>)
    ensures
        match r {
            Some(v) => json_string_list(s@) == Some(v.deep_view()),
            None => json_string_list(s@) is None,
        },
{
    serde_json::from_str::<Vec<String>>(s).ok()
}

} // verus!
