//! Trusted boundary to the JSON parser, used for benchmark sample files.
//!
//! Parsing is a function of the document's characters alone, so its three
//! outcomes are named: whether the text parses, whether the parsed
//! document is an array, and which string fields each array element
//! carries. The verified loader builds its exact contract on these names;
//! the wrapper below is the one place they are tied to the parser.

use vstd::prelude::*;

use crate::evaluation::opt_text;
use crate::evaluation::SampleEntry;

verus! {

/// Whether `serde_json::from_str` accepts the document; a function of the
/// characters alone.
pub uninterp spec fn json_parse_ok(doc: Seq<char>) -> bool;

/// Whether the parsed document is a JSON array; meaningful when the
/// document parses. A function of the characters alone.
pub uninterp spec fn json_doc_is_array(doc: Seq<char>) -> bool;

/// For each element of the parsed array, in order, the element's string
/// field under each of the two keys: present exactly when the element is
/// an object carrying that key with a string value, as `Value::get` and
/// `Value::as_str` resolve it. Meaningful when the document parses as an
/// array; a function of the document and the keys alone.
pub uninterp spec fn json_array_fields(
    doc: Seq<char>,
    first_key: Seq<char>,
    second_key: Seq<char>,
) -> Seq<(Option<Seq<char>>, Option<Seq<char>>)>;

/// Relies on serde_json::from_str, Value::as_array, Value::get and
/// Value::as_str: parses the document and hands out, per array element,
/// the string fields under the two keys. `Err(Some(message))` is the
/// parser's rejection, `Err(None)` a document that is not an array.
#[verifier::external_body]
pub(crate) fn parse_sample_entries(raw: &str, first_key: &str, second_key: &str) -> (r: Result<Vec<SampleEntry>, Option<String>>)
    ensures
        r is Ok <==> (json_parse_ok(raw@) && json_doc_is_array(raw@)),
        r matches Err(e) ==> ((e is Some <==> !json_parse_ok(raw@)) && (e is None <==> (
        json_parse_ok(raw@) && !json_doc_is_array(raw@)))),
        r matches Ok(entries) ==> ({
            let fields = json_array_fields(raw@, first_key@, second_key@);
            &&& entries@.len() == fields.len()
            &&& forall|i: int|
                0 <= i < entries@.len() ==> opt_text((#[trigger] entries@[i]).prompt)
                    == fields[i].0 && opt_text(entries@[i].reference_substring) == fields[i].1
        }),
{
    let value: serde_json::Value =
        serde_json::from_str(raw).map_err(|e| Some(e.to_string()))?;
    let items = value.as_array().ok_or(None)?;
    let field = |item: &serde_json::Value, key: &str| {
        item.get(key).and_then(|v| v.as_str()).map(|s| s.to_string())
    };
    Ok(items.iter().map(|item| SampleEntry {
        prompt: field(item, first_key),
        reference_substring: field(item, second_key),
    }).collect())
}

} // verus!
