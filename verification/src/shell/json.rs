//! JSON texts, as they are handed to commands and taken back from them.
//!
//! A JSON text is kept as the bytes of its compact form. Reading and writing
//! JSON is left to `serde_json`; what it returns is named here, and the job's
//! rules are stated over those names.

use vstd::prelude::*;

verus! {

/// The compact form of a JSON text.
pub type Json = Vec<u8>;

/// The byte sequences of some JSON texts.
pub open spec fn texts_of(items: Seq<Json>) -> Seq<Seq<u8>> {
    Seq::new(items.len(), |i: int| items[i]@)
}

/// What a command answered, read as a JSON value.
#[derive(Debug, Clone, PartialEq, Eq)]
pub struct Answer {
    /// The compact form of the value.
    pub text: Json,
    /// The compact forms of the value's elements, if the value is an array.
    pub items: Option<Vec<Json>>,
}

impl View for Answer {
    type V = (Seq<u8>, Option<Seq<Seq<u8>>>);

    open spec fn view(&self) -> (Seq<u8>, Option<Seq<Seq<u8>>>) {
        (
            self.text@,
            match self.items {
                Some(items) => Some(texts_of(items@)),
                None => None,
            },
        )
    }
}

/// The JSON value that `bytes` are read as: its compact form and, if it is an
/// array, the compact forms of its elements. `None` where `bytes` are not read
/// as a JSON value.
pub uninterp spec fn spec_read(bytes: Seq<u8>) -> Option<(Seq<u8>, Option<Seq<Seq<u8>>>)>;

/// The compact form of the JSON array of the values that `items` are read as,
/// or `None` where one of them is not read as a JSON value.
pub uninterp spec fn spec_array_of(items: Seq<Seq<u8>>) -> Option<Seq<u8>>;

/// Reads `bytes` with `serde_json::from_slice` as a JSON value, or hands back
/// what `serde_json` says of its error. Trusted to depend on the bytes alone.
#[verifier::external_body]
pub(crate) fn read(bytes: &[u8]) -> (read: Result<Answer, String>)
    ensures
        match read {
            Ok(answer) => spec_read(bytes@) == Some(answer@),
            Err(_) => spec_read(bytes@) is None,
        },
{
    let value: serde_json::Value = serde_json::from_slice(bytes).map_err(|e| e.to_string())?;
    let text = serde_json::to_vec(&value).map_err(|e| e.to_string())?;
    let mut items = None;
    if let serde_json::Value::Array(values) = &value {
        let texts: Result<Vec<Json>, _> = values.iter().map(serde_json::to_vec).collect();
        items = Some(texts.map_err(|e| e.to_string())?);
    }
    Ok(Answer { text, items })
}

/// Writes the JSON array of the given values with `serde_json::to_vec`, or
/// hands back what `serde_json` says of its error. Trusted to depend on the
/// bytes of the values alone.
#[verifier::external_body]
pub(crate) fn array_of(items: &Vec<Json>) -> (written: Result<Json, String>)
    ensures
        match written {
            Ok(text) => spec_array_of(texts_of(items@)) == Some(text@),
            Err(_) => spec_array_of(texts_of(items@)) is None,
        },
{
    let mut values: Vec<serde_json::Value> = Vec::new();
    for item in items {
        values.push(serde_json::from_slice(item).map_err(|e| e.to_string())?);
    }
    serde_json::to_vec(&serde_json::Value::Array(values)).map_err(|e| e.to_string())
}

} // verus!
