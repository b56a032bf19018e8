//! The data that a document hands to a `shell` job.

use vstd::prelude::*;
use super::json::Json;

verus! {

/// One element of the data that the document hands over, as far as it is read:
/// a path, data, or both.
#[derive(Debug, Clone, PartialEq, Eq)]
pub struct Item {
    /// Where the command's answer belongs, if the element says so.
    pub path: Option<String>,
    /// What the command is fed, if the element holds any.
    pub data: Option<Json>,
}

/// An input with the file that the command's answer to it belongs in.
#[derive(Debug, Clone, PartialEq, Eq)]
pub struct InputItem {
    /// Where the command's answer belongs.
    pub path: String,
    /// What the command is fed.
    pub data: Json,
}

/// A field of an element.
#[derive(Debug, Clone, Copy, PartialEq, Eq, Structural)]
pub enum Field {
    /// The field `path`.
    Path,
    /// The field `data`.
    Data,
}

/// An element lacks a field that it must have.
#[derive(Debug, Clone, Copy, PartialEq, Eq, Structural)]
pub struct MissingField {
    /// Which element lacks the field, counted from 0.
    pub index: usize,
    /// The field that is lacking.
    pub field: Field,
}

/// The inputs of a job, with where the answers belong.
#[derive(Debug, Clone, PartialEq, Eq)]
pub enum QueryData {
    /// All answers belong in one file.
    SharedOutput {
        /// Where the answers belong.
        path: String,
        /// What the commands are fed.
        inputs: Vec<Json>,
    },
    /// The answer to each input belongs in a file of its own.
    IndividualOutput(Vec<InputItem>),
}

/// Where the answers of a job belong.
#[derive(Debug, Clone, PartialEq, Eq)]
pub enum Output {
    /// All answers belong in one file.
    SharedOutput(String),
    /// The answer to each input belongs in a file of its own.
    IndividualOutput(Vec<String>),
}

/// The field that an element after the first lacks: data always has to be
/// there, and the path too where each answer gets its own file. The path is
/// looked for first.
pub open spec fn lacks(item: Item, individual: bool) -> Option<Field> {
    if individual && item.path is None {
        Some(Field::Path)
    } else if item.data is None {
        Some(Field::Data)
    } else {
        None
    }
}

impl QueryData {
    /// How many inputs there are.
    pub open spec fn spec_len(self) -> nat {
        match self {
            QueryData::SharedOutput { inputs, .. } => inputs@.len(),
            QueryData::IndividualOutput(items) => items@.len(),
        }
    }

    /// Gathers the inputs from the elements that the document hands over. The
    /// first element decides where the answers belong: with a path alone, all
    /// answers share that file and the other elements are the inputs; with a
    /// path and data, every element is an input with a file of its own. The
    /// first element that lacks what it must have is refused.
    pub fn new(items: Vec<Item>) -> (gathered: Result<Self, MissingField>)
        ensures
            items.len() == 0 ==> (gathered matches Ok(QueryData::IndividualOutput(inputs))
                && inputs.len() == 0),
            items.len() > 0 && items[0].path is None ==> gathered == Err::<Self, MissingField>(
                MissingField { index: 0, field: Field::Path },
            ),
            items.len() > 0 && items[0].path is Some ==> match gathered {
                Err(missing) => {
                    &&& 1 <= missing.index < items.len()
                    &&& lacks(items[missing.index as int], items[0].data is Some) == Some(
                        missing.field,
                    )
                    &&& forall|k: int|
                        1 <= k < missing.index ==> lacks(#[trigger] items[k], items[0].data is Some)
                            is None
                },
                Ok(QueryData::SharedOutput { path, inputs }) => {
                    &&& items[0].data is None
                    &&& Some(path) == items[0].path
                    &&& inputs.len() == items.len() - 1
                    &&& forall|k: int|
                        0 <= k < inputs.len() ==> Some(#[trigger] inputs[k]) == items[k + 1].data
                },
                Ok(QueryData::IndividualOutput(inputs)) => {
                    &&& items[0].data is Some
                    &&& inputs.len() == items.len()
                    &&& forall|k: int|
                        0 <= k < inputs.len() ==> Some((#[trigger] inputs[k]).path)
                            == items[k].path && Some(inputs[k].data) == items[k].data
                },
            },
    {
        let ghost all = items@;
        let total = items.len();
        let mut shared: Option<String> = None;
        let mut inputs: Vec<Json> = Vec::new();
        let mut pairs: Vec<InputItem> = Vec::new();
        let mut seen: usize = 0;
        for item in it: items
            invariant
                it.seq() == all,
                seen == it.index(),
                all.len() == total,
                seen > 0 ==> all[0].path is Some,
                seen > 0 && all[0].data is None ==> Some(shared->0) == all[0].path && shared is Some
                    && inputs.len() == seen - 1 && pairs.len() == 0,
                seen > 0 && all[0].data is Some ==> shared is None && pairs.len() == seen
                    && inputs.len() == 0,
                seen == 0 ==> shared is None && pairs.len() == 0 && inputs.len() == 0,
                forall|k: int| 1 <= k < seen ==> lacks(#[trigger] all[k], all[0].data is Some) is None,
                forall|k: int| 0 <= k < inputs.len() ==> Some(#[trigger] inputs[k]) == all[k + 1].data,
                forall|k: int|
                    0 <= k < pairs.len() ==> Some((#[trigger] pairs[k]).path) == all[k].path && Some(
                        pairs[k].data,
                    ) == all[k].data,
        {
            assert(item == all[seen as int]);
            if seen == 0 {
                match (item.path, item.data) {
                    (Some(path), None) => {
                        shared = Some(path);
                    },
                    (Some(path), Some(data)) => {
                        pairs.push(InputItem { path, data });
                    },
                    (None, _) => {
                        return Err(MissingField { index: 0, field: Field::Path });
                    },
                }
            } else if shared.is_some() {
                match item.data {
                    Some(data) => {
                        inputs.push(data);
                    },
                    None => {
                        return Err(MissingField { index: seen, field: Field::Data });
                    },
                }
            } else {
                match (item.path, item.data) {
                    (Some(path), Some(data)) => {
                        pairs.push(InputItem { path, data });
                    },
                    (None, _) => {
                        return Err(MissingField { index: seen, field: Field::Path });
                    },
                    (Some(_), None) => {
                        return Err(MissingField { index: seen, field: Field::Data });
                    },
                }
            }
            seen = seen + 1;
        }
        match shared {
            Some(path) => Ok(QueryData::SharedOutput { path, inputs }),
            None => Ok(QueryData::IndividualOutput(pairs)),
        }
    }

    /// Parts the inputs from where the answers belong. With a file for each
    /// answer, there are as many files as inputs, in the same order.
    pub fn split(self) -> (parts: (Output, Vec<Json>))
        ensures
            parts.1.len() == self.spec_len(),
            match self {
                QueryData::SharedOutput { path, inputs } => parts.0 == Output::SharedOutput(path)
                    && parts.1 == inputs,
                QueryData::IndividualOutput(items) => parts.0 matches Output::IndividualOutput(paths)
                    && paths.len() == items.len() && forall|k: int|
                    0 <= k < items.len() ==> #[trigger] paths[k] == items[k].path && parts.1[k]
                        == items[k].data,
            },
    {
        match self {
            QueryData::SharedOutput { path, inputs } => (Output::SharedOutput(path), inputs),
            QueryData::IndividualOutput(items) => {
                let ghost all = items@;
                let mut paths: Vec<String> = Vec::new();
                let mut inputs: Vec<Json> = Vec::new();
                for item in it: items
                    invariant
                        it.seq() == all,
                        paths.len() == it.index(),
                        inputs.len() == it.index(),
                        forall|k: int|
                            0 <= k < paths.len() ==> #[trigger] paths[k] == all[k].path && inputs[k]
                                == all[k].data,
                {
                    paths.push(item.path);
                    inputs.push(item.data);
                }
                (Output::IndividualOutput(paths), inputs)
            },
        }
    }
}

} // verus!
