//! The surroundings that a `shell` job runs in.

use vstd::prelude::*;
use crate::query;
use crate::web_resource::index::{Document, Stored};
use super::error::{CommandError, FileError, IndexError};
use super::query_data::QueryData;

verus! {

/// The context for executing a Shell job. Defines how running commands and saving files work, and
/// thus allows mocking. A job promises nothing about what a world does, and is
/// ready for whatever a world answers.
pub trait World {
    /// Writes a line to the log of progress updates.
    fn log(&self, line: &str);

    /// Executes the query and gathers the inputs that the document hands over.
    fn query(&self, query: &query::Query) -> Result<QueryData, query::Error>;

    /// Looks for the shell index at the given path, interpreted relative to the typst.toml file,
    /// and says what is stored there.
    fn read_index(&self, path: &str) -> Stored;

    /// Stores the document of the shell index at the given path.
    fn write_index(&self, path: &str, document: &Document) -> Result<(), IndexError>;

    /// Runs a shell command, feeds it the input and hands back what it wrote.
    fn run_command(&self, command: &Vec<String>, input: &[u8]) -> Result<Vec<u8>, CommandError>;

    /// Writes a command's result to a file.
    fn write_output(&self, location: &str, output: &[u8]) -> Result<(), FileError>;
}

} // verus!
