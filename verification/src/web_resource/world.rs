//! The surroundings that a `web-resource` job runs in.

use vstd::prelude::*;
use crate::query;
use super::error::{DownloadError, IndexError};
use super::index::{Document, Stored};
use super::query_data::QueryData;

verus! {

/// The context for executing a WebResource job. Defines how downloading and saving files work, and
/// thus allows mocking. A job promises nothing about what a world does, and is
/// ready for whatever a world answers.
pub trait World {
    /// The project root, below which all resources are saved.
    fn root(&self) -> String;

    /// Writes a line to the log of progress updates.
    fn log(&self, line: &str);

    /// Executes the query and gathers the resources that the document asks for.
    fn query(&self, query: &query::Query) -> Result<QueryData, query::Error>;

    /// Looks for the web resource index at the given path, interpreted relative to the typst.toml
    /// file, and says what is stored there.
    fn read_index(&self, path: &str) -> Stored;

    /// Stores the document of the web resource index at the given path.
    fn write_index(&self, path: &str, document: &Document) -> Result<(), IndexError>;

    /// Checks whether a resource at the given path exists.
    fn resource_exists(&self, location: &str) -> bool;

    /// Performs the download of a URL's contents to a file.
    fn download(&self, location: &str, url: &str) -> Result<(), DownloadError>;
}

} // verus!
