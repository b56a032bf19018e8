//! What can go wrong with a `web-resource` job.

use vstd::prelude::*;
use crate::query;
use crate::reporting::ErrorExt;
use crate::text::{lines_of, listing, no_lines, one_line, spec_listing};
use crate::utils::{FromLost, JoinFailure};
pub use super::index::IndexError;

verus! {

/// An error in the configuration of the job's query
#[derive(Debug, Clone, Copy, PartialEq, Eq, Structural)]
pub enum QueryConfigError {
    /// An option without a default value was not given
    Builder(query::QueryBuilderError),
    /// The `--one` option was given, but is not supported
    One,
}

impl QueryConfigError {
    /// The text of this error.
    pub open spec fn spec_message(self) -> &'static str {
        match self {
            QueryConfigError::Builder(_) => "invalid web-resource query configuration",
            QueryConfigError::One => "web-resource does not support --one",
        }
    }

    /// Says what is wrong with the query's configuration.
    pub fn message(self) -> (text: &'static str)
        ensures
            text == self.spec_message(),
    {
        match self {
            QueryConfigError::Builder(_) => "invalid web-resource query configuration",
            QueryConfigError::One => "web-resource does not support --one",
        }
    }
}

/// A problem with the preprocessor's configuration
#[derive(Debug, Clone, PartialEq, Eq)]
pub enum ManifestError {
    /// The provided configuration is not valid for a web-resource job, with the
    /// parser's account of it.
    Manifest(String),
    /// An error in the configuration of the job's query
    Query(QueryConfigError),
}

impl ManifestError {
    /// The text of this error.
    pub open spec fn spec_message(self) -> &'static str {
        match self {
            ManifestError::Manifest(_) => "invalid web-resource configuration",
            ManifestError::Query(inner) => inner.spec_message(),
        }
    }

    /// Says what is wrong with the job's configuration.
    pub fn message(&self) -> (text: &'static str)
        ensures
            text == self.spec_message(),
    {
        match self {
            ManifestError::Manifest(_) => "invalid web-resource configuration",
            ManifestError::Query(inner) => inner.message(),
        }
    }
}

/// An error during downloading a resource from the web
#[derive(Debug, Clone, PartialEq, Eq)]
pub enum DownloadError {
    /// A network error during the download, with the client's account of it.
    Network(String),
    /// An error accessing the local file for the resource, with an account of it.
    File(String),
    /// An error while waiting for the download to finish
    Join(JoinFailure),
}

impl DownloadError {
    /// The text of this error.
    pub open spec fn spec_message(self) -> &'static str {
        match self {
            DownloadError::Network(_) => "network I/O error during download",
            DownloadError::File(_) => "file I/O error during download",
            DownloadError::Join(_) => "waiting for a download task failed",
        }
    }

    /// Says what went wrong with the download.
    pub fn message(&self) -> (text: &'static str)
        ensures
            text == self.spec_message(),
    {
        match self {
            DownloadError::Network(_) => "network I/O error during download",
            DownloadError::File(_) => "file I/O error during download",
            DownloadError::Join(_) => "waiting for a download task failed",
        }
    }

    /// The account of what lies behind this error.
    pub fn source(&self) -> (cause: &String)
        ensures
            *cause == match *self {
                DownloadError::Network(why) => why,
                DownloadError::File(why) => why,
                DownloadError::Join(failure) => failure.reason,
            },
    {
        match self {
            DownloadError::Network(why) => why,
            DownloadError::File(why) => why,
            DownloadError::Join(failure) => &failure.reason,
        }
    }
}

impl FromLost<()> for DownloadError {
    open spec fn lost(id: (), failure: JoinFailure) -> Self {
        DownloadError::Join(failure)
    }

    fn from_lost(id: (), failure: JoinFailure) -> (error: Self) {
        DownloadError::Join(failure)
    }
}

/// The texts of a sequence of download errors.
pub open spec fn download_messages(errors: Seq<DownloadError>) -> Seq<Seq<char>> {
    Seq::new(errors.len(), |i: int| errors[i].spec_message()@)
}

/// One or more downloads failed
#[derive(Debug, Clone, PartialEq, Eq)]
pub struct MultipleDownloadError {
    errors: Vec<DownloadError>,
}

impl View for MultipleDownloadError {
    type V = Seq<DownloadError>;

    /// The errors of the downloads that failed, in the order in which they were collected.
    closed spec fn view(&self) -> Seq<DownloadError> {
        self.errors@
    }
}

impl MultipleDownloadError {
    /// Creates a new error
    pub fn new(errors: Vec<DownloadError>) -> (error: Self)
        ensures
            error@ == errors@,
    {
        Self { errors }
    }

    /// The errors of the downloads that failed.
    pub fn errors(&self) -> (errors: &Vec<DownloadError>)
        ensures
            errors@ == self@,
    {
        &self.errors
    }

    /// The text of this error: a heading, and below it one line for each failed
    /// download.
    pub open spec fn spec_message(self) -> Seq<char> {
        spec_listing("at least one download failed:"@, "  "@, download_messages(self@))
    }

    /// Says which downloads failed.
    pub fn message(&self) -> (text: String)
        ensures
            text@ == self.spec_message(),
    {
        let mut items: Vec<String> = Vec::new();
        let mut i: usize = 0;
        while i < self.errors.len()
            invariant
                i <= self.errors.len(),
                items.len() == i,
                lines_of(items@) == download_messages(self.errors@.subrange(0, i as int)),
            decreases self.errors.len() - i,
        {
            let ghost before = items@;
            let line = self.errors[i].message().to_owned();
            assert(line@ == self.errors@[i as int].spec_message()@);
            items.push(line);
            i = i + 1;
            assert forall|k: int| 0 <= k < i implies lines_of(items@)[k] == download_messages(
                self.errors@.subrange(0, i as int),
            )[k] by {
                if k < i - 1 {
                    assert(lines_of(before)[k] == download_messages(
                        self.errors@.subrange(0, i - 1),
                    )[k]);
                }
            }
            assert(lines_of(items@) =~= download_messages(self.errors@.subrange(0, i as int)));
        }
        assert(self.errors@.subrange(0, i as int) =~= self.errors@);
        listing("at least one download failed:", "  ", &items)
    }
}

/// An error during the web-resource job's execution
#[derive(Debug, Clone, PartialEq, Eq)]
pub enum ExecutionError {
    /// A problem with using the index of downloaded resources
    Index(IndexError),
    /// An error while executing the job's query
    Query(query::Error),
    /// An error during downloading a resource from the web
    Download(MultipleDownloadError),
}

impl ExecutionError {
    /// The text of this error: that of the error it stands for.
    pub open spec fn spec_message(self) -> Seq<char> {
        match self {
            ExecutionError::Index(inner) => inner.spec_message(),
            ExecutionError::Query(inner) => inner.spec_message(),
            ExecutionError::Download(inner) => inner.spec_message(),
        }
    }

    /// Says why the job's execution failed.
    pub fn message(&self) -> (text: String)
        ensures
            text@ == self.spec_message(),
    {
        match self {
            ExecutionError::Index(inner) => inner.message(),
            ExecutionError::Query(inner) => inner.message(),
            ExecutionError::Download(inner) => inner.message(),
        }
    }
}

/// A result with a config error in it
pub type ManifestResult<T> = Result<T, ManifestError>;

/// A result with an execution error in it
pub type ExecutionResult<T> = Result<T, ExecutionError>;

impl ErrorExt for QueryConfigError {
    open spec fn spec_text(&self) -> Seq<char> {
        self.spec_message()@
    }

    open spec fn spec_causes(&self) -> Seq<Seq<char>> {
        match *self {
            QueryConfigError::Builder(inner) => seq![inner.spec_message()@],
            QueryConfigError::One => Seq::empty(),
        }
    }

    fn text(&self) -> (text: String) {
        self.message().to_owned()
    }

    fn causes(&self) -> (lines: Vec<String>) {
        match self {
            QueryConfigError::Builder(inner) => one_line(inner.message()),
            QueryConfigError::One => no_lines(),
        }
    }
}

impl ErrorExt for ManifestError {
    open spec fn spec_text(&self) -> Seq<char> {
        self.spec_message()@
    }

    open spec fn spec_causes(&self) -> Seq<Seq<char>> {
        match *self {
            ManifestError::Manifest(why) => seq![why@],
            ManifestError::Query(inner) => inner.spec_causes(),
        }
    }

    fn text(&self) -> (text: String) {
        self.message().to_owned()
    }

    fn causes(&self) -> (lines: Vec<String>) {
        match self {
            ManifestError::Manifest(why) => one_line(why.as_str()),
            ManifestError::Query(inner) => inner.causes(),
        }
    }
}

impl ErrorExt for DownloadError {
    open spec fn spec_text(&self) -> Seq<char> {
        self.spec_message()@
    }

    open spec fn spec_causes(&self) -> Seq<Seq<char>> {
        match *self {
            DownloadError::Network(why) => seq![why@],
            DownloadError::File(why) => seq![why@],
            DownloadError::Join(failure) => seq![failure.reason@],
        }
    }

    fn text(&self) -> (text: String) {
        self.message().to_owned()
    }

    fn causes(&self) -> (lines: Vec<String>) {
        one_line(self.source().as_str())
    }
}

impl ErrorExt for MultipleDownloadError {
    open spec fn spec_text(&self) -> Seq<char> {
        self.spec_message()
    }

    open spec fn spec_causes(&self) -> Seq<Seq<char>> {
        Seq::empty()
    }

    fn text(&self) -> (text: String) {
        self.message()
    }

    fn causes(&self) -> (lines: Vec<String>) {
        no_lines()
    }
}

impl ErrorExt for ExecutionError {
    open spec fn spec_text(&self) -> Seq<char> {
        self.spec_message()
    }

    open spec fn spec_causes(&self) -> Seq<Seq<char>> {
        match *self {
            ExecutionError::Index(inner) => inner.spec_causes(),
            ExecutionError::Query(inner) => inner.spec_causes(),
            ExecutionError::Download(inner) => inner.spec_causes(),
        }
    }

    fn text(&self) -> (text: String) {
        self.message()
    }

    fn causes(&self) -> (lines: Vec<String>) {
        match self {
            ExecutionError::Index(inner) => inner.causes(),
            ExecutionError::Query(inner) => inner.causes(),
            ExecutionError::Download(inner) => inner.causes(),
        }
    }
}

} // verus!
