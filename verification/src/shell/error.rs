//! What can go wrong with a `shell` job.

use vstd::prelude::*;
use vstd::string::StringExecFns;
use crate::query;
use crate::reporting::{error_chain, report, spec_report, ErrorExt};
use crate::text::{decimal, lines_of, no_lines, one_line, spec_decimal, spec_listing};
use crate::utils::{FromLost, JoinFailure};
use crate::web_resource::index;

verus! {

/// An error in the configuration of the job's query
#[derive(Debug, Clone, Copy, PartialEq, Eq, Structural)]
pub enum QueryConfigError {
    /// An option without a default value was not given
    Builder(query::QueryBuilderError),
    /// The `--one` option was given, but is not supported
    One,
}

impl QueryConfigError {
    /// The text of this error.
    pub open spec fn spec_message(self) -> &'static str {
        match self {
            QueryConfigError::Builder(_) => "invalid shell query configuration",
            QueryConfigError::One => "shell does not support --one",
        }
    }

    /// Says what is wrong with the query's configuration.
    pub fn message(self) -> (text: &'static str)
        ensures
            text == self.spec_message(),
    {
        match self {
            QueryConfigError::Builder(_) => "invalid shell query configuration",
            QueryConfigError::One => "shell does not support --one",
        }
    }
}

impl ErrorExt for QueryConfigError {
    open spec fn spec_text(&self) -> Seq<char> {
        self.spec_message()@
    }

    open spec fn spec_causes(&self) -> Seq<Seq<char>> {
        match *self {
            QueryConfigError::Builder(inner) => seq![inner.spec_message()@],
            QueryConfigError::One => Seq::empty(),
        }
    }

    fn text(&self) -> (text: String) {
        self.message().to_owned()
    }

    fn causes(&self) -> (lines: Vec<String>) {
        match self {
            QueryConfigError::Builder(inner) => one_line(inner.message()),
            QueryConfigError::One => no_lines(),
        }
    }
}

/// A problem with the preprocessor's configuration
#[derive(Debug, Clone, PartialEq, Eq)]
pub enum ManifestError {
    /// The provided configuration is not valid for a shell job, with the
    /// parser's account of it.
    Manifest(String),
    /// An error in the configuration of the job's query
    Query(QueryConfigError),
}

impl ManifestError {
    /// The text of this error.
    pub open spec fn spec_message(self) -> &'static str {
        match self {
            ManifestError::Manifest(_) => "invalid shell configuration",
            ManifestError::Query(inner) => inner.spec_message(),
        }
    }

    /// Says what is wrong with the job's configuration.
    pub fn message(&self) -> (text: &'static str)
        ensures
            text == self.spec_message(),
    {
        match self {
            ManifestError::Manifest(_) => "invalid shell configuration",
            ManifestError::Query(inner) => inner.message(),
        }
    }
}

impl ErrorExt for ManifestError {
    open spec fn spec_text(&self) -> Seq<char> {
        self.spec_message()@
    }

    open spec fn spec_causes(&self) -> Seq<Seq<char>> {
        match *self {
            ManifestError::Manifest(why) => seq![why@],
            ManifestError::Query(inner) => inner.spec_causes(),
        }
    }

    fn text(&self) -> (text: String) {
        self.message().to_owned()
    }

    fn causes(&self) -> (lines: Vec<String>) {
        match self {
            ManifestError::Manifest(why) => one_line(why.as_str()),
            ManifestError::Query(inner) => inner.causes(),
        }
    }
}

/// A problem with using the index of command inputs
#[derive(Debug, Clone, PartialEq, Eq)]
pub enum IndexError {
    /// I/O error while accessing the index file, with the system's account of it.
    Io(String),
    /// Unexpected version: must be 1
    Version(usize),
    /// The index file's contents could not be parsed, with the parser's account of it.
    Parse(String),
    /// The index could not be written as text, with the writer's account of it.
    Write(String),
}

impl IndexError {
    /// The same problem, as a problem of a shell job.
    pub open spec fn spec_from(error: index::IndexError) -> Self {
        match error {
            index::IndexError::Io(why) => IndexError::Io(why),
            index::IndexError::Version(found) => IndexError::Version(found),
            index::IndexError::Parse(why) => IndexError::Parse(why),
            index::IndexError::Write(why) => IndexError::Write(why),
        }
    }

    /// Takes a problem with an index as a problem of a shell job.
    pub fn from_index(error: index::IndexError) -> (converted: Self)
        ensures
            converted == Self::spec_from(error),
    {
        match error {
            index::IndexError::Io(why) => IndexError::Io(why),
            index::IndexError::Version(found) => IndexError::Version(found),
            index::IndexError::Parse(why) => IndexError::Parse(why),
            index::IndexError::Write(why) => IndexError::Write(why),
        }
    }

    /// The text of this error.
    pub open spec fn spec_message(self) -> Seq<char> {
        match self {
            IndexError::Io(_) => "shell index file could not be read or written"@,
            IndexError::Version(found) => "expected shell index file version 1, was "@
                + spec_decimal(found as nat),
            IndexError::Parse(_) => "invalid shell index file content"@,
            IndexError::Write(_) => "shell index: TOML writing error"@,
        }
    }

    /// Says what went wrong with the index.
    pub fn message(&self) -> (text: String)
        ensures
            text@ == self.spec_message(),
    {
        match self {
            IndexError::Io(_) => "shell index file could not be read or written".to_owned(),
            IndexError::Version(found) => {
                let mut text = "expected shell index file version 1, was ".to_owned();
                text.append(decimal(*found).as_str());
                text
            },
            IndexError::Parse(_) => "invalid shell index file content".to_owned(),
            IndexError::Write(_) => "shell index: TOML writing error".to_owned(),
        }
    }
}

impl ErrorExt for IndexError {
    open spec fn spec_text(&self) -> Seq<char> {
        self.spec_message()
    }

    open spec fn spec_causes(&self) -> Seq<Seq<char>> {
        match *self {
            IndexError::Io(why) => seq![why@],
            IndexError::Version(_) => Seq::empty(),
            IndexError::Parse(why) => seq![why@],
            IndexError::Write(why) => seq![why@],
        }
    }

    fn text(&self) -> (text: String) {
        self.message()
    }

    fn causes(&self) -> (lines: Vec<String>) {
        match self {
            IndexError::Io(why) => one_line(why.as_str()),
            IndexError::Version(_) => no_lines(),
            IndexError::Parse(why) => one_line(why.as_str()),
            IndexError::Write(why) => one_line(why.as_str()),
        }
    }
}

/// An error while executing a shell command
#[derive(Debug, Clone, PartialEq, Eq)]
pub enum CommandError {
    /// An error running or communication with a child process, in the system's words.
    Process(String),
    /// An unsuccessful child exit code, as the system shows it.
    ExitStatus(String),
    /// The command input or output was not valid, with the parser's account of it.
    Json(String),
    /// The command did not return an array of the correct length
    Array,
    /// An error while waiting for the command to finish
    Join(JoinFailure),
}

impl CommandError {
    /// The text of this error.
    pub open spec fn spec_message(self) -> Seq<char> {
        match self {
            CommandError::Process(why) => why@,
            CommandError::ExitStatus(status) => "the command failed: "@ + status@,
            CommandError::Json(_) => "command input or output was not valid JSON or did not fit the expected format"@,
            CommandError::Array => "the command did not return an array of the correct length"@,
            CommandError::Join(_) => "waiting for a command task failed"@,
        }
    }

    /// Says what went wrong with the command.
    pub fn message(&self) -> (text: String)
        ensures
            text@ == self.spec_message(),
    {
        match self {
            CommandError::Process(why) => why.clone(),
            CommandError::ExitStatus(status) => {
                let mut text = "the command failed: ".to_owned();
                text.append(status.as_str());
                text
            },
            CommandError::Json(_) => "command input or output was not valid JSON or did not fit the expected format".to_owned(),
            CommandError::Array => "the command did not return an array of the correct length".to_owned(),
            CommandError::Join(_) => "waiting for a command task failed".to_owned(),
        }
    }
}

impl ErrorExt for CommandError {
    open spec fn spec_text(&self) -> Seq<char> {
        self.spec_message()
    }

    open spec fn spec_causes(&self) -> Seq<Seq<char>> {
        match *self {
            CommandError::Json(why) => seq![why@],
            CommandError::Join(failure) => seq![failure.reason@],
            _ => Seq::empty(),
        }
    }

    fn text(&self) -> (text: String) {
        self.message()
    }

    fn causes(&self) -> (lines: Vec<String>) {
        match self {
            CommandError::Json(why) => one_line(why.as_str()),
            CommandError::Join(failure) => one_line(failure.reason.as_str()),
            _ => no_lines(),
        }
    }
}

impl FromLost<()> for CommandError {
    open spec fn lost(id: (), failure: JoinFailure) -> Self {
        CommandError::Join(failure)
    }

    fn from_lost(id: (), failure: JoinFailure) -> (error: Self) {
        CommandError::Join(failure)
    }
}

/// The chain of a command error, as lines of text.
pub open spec fn command_chain(error: CommandError) -> Seq<char> {
    spec_listing(error.spec_text(), Seq::empty(), error.spec_causes())
}

/// The chains of some command errors.
pub open spec fn command_chains(errors: Seq<CommandError>) -> Seq<Seq<char>> {
    Seq::new(errors.len(), |i: int| command_chain(errors[i]))
}

/// One or more commands did not execute successfully
#[derive(Debug, Clone, PartialEq, Eq)]
pub struct MultipleCommandError {
    errors: Vec<CommandError>,
}

impl View for MultipleCommandError {
    type V = Seq<CommandError>;

    /// The errors of the commands that failed.
    closed spec fn view(&self) -> Seq<CommandError> {
        self.errors@
    }
}

impl MultipleCommandError {
    /// Creates a new error
    pub fn new(errors: Vec<CommandError>) -> (error: Self)
        ensures
            error@ == errors@,
    {
        Self { errors }
    }

    /// The errors of the commands that failed.
    pub fn errors(&self) -> (errors: &Vec<CommandError>)
        ensures
            errors@ == self@,
    {
        &self.errors
    }

    /// The text of this error: a heading, and below it the chain of each
    /// failed command, moved in by two blanks.
    pub open spec fn spec_message(self) -> Seq<char> {
        spec_report("at least one command failed:"@, command_chains(self@), "  "@)
    }

    /// Says which commands failed.
    pub fn message(&self) -> (text: String)
        ensures
            text@ == self.spec_message(),
    {
        let mut chains: Vec<String> = Vec::new();
        let mut i: usize = 0;
        assert(lines_of(chains@) =~= command_chains(self.errors@.subrange(0, 0)));
        while i < self.errors.len()
            invariant
                i <= self.errors.len(),
                chains.len() == i,
                lines_of(chains@) == command_chains(self.errors@.subrange(0, i as int)),
            decreases self.errors.len() - i,
        {
            let ghost before = chains@;
            let chain = error_chain(&self.errors[i]).render();
            assert(chain@ == command_chain(self.errors@[i as int]));
            chains.push(chain);
            i = i + 1;
            assert forall|k: int| 0 <= k < i implies lines_of(chains@)[k] == command_chains(
                self.errors@.subrange(0, i as int),
            )[k] by {
                if k < i - 1 {
                    assert(lines_of(before)[k] == command_chains(
                        self.errors@.subrange(0, i - 1),
                    )[k]);
                }
            }
            assert(lines_of(chains@) =~= command_chains(self.errors@.subrange(0, i as int)));
        }
        assert(self.errors@.subrange(0, i as int) =~= self.errors@);
        report("at least one command failed:", &chains, "  ")
    }
}

/// An error while writing a command result, in the system's words
pub type FileError = String;

/// One or more files could not be written
#[derive(Debug, Clone, PartialEq, Eq)]
pub struct MultipleFileError {
    errors: Vec<FileError>,
}

impl View for MultipleFileError {
    type V = Seq<FileError>;

    /// The errors of the files that could not be written.
    closed spec fn view(&self) -> Seq<FileError> {
        self.errors@
    }
}

impl MultipleFileError {
    /// Creates a new error
    pub fn new(errors: Vec<FileError>) -> (error: Self)
        ensures
            error@ == errors@,
    {
        Self { errors }
    }

    /// The errors of the files that could not be written.
    pub fn errors(&self) -> (errors: &Vec<FileError>)
        ensures
            errors@ == self@,
    {
        &self.errors
    }

    /// The text of this error: a heading, and below it the error of each file
    /// that could not be written, moved in by two blanks.
    pub open spec fn spec_message(self) -> Seq<char> {
        spec_report("at least one result could not be written:"@, lines_of(self@), "  "@)
    }

    /// Says which files could not be written.
    pub fn message(&self) -> (text: String)
        ensures
            text@ == self.spec_message(),
    {
        report("at least one result could not be written:", &self.errors, "  ")
    }
}

/// An error during the shell job's execution
#[derive(Debug, Clone, PartialEq, Eq)]
pub enum ExecutionError {
    /// A problem with using the index of command inputs
    Index(IndexError),
    /// An error while executing the job's query
    Query(query::Error),
    /// An error while executing a shell command
    Command(MultipleCommandError),
    /// An error while writing a command result
    File(MultipleFileError),
}

impl ExecutionError {
    /// A single failed command, as the failure of a job.
    pub fn from_command(error: CommandError) -> (converted: Self)
        ensures
            converted matches ExecutionError::Command(failed) && failed@ == seq![error],
    {
        let mut errors: Vec<CommandError> = Vec::new();
        errors.push(error);
        ExecutionError::Command(MultipleCommandError::new(errors))
    }

    /// A single file that could not be written, as the failure of a job.
    pub fn from_file(error: FileError) -> (converted: Self)
        ensures
            converted matches ExecutionError::File(failed) && failed@ == seq![error],
    {
        let mut errors: Vec<FileError> = Vec::new();
        errors.push(error);
        ExecutionError::File(MultipleFileError::new(errors))
    }

    /// The text of this error: that of the error it stands for.
    pub open spec fn spec_message(self) -> Seq<char> {
        match self {
            ExecutionError::Index(inner) => inner.spec_message(),
            ExecutionError::Query(inner) => inner.spec_message(),
            ExecutionError::Command(inner) => inner.spec_message(),
            ExecutionError::File(inner) => inner.spec_message(),
        }
    }

    /// Says why the job's execution failed.
    pub fn message(&self) -> (text: String)
        ensures
            text@ == self.spec_message(),
    {
        match self {
            ExecutionError::Index(inner) => inner.message(),
            ExecutionError::Query(inner) => inner.message(),
            ExecutionError::Command(inner) => inner.message(),
            ExecutionError::File(inner) => inner.message(),
        }
    }
}

impl ErrorExt for ExecutionError {
    open spec fn spec_text(&self) -> Seq<char> {
        self.spec_message()
    }

    open spec fn spec_causes(&self) -> Seq<Seq<char>> {
        match *self {
            ExecutionError::Index(inner) => inner.spec_causes(),
            ExecutionError::Query(inner) => inner.spec_causes(),
            ExecutionError::Command(_) => Seq::empty(),
            ExecutionError::File(_) => Seq::empty(),
        }
    }

    fn text(&self) -> (text: String) {
        self.message()
    }

    fn causes(&self) -> (lines: Vec<String>) {
        match self {
            ExecutionError::Index(inner) => inner.causes(),
            ExecutionError::Query(inner) => inner.causes(),
            ExecutionError::Command(_) => no_lines(),
            ExecutionError::File(_) => no_lines(),
        }
    }
}

/// A result with a config error in it
pub type ManifestResult<T> = Result<T, ManifestError>;

/// A result with an execution error in it
pub type ExecutionResult<T> = Result<T, ExecutionError>;

} // verus!
