//! Error types for the overall preprocessing run

use vstd::prelude::*;
use vstd::string::StringExecFns;
use crate::manifest;
use crate::preprocessor::{ConfigError, ExecutionError};
use crate::reporting::ErrorExt;
use crate::text::{line_before, lines_of, listing, no_lines, spec_listing};

verus! {

/// The line of one job's configuration error: the job's name in brackets, then the error.
pub open spec fn config_line(entry: (String, ConfigError)) -> Seq<char> {
    "["@ + entry.0@ + "] "@ + entry.1.spec_message()
}

/// The lines of some jobs' configuration errors.
pub open spec fn config_lines(errors: Seq<(String, ConfigError)>) -> Seq<Seq<char>> {
    Seq::new(errors.len(), |i: int| config_line(errors[i]))
}

/// One or more preprocessors were not configured correctly
#[derive(Debug, Clone, PartialEq, Eq)]
pub struct MultiplePreprocessorConfigError {
    errors: Vec<(String, ConfigError)>,
}

impl View for MultiplePreprocessorConfigError {
    type V = Seq<(String, ConfigError)>;

    /// The jobs that were not configured correctly, each with its error.
    closed spec fn view(&self) -> Seq<(String, ConfigError)> {
        self.errors@
    }
}

impl MultiplePreprocessorConfigError {
    /// Creates a new error
    pub fn new(errors: Vec<(String, ConfigError)>) -> (error: Self)
        ensures
            error@ == errors@,
    {
        Self { errors }
    }

    /// The jobs that were not configured correctly, each with its error.
    pub fn errors(&self) -> (errors: &Vec<(String, ConfigError)>)
        ensures
            errors@ == self@,
    {
        &self.errors
    }

    /// The text of this error: a heading, and below it one line for each job.
    pub open spec fn spec_message(self) -> Seq<char> {
        spec_listing("at least one job's configuration failed:"@, "  "@, config_lines(self@))
    }

    /// Says which jobs were not configured correctly.
    pub fn message(&self) -> (text: String)
        ensures
            text@ == self.spec_message(),
    {
        let mut items: Vec<String> = Vec::new();
        let mut i: usize = 0;
        assert(lines_of(items@) =~= config_lines(self.errors@.subrange(0, 0)));
        while i < self.errors.len()
            invariant
                i <= self.errors.len(),
                items.len() == i,
                lines_of(items@) == config_lines(self.errors@.subrange(0, i as int)),
            decreases self.errors.len() - i,
        {
            let ghost before = items@;
            let mut line = "[".to_owned();
            line.append(self.errors[i].0.as_str());
            line.append("] ");
            line.append(self.errors[i].1.message().as_str());
            assert(line@ == config_line(self.errors@[i as int]));
            items.push(line);
            i = i + 1;
            assert forall|k: int| 0 <= k < i implies lines_of(items@)[k] == config_lines(
                self.errors@.subrange(0, i as int),
            )[k] by {
                if k < i - 1 {
                    assert(lines_of(before)[k] == config_lines(self.errors@.subrange(0, i - 1))[k]);
                }
            }
            assert(lines_of(items@) =~= config_lines(self.errors@.subrange(0, i as int)));
        }
        assert(self.errors@.subrange(0, i as int) =~= self.errors@);
        listing("at least one job's configuration failed:", "  ", &items)
    }
}

/// The lines of some jobs' execution errors.
pub open spec fn execution_lines(errors: Seq<ExecutionError>) -> Seq<Seq<char>> {
    Seq::new(errors.len(), |i: int| errors[i].spec_message())
}

/// One or more preprocessors failed during execution
#[derive(Debug, Clone, PartialEq, Eq)]
pub struct MultiplePreprocessorExecutionError {
    errors: Vec<ExecutionError>,
}

impl View for MultiplePreprocessorExecutionError {
    type V = Seq<ExecutionError>;

    /// The errors of the jobs that failed.
    closed spec fn view(&self) -> Seq<ExecutionError> {
        self.errors@
    }
}

impl MultiplePreprocessorExecutionError {
    /// Creates a new error
    pub fn new(errors: Vec<ExecutionError>) -> (error: Self)
        ensures
            error@ == errors@,
    {
        Self { errors }
    }

    /// The errors of the jobs that failed.
    pub fn errors(&self) -> (errors: &Vec<ExecutionError>)
        ensures
            errors@ == self@,
    {
        &self.errors
    }

    /// The text of this error: a heading, and below it one line for each job.
    pub open spec fn spec_message(self) -> Seq<char> {
        spec_listing("at least one job's execution failed:"@, "  "@, execution_lines(self@))
    }

    /// Says which jobs failed.
    pub fn message(&self) -> (text: String)
        ensures
            text@ == self.spec_message(),
    {
        let mut items: Vec<String> = Vec::new();
        let mut i: usize = 0;
        assert(lines_of(items@) =~= execution_lines(self.errors@.subrange(0, 0)));
        while i < self.errors.len()
            invariant
                i <= self.errors.len(),
                items.len() == i,
                lines_of(items@) == execution_lines(self.errors@.subrange(0, i as int)),
            decreases self.errors.len() - i,
        {
            let ghost before = items@;
            let line = self.errors[i].message();
            items.push(line);
            i = i + 1;
            assert forall|k: int| 0 <= k < i implies lines_of(items@)[k] == execution_lines(
                self.errors@.subrange(0, i as int),
            )[k] by {
                if k < i - 1 {
                    assert(lines_of(before)[k] == execution_lines(
                        self.errors@.subrange(0, i - 1),
                    )[k]);
                }
            }
            assert(lines_of(items@) =~= execution_lines(self.errors@.subrange(0, i as int)));
        }
        assert(self.errors@.subrange(0, i as int) =~= self.errors@);
        listing("at least one job's execution failed:", "  ", &items)
    }
}

/// What can end a preprocessing run
#[derive(Debug, Clone, PartialEq, Eq)]
pub enum Error {
    /// The typst.toml file could not be read
    Manifest(manifest::Error),
    /// A preprocessor is not configured correctly
    PreprocessorConfig(MultiplePreprocessorConfigError),
    /// A preprocessor's execution failed
    PreprocessorExecution(MultiplePreprocessorExecutionError),
}

impl Error {
    /// The text of this error.
    pub open spec fn spec_message(self) -> Seq<char> {
        match self {
            Error::Manifest(_) => "prequery configuration could not be read from typst.toml"@,
            Error::PreprocessorConfig(inner) => inner.spec_message(),
            Error::PreprocessorExecution(inner) => inner.spec_message(),
        }
    }

    /// Says why the run ended.
    pub fn message(&self) -> (text: String)
        ensures
            text@ == self.spec_message(),
    {
        match self {
            Error::Manifest(_) => "prequery configuration could not be read from typst.toml".to_owned(),
            Error::PreprocessorConfig(inner) => inner.message(),
            Error::PreprocessorExecution(inner) => inner.message(),
        }
    }
}

impl ErrorExt for Error {
    open spec fn spec_text(&self) -> Seq<char> {
        self.spec_message()
    }

    open spec fn spec_causes(&self) -> Seq<Seq<char>> {
        match *self {
            Error::Manifest(inner) => seq![inner.spec_message()@] + inner.spec_causes(),
            Error::PreprocessorConfig(_) => Seq::empty(),
            Error::PreprocessorExecution(_) => Seq::empty(),
        }
    }

    fn text(&self) -> (text: String) {
        self.message()
    }

    fn causes(&self) -> (lines: Vec<String>) {
        match self {
            Error::Manifest(inner) => line_before(inner.message(), inner.causes()),
            Error::PreprocessorConfig(_) => no_lines(),
            Error::PreprocessorExecution(_) => no_lines(),
        }
    }
}

} // verus!
