//! Configuration types

use std::collections::HashMap;
use vstd::prelude::*;
use crate::error::MultiplePreprocessorConfigError;
use crate::preprocessor::{ConfigError, PreprocessorDefinition, PreprocessorMap};
use crate::reporting::ErrorExt;
use crate::utils::{all_or_errors, lemma_partition_sizes};
use crate::text::{no_lines, one_line};

verus! {

/// Query configuration. All fields here are optional, as preprocessors can define their own
/// defaults.
#[derive(Debug, Clone, PartialEq, Eq)]
pub struct Query {
    /// The selector to be queried, e.g. `<label>`
    pub selector: Option<String>,
    /// The field (`--field`) to be queried from the selector (with metadata elements, this is
    /// usually `value`). `Some(None)` asks for no field at all.
    pub field: Option<Option<String>>,
    /// Whether only one (`--one`) query result is expected and should be returned
    pub one: Option<bool>,
    /// Any additional inputs (`--input`) to be given to the queried document. Regardless of these
    /// settings, `prequery-fallback` is always set to `true` during queries.
    pub inputs: HashMap<String, String>,
}

impl Default for Query {
    /// A query configuration that sets nothing.
    fn default() -> (query: Self)
        ensures
            query.selector is None,
            query.field is None,
            query.one is None,
            query.inputs@ == Map::<String, String>::empty(),
    {
        Query { selector: None, field: None, one: None, inputs: HashMap::new() }
    }
}

/// What a job's configuration says under `field`: `false` or a string.
#[derive(Debug, Clone, PartialEq, Eq)]
pub enum FieldSetting {
    /// A boolean was given.
    Flag(bool),
    /// A string was given.
    Name(String),
}

/// The `field` setting was `true`, which means nothing: a field is a string,
/// or `false` for no field.
#[derive(Debug, Clone, Copy, PartialEq, Eq, Structural)]
pub struct FieldIsTrue {}

impl Query {
    /// Reads a `field` setting: nothing given leaves the field open, `false`
    /// asks for no field, a string names the field, and `true` is refused.
    pub fn read_field(setting: Option<FieldSetting>) -> (field: Result<
        Option<Option<String>>,
        FieldIsTrue,
    >)
        ensures
            match setting {
                None => field == Ok::<Option<Option<String>>, FieldIsTrue>(None),
                Some(FieldSetting::Flag(true)) => field is Err,
                Some(FieldSetting::Flag(false)) => field == Ok::<
                    Option<Option<String>>,
                    FieldIsTrue,
                >(Some(None)),
                Some(FieldSetting::Name(name)) => field == Ok::<Option<Option<String>>, FieldIsTrue>(
                    Some(Some(name)),
                ),
            },
    {
        match setting {
            None => Ok(None),
            Some(FieldSetting::Flag(flag)) => if flag {
                Err(FieldIsTrue {  })
            } else {
                Ok(Some(None))
            },
            Some(FieldSetting::Name(name)) => Ok(Some(Some(name))),
        }
    }
}

/// A single preprocessing job. A job normally consists of executing the configured query and then
/// processing the result in some way, usually writing to files in the project root.
#[derive(Debug, Clone, PartialEq)]
pub struct Job<M> {
    /// The job's name (for human consumption, e.g. in logs)
    pub name: String,
    /// Identifier of the preprocessor that should be run
    pub kind: String,
    /// The query the preprocessor needs to run
    pub query: Query,
    /// Arbitrary additional manifest for the job, as yet unread
    pub manifest: M,
}

/// The complete prequery manifest as found in the `[tool.prequery]` section in `typst.toml`.
/// Usually, that section will be defined as multiple `[[tool.prequery.jobs]]` entries.
#[derive(Debug, Clone, PartialEq)]
pub struct PrequeryManifest<M> {
    /// The preprocessing jobs to execute
    pub jobs: Vec<Job<M>>,
}

/// Errors that can occur when reading a prequery manifest
#[derive(Debug, Clone, PartialEq, Eq)]
pub enum Error {
    /// An I/O error occurred reading the typst.toml file, with the system's account of it.
    Io(String),
    /// The prequery section is missing in typst.toml
    Missing,
    /// The prequery section contains invalid config data, with the parser's account of it.
    Invalid(String),
}

impl Error {
    /// The text of this error.
    pub open spec fn spec_message(self) -> &'static str {
        match self {
            Error::Io(_) => "typst.toml file could not be read",
            Error::Missing => "typst.toml does not contain `tool.prequery` section",
            Error::Invalid(_) => "typst.toml contains `tool.prequery` key, but it's not a valid preprocessor configuration",
        }
    }

    /// Says what is wrong with the manifest.
    pub fn message(&self) -> (text: &'static str)
        ensures
            text == self.spec_message(),
    {
        match self {
            Error::Io(_) => "typst.toml file could not be read",
            Error::Missing => "typst.toml does not contain `tool.prequery` section",
            Error::Invalid(_) => "typst.toml contains `tool.prequery` key, but it's not a valid preprocessor configuration",
        }
    }
}

impl ErrorExt for Error {
    open spec fn spec_text(&self) -> Seq<char> {
        self.spec_message()@
    }

    open spec fn spec_causes(&self) -> Seq<Seq<char>> {
        match *self {
            Error::Io(why) => seq![why@],
            Error::Missing => Seq::empty(),
            Error::Invalid(why) => seq![why@],
        }
    }

    fn text(&self) -> (text: String) {
        self.message().to_owned()
    }

    fn causes(&self) -> (lines: Vec<String>) {
        match self {
            Error::Io(why) => one_line(why.as_str()),
            Error::Missing => no_lines(),
            Error::Invalid(why) => one_line(why.as_str()),
        }
    }
}

impl<M> PrequeryManifest<M> {
    /// Tries to configure all preprocessors in this manifest. Fails if any preprocessors can not be
    /// configured, with the errors of all that can not. A job whose kind the
    /// map does not know can not be configured.
    pub fn get_preprocessors<D: PreprocessorDefinition<Manifest = M>>(
        self,
        preprocessors: &PreprocessorMap<D>,
    ) -> (configured: Result<Vec<D::Job>, MultiplePreprocessorConfigError>)
        ensures
            configured matches Ok(jobs) ==> jobs.len() == self.jobs.len(),
            configured matches Ok(jobs) ==> forall|i: int|
                0 <= i < self.jobs.len() ==> preprocessors.knows((#[trigger] self.jobs[i]).kind@),
            configured matches Err(error) ==> 0 < error@.len() <= self.jobs.len(),
    {
        let ghost jobs = self.jobs@;
        let mut results: Vec<Result<D::Job, (String, ConfigError)>> = Vec::new();
        for job in it: self.jobs
            invariant
                it.seq() == jobs,
                results.len() == it.index(),
                forall|i: int|
                    0 <= i < results.len() && !preprocessors.knows((#[trigger] jobs[i]).kind@)
                        ==> results[i] is Err,
        {
            let made = preprocessors.get(job);
            results.push(made);
        }
        proof {
            lemma_partition_sizes(results@);
            if exists|i: int| 0 <= i < jobs.len() && !preprocessors.knows((#[trigger] jobs[i]).kind@) {
                let i = choose|i: int|
                    0 <= i < jobs.len() && !preprocessors.knows((#[trigger] jobs[i]).kind@);
                assert(results@[i] is Err);
            }
        }
        match all_or_errors(results) {
            Ok(jobs) => Ok(jobs),
            Err(errors) => Err(MultiplePreprocessorConfigError::new(errors)),
        }
    }
}

} // verus!
