//! APIs for the implementation of preprocessors, and preprocessor management

use vstd::prelude::*;
use vstd::string::StringExecFns;
use crate::manifest;
use crate::reporting::{describes, error_chain, ErrorChain, ErrorExt};
use crate::text::{copy_lines, line_before, lines_of, no_lines, one_line, rank, Rank};
use crate::utils::{FromLost, JoinFailure};

verus! {

/// A dynamically typed error that is produced by a specific preprocessor:
/// what is left of it is its text and the texts of what lay behind it.
pub type DynError = ErrorChain;

impl ErrorExt for ErrorChain {
    open spec fn spec_text(&self) -> Seq<char> {
        self.message@
    }

    open spec fn spec_causes(&self) -> Seq<Seq<char>> {
        lines_of(self.sources@)
    }

    fn text(&self) -> (text: String) {
        self.message.clone()
    }

    fn causes(&self) -> (lines: Vec<String>) {
        copy_lines(&self.sources)
    }
}

/// A configured preprocessor that can be executed for its side effect
pub trait Preprocessor<W> {
    /// This preprocessor's name, which normally comes from the job's name.
    spec fn named(&self) -> String;

    /// This preprocessor's name, which normally comes from the job's name.
    fn name(&self) -> (name: String)
        ensures
            name@ == self.named()@,
    ;

    /// What a run in the given world brings about: how this preprocessor is
    /// `after` it, and how the run `ended`.
    spec fn runs(&self, after: &Self, world: &W, ended: Result<(), DynError>) -> bool;

    /// Executes this preprocessor in the given world.
    fn run(&mut self, world: &W) -> (ended: Result<(), DynError>)
        ensures
            old(self).runs(final(self), world, ended),
    ;
}

/// A problem with the preprocessor's configuration
#[derive(Debug, Clone, PartialEq, Eq)]
pub struct ManifestError {
    kind: String,
    source: DynError,
}

impl ManifestError {
    /// The kind of the job that was configured incorrectly.
    pub closed spec fn spec_kind(self) -> Seq<char> {
        self.kind@
    }

    /// What the preprocessor of that kind found wrong.
    pub closed spec fn spec_source(self) -> DynError {
        self.source
    }

    /// Creates a new manifest error for a preprocessor of the given kind
    pub fn new<E: ErrorExt>(kind: String, source: &E) -> (error: Self)
        ensures
            error.spec_kind() == kind@,
            error.spec_source().message@ == source.spec_text(),
            lines_of(error.spec_source().sources@) == source.spec_causes(),
    {
        Self { kind, source: error_chain(source) }
    }

    /// The text of this error.
    pub open spec fn spec_message(self) -> Seq<char> {
        "the job of kind `"@ + self.spec_kind() + "` was configured incorrectly"@
    }

    /// Says which kind of job was configured incorrectly.
    pub fn message(&self) -> (text: String)
        ensures
            text@ == self.spec_message(),
    {
        let mut text = "the job of kind `".to_owned();
        text.append(self.kind.as_str());
        text.append("` was configured incorrectly");
        text
    }

    /// The kind of the job that was configured incorrectly.
    pub fn kind(&self) -> (kind: &String)
        ensures
            kind@ == self.spec_kind(),
    {
        &self.kind
    }

    /// What the preprocessor of that kind found wrong.
    pub fn source(&self) -> (source: &DynError)
        ensures
            *source == self.spec_source(),
    {
        &self.source
    }
}

impl ErrorExt for ManifestError {
    open spec fn spec_text(&self) -> Seq<char> {
        self.spec_message()
    }

    open spec fn spec_causes(&self) -> Seq<Seq<char>> {
        seq![self.spec_source().message@] + lines_of(self.spec_source().sources@)
    }

    fn text(&self) -> (text: String) {
        self.message()
    }

    fn causes(&self) -> (lines: Vec<String>) {
        line_before(self.source.message.as_str(), copy_lines(&self.source.sources))
    }
}

/// A problem with the preprocessor's configuration.
#[derive(Debug, Clone, PartialEq, Eq)]
pub enum ConfigError {
    /// The preprocessor kind is not known
    Unknown(String),
    /// The manifest is invalid for the specific preprocessor
    Manifest(ManifestError),
}

impl ConfigError {
    /// The text of this error.
    pub open spec fn spec_message(self) -> Seq<char> {
        match self {
            ConfigError::Unknown(kind) => "unknown job kind: "@ + kind@,
            ConfigError::Manifest(_) => "invalid job config"@,
        }
    }

    /// Says what is wrong with the job's configuration.
    pub fn message(&self) -> (text: String)
        ensures
            text@ == self.spec_message(),
    {
        match self {
            ConfigError::Unknown(kind) => {
                let mut text = "unknown job kind: ".to_owned();
                text.append(kind.as_str());
                text
            },
            ConfigError::Manifest(_) => "invalid job config".to_owned(),
        }
    }
}

impl ErrorExt for ConfigError {
    open spec fn spec_text(&self) -> Seq<char> {
        self.spec_message()
    }

    open spec fn spec_causes(&self) -> Seq<Seq<char>> {
        match *self {
            ConfigError::Unknown(_) => Seq::empty(),
            ConfigError::Manifest(inner) => seq![inner.spec_message()] + inner.spec_causes(),
        }
    }

    fn text(&self) -> (text: String) {
        self.message()
    }

    fn causes(&self) -> (lines: Vec<String>) {
        match self {
            ConfigError::Unknown(_) => no_lines(),
            ConfigError::Manifest(inner) => line_before(inner.message().as_str(), inner.causes()),
        }
    }
}

/// A problem during the job's execution
#[derive(Debug, Clone, PartialEq, Eq)]
pub enum ExecutionError {
    /// The job failed for preprocessor-specific reasons
    Execution(DynError),
    /// An error while waiting for the job to finish
    Join(JoinFailure),
}

impl ExecutionError {
    /// The text of this error.
    pub open spec fn spec_message(self) -> Seq<char> {
        match self {
            ExecutionError::Execution(inner) => inner.message@,
            ExecutionError::Join(_) => "waiting for a job failed"@,
        }
    }

    /// Says why the job's execution failed.
    pub fn message(&self) -> (text: String)
        ensures
            text@ == self.spec_message(),
    {
        match self {
            ExecutionError::Execution(inner) => inner.message.clone(),
            ExecutionError::Join(_) => "waiting for a job failed".to_owned(),
        }
    }
}

impl ErrorExt for ExecutionError {
    open spec fn spec_text(&self) -> Seq<char> {
        self.spec_message()
    }

    open spec fn spec_causes(&self) -> Seq<Seq<char>> {
        match *self {
            ExecutionError::Execution(inner) => lines_of(inner.sources@),
            ExecutionError::Join(failure) => seq![failure.reason@],
        }
    }

    fn text(&self) -> (text: String) {
        self.message()
    }

    fn causes(&self) -> (lines: Vec<String>) {
        match self {
            ExecutionError::Execution(inner) => copy_lines(&inner.sources),
            ExecutionError::Join(failure) => one_line(failure.reason.as_str()),
        }
    }
}

impl FromLost<String> for ExecutionError {
    open spec fn lost(id: String, failure: JoinFailure) -> Self {
        ExecutionError::Join(failure)
    }

    fn from_lost(id: String, failure: JoinFailure) -> (error: Self) {
        ExecutionError::Join(failure)
    }
}

/// A result with a config error in it
pub type ConfigResult<T> = Result<T, ConfigError>;

/// A result with an execution error in it
pub type ExecutionResult<T> = Result<T, ExecutionError>;

/// A preprocessor definition that [Preprocessor]s can be created from.
pub trait PreprocessorDefinition {
    /// The job's additional manifest, as yet unread
    type Manifest;

    /// The preprocessors that this definition creates
    type Job;

    /// The specific error type for this preprocessor
    type Error: ErrorExt;

    /// The identifier of the preprocessor, referenced by the job's `kind` field
    spec fn spec_name(&self) -> &str;

    /// The identifier of the preprocessor, referenced by the job's `kind` field
    fn name(&self) -> (name: String)
        ensures
            name@ == self.spec_name()@,
    ;

    /// What configuring a job gives: whether `configured` is the preprocessor
    /// made, or the reason why none is made, for a job of the given name,
    /// manifest and query.
    spec fn configures(
        &self,
        name: String,
        manifest: Self::Manifest,
        query: manifest::Query,
        configured: Result<Self::Job, Self::Error>,
    ) -> bool;

    /// Creates the preprocessor. The manifest is checked for validity, but no processing is done
    /// yet.
    fn configure(&self, name: String, manifest: Self::Manifest, query: manifest::Query) -> (configured:
        Result<Self::Job, Self::Error>)
        ensures
            self.configures(name, manifest, query, configured),
    ;
}

/// Hands on what a definition made of a job: the preprocessor as it is, and
/// what the definition found wrong as the error of a job of the given kind,
/// with the chain of the definition's error behind it.
pub fn configured<J, E: ErrorExt>(kind: String, made: Result<J, E>) -> (configured: ConfigResult<J>)
    ensures
        match made {
            Ok(job) => configured matches Ok(handed) && handed == job,
            Err(error) => configured matches Err(ConfigError::Manifest(inner)) && inner.spec_kind()
                == kind@ && describes(error, inner.spec_source()),
        },
{
    match made {
        Ok(job) => Ok(job),
        Err(error) => Err(ConfigError::Manifest(ManifestError::new(kind, &error))),
    }
}

/// Creates the preprocessor from its definition. What the definition finds
/// wrong with the manifest is reported as the error of a job of its kind.
pub fn configure<D: PreprocessorDefinition>(
    definition: &D,
    name: String,
    manifest: D::Manifest,
    query: manifest::Query,
) -> (configured: ConfigResult<D::Job>)
    ensures
        match configured {
            Ok(job) => definition.configures(name, manifest, query, Ok(job)),
            Err(ConfigError::Manifest(inner)) => inner.spec_kind() == definition.spec_name()@
                && exists|error: D::Error| #[trigger]
                describes(error, inner.spec_source()) && definition.configures(
                    name,
                    manifest,
                    query,
                    Err(error),
                ),
            Err(ConfigError::Unknown(_)) => false,
        },
{
    let made = definition.configure(name, manifest, query);
    let ghost outcome = made;
    let handed = configured(definition.name(), made);
    proof {
        if let Err(error) = outcome {
            assert(describes(error, handed->Err_0->Manifest_0.spec_source()));
        }
    }
    handed
}

/// A map of preprocessor definitions that can be used to run a set of jobs.
/// No two definitions in it have the same name.
pub struct PreprocessorMap<D: PreprocessorDefinition> {
    map: Vec<D>,
}

/// Whether one of the definitions has the given name.
pub open spec fn defines<D: PreprocessorDefinition>(definitions: Seq<D>, kind: Seq<char>) -> bool {
    exists|i: int| 0 <= i < definitions.len() && #[trigger] definitions[i].spec_name()@ == kind
}

/// Whether every definition of `before` under another name than `name` is
/// among those of `after`.
pub open spec fn kept<D: PreprocessorDefinition>(before: Seq<D>, after: Seq<D>, name: Seq<char>) -> bool {
    forall|i: int|
        0 <= i < before.len() && #[trigger] before[i].spec_name()@ != name ==> after.contains(
            before[i],
        )
}

impl<D: PreprocessorDefinition> PreprocessorMap<D> {
    #[verifier::type_invariant]
    spec fn inv(self) -> bool {
        forall|i: int, j: int|
            0 <= i < j < self.map@.len() ==> #[trigger] self.map@[i].spec_name()@
                != #[trigger] self.map@[j].spec_name()@
    }

    /// The definitions in the map.
    pub closed spec fn definitions(&self) -> Seq<D> {
        self.map@
    }

    /// Whether the map has a definition of the given name.
    pub open spec fn knows(&self, kind: Seq<char>) -> bool {
        defines(self.definitions(), kind)
    }

    /// Creates an empty preprocessor map
    pub fn new() -> (map: Self)
        ensures
            map.definitions() == Seq::<D>::empty(),
    {
        Self { map: Vec::new() }
    }

    /// Where in the map the definition of the given name stands.
    fn find(&self, kind: &str) -> (place: Option<usize>)
        ensures
            match place {
                Some(i) => i < self.map@.len() && self.map@[i as int].spec_name()@ == kind@,
                None => !self.knows(kind@),
            },
    {
        let mut i: usize = 0;
        while i < self.map.len()
            invariant
                i <= self.map@.len(),
                forall|j: int| 0 <= j < i ==> #[trigger] self.map@[j].spec_name()@ != kind@,
            decreases self.map@.len() - i,
        {
            let name = self.map[i].name();
            if rank(name.as_str(), kind) == Rank::Same {
                return Some(i);
            }
            i = i + 1;
        }
        None
    }

    /// Registers a preprocessor definition with its name in the map. A
    /// definition that was registered under the same name before is replaced.
    pub fn register(&mut self, preprocessor: D)
        ensures
            forall|kind: Seq<char>|
                final(self).knows(kind) <==> old(self).knows(kind) || kind
                    == preprocessor.spec_name()@,
            final(self).definitions().contains(preprocessor),
            kept(old(self).definitions(), final(self).definitions(), preprocessor.spec_name()@),
    {
        proof {
            use_type_invariant(&*self);
        }
        let name = preprocessor.name();
        let place = self.find(name.as_str());
        let ghost before = self.map@;
        let mut map: Vec<D> = Vec::new();
        std::mem::swap(&mut map, &mut self.map);
        match place {
            Some(i) => {
                map.set(i, preprocessor);
                proof {
                    assert(map@[i as int] == preprocessor);
                    assert forall|kind: Seq<char>| defines(map@, kind) <==> defines(before, kind)
                        || kind == preprocessor.spec_name()@ by {
                        if defines(map@, kind) {
                            let j = choose|j: int|
                                0 <= j < map@.len() && #[trigger] map@[j].spec_name()@ == kind;
                            if j != i {
                                assert(before[j].spec_name()@ == kind);
                            }
                        }
                        if defines(before, kind) {
                            let j = choose|j: int|
                                0 <= j < before.len() && #[trigger] before[j].spec_name()@ == kind;
                            assert(map@[j].spec_name()@ == kind);
                        }
                        assert(map@[i as int].spec_name()@ == preprocessor.spec_name()@);
                    }
                    assert forall|j: int|
                        0 <= j < before.len() && #[trigger] before[j].spec_name()@
                            != preprocessor.spec_name()@ implies map@.contains(before[j]) by {
                        assert(map@[j] == before[j]);
                    }
                    assert forall|a: int, b: int| 0 <= a < b < map@.len() implies #[trigger] map@[a].spec_name()@
                        != #[trigger] map@[b].spec_name()@ by {
                        assert(before[a].spec_name()@ != before[b].spec_name()@);
                    }
                }
            },
            None => {
                map.push(preprocessor);
                proof {
                    let last = map@.len() - 1;
                    assert(map@[last] == preprocessor);
                    assert forall|kind: Seq<char>| defines(map@, kind) <==> defines(before, kind)
                        || kind == preprocessor.spec_name()@ by {
                        if defines(map@, kind) {
                            let j = choose|j: int|
                                0 <= j < map@.len() && #[trigger] map@[j].spec_name()@ == kind;
                            if j != last {
                                assert(before[j].spec_name()@ == kind);
                            }
                        }
                        if defines(before, kind) {
                            let j = choose|j: int|
                                0 <= j < before.len() && #[trigger] before[j].spec_name()@ == kind;
                            assert(map@[j].spec_name()@ == kind);
                        }
                        assert(map@[last].spec_name()@ == preprocessor.spec_name()@);
                    }
                    assert forall|j: int|
                        0 <= j < before.len() && #[trigger] before[j].spec_name()@
                            != preprocessor.spec_name()@ implies map@.contains(before[j]) by {
                        assert(map@[j] == before[j]);
                    }
                    assert forall|a: int, b: int| 0 <= a < b < map@.len() implies #[trigger] map@[a].spec_name()@
                        != #[trigger] map@[b].spec_name()@ by {
                        if b < last {
                            assert(before[a].spec_name()@ != before[b].spec_name()@);
                        } else {
                            assert(before[a].spec_name()@ != preprocessor.spec_name()@);
                        }
                    }
                }
            },
        }
        self.map = map;
    }

    /// Looks up the preprocessor according to the job's `kind` and returns the
    /// result of creating the preprocessor, or the job's name with the reason
    /// why it could not be created: the kind is not recognized, or some part
    /// of the manifest was not valid for that kind.
    pub fn get(&self, job: manifest::Job<D::Manifest>) -> (made: Result<
        D::Job,
        (String, ConfigError),
    >)
        ensures
            !self.knows(job.kind@) ==> (made matches Err(refused) && refused.0 == job.name
                && refused.1 == ConfigError::Unknown(job.kind)),
            self.knows(job.kind@) ==> (made matches Err(refused) ==> refused.0@ == job.name@ && (
            refused.1 matches ConfigError::Manifest(inner) && inner.spec_kind() == job.kind@)),
    {
        let manifest::Job { name, kind, query, manifest } = job;
        match self.find(kind.as_str()) {
            None => Err((name, ConfigError::Unknown(kind))),
            Some(i) => {
                match configure(&self.map[i], name.clone(), manifest, query) {
                    Ok(preprocessor) => Ok(preprocessor),
                    Err(error) => Err((name, error)),
                }
            },
        }
    }
}

} // verus!
