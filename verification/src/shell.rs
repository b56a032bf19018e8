//! The `shell` job: feeds data from a document to commands and saves what they answer.

use vstd::prelude::*;
use vstd::string::StringExecFns;
use crate::preprocessor::{DynError, Preprocessor, PreprocessorDefinition};
use crate::query::Query;
use crate::reporting::{describes, handed_on};
use crate::text::{decimal, spec_decimal};
use crate::utils::{all_or_errors, failures, lemma_partition_sizes, successes};
use crate::web_resource::index::{entries_of, views, Document, Index, Stored};

pub mod error;
pub mod factory;
pub mod json;
pub mod manifest;
pub mod query_data;
pub mod world;

pub use error::{
    CommandError, ExecutionError, ExecutionResult, FileError, IndexError, ManifestError,
    ManifestResult, MultipleCommandError, MultipleFileError, QueryConfigError,
};
pub use factory::ShellFactory;
pub use json::{Answer, Json};
pub use manifest::{Command, Manifest};
pub use query_data::{InputItem, Output, QueryData};
pub use world::World;

verus! {

/// What the commands answered: one JSON text for each input.
#[derive(Debug, Clone, PartialEq, Eq)]
pub struct Gathered {
    /// The answers, in the order of the inputs.
    pub items: Vec<Json>,
    /// The array of all answers, where a single command gave it.
    pub whole: Option<Json>,
}

/// The `shell` preprocessor
#[derive(Debug)]
pub struct Shell {
    name: String,
    manifest: Manifest,
    index: Option<Index>,
    query: Query,
}

impl Shell {
    /// The job's name.
    pub open spec fn spec_name(&self) -> Seq<char> {
        self.job_named()@
    }

    /// The job's name, as the text that holds it.
    pub closed spec fn job_named(&self) -> String {
        self.name
    }

    /// The job's settings.
    pub closed spec fn spec_manifest(&self) -> Manifest {
        self.manifest
    }

    /// The job's query.
    pub closed spec fn spec_query(&self) -> Query {
        self.query
    }

    /// The job's index, where one is in use.
    pub closed spec fn spec_index(&self) -> Option<Index> {
        self.index
    }

    /// Whether `other` is this job but for what its index holds.
    pub open spec fn same_job(&self, other: &Self) -> bool {
        &&& other.spec_name() == self.spec_name()
        &&& other.spec_manifest() == self.spec_manifest()
        &&& other.spec_query() == self.spec_query()
    }

    /// Creates the job. The index usually begins as `None` and is populated
    /// when the job runs.
    pub fn new(name: String, manifest: Manifest, index: Option<Index>, query: Query) -> (job: Self)
        ensures
            job.spec_name() == name@,
            job.spec_manifest() == manifest,
            job.spec_index() == index,
            job.spec_query() == query,
    {
        Self { name, manifest, index, query }
    }

    /// The job's name.
    pub fn job_name(&self) -> (name: &str)
        ensures
            name@ == self.spec_name(),
    {
        self.name.as_str()
    }

    /// The job's settings.
    pub fn manifest(&self) -> (manifest: &Manifest)
        ensures
            *manifest == self.spec_manifest(),
    {
        &self.manifest
    }

    /// The job's query.
    pub fn query(&self) -> (query: &Query)
        ensures
            *query == self.spec_query(),
    {
        &self.query
    }

    /// The job's index, where one is in use.
    pub fn index(&self) -> (index: Option<&Index>)
        ensures
            index is Some <==> self.spec_index() is Some,
            index matches Some(found) ==> Some(*found) == self.spec_index(),
    {
        self.index.as_ref()
    }

    /// Takes up what was found at the index's location. A job whose settings
    /// name no index file uses none, whatever was found. Otherwise the job
    /// uses the index that was stored, or an empty one where no file exists;
    /// where the stored file cannot be used, the job keeps what it had and the
    /// error says why.
    pub fn populate_index(&mut self, location: String, stored: Stored) -> (populated: Result<
        (),
        IndexError,
    >)
        ensures
            old(self).same_job(final(self)),
            old(self).spec_manifest().index is None ==> populated is Ok && final(self).spec_index()
                is None,
            old(self).spec_manifest().index is Some ==> match stored {
                Stored::Absent => populated is Ok && (final(self).spec_index() matches Some(index)
                    && index@ == Map::<Seq<char>, Seq<char>>::empty()),
                Stored::Unreadable(why) => populated == Err::<(), IndexError>(IndexError::Io(why)),
                Stored::Malformed(why) => populated == Err::<(), IndexError>(
                    IndexError::Parse(why),
                ),
                Stored::Present(document) => if document.version == 1 {
                    populated is Ok && (final(self).spec_index() matches Some(index) && index@
                        == entries_of(views(document.resources@)))
                } else {
                    populated == Err::<(), IndexError>(IndexError::Version(document.version))
                },
            },
            populated is Err ==> final(self).spec_index() == old(self).spec_index(),
    {
        if self.manifest.index.is_none() {
            self.index = None;
            return Ok(());
        }
        match Index::read(location, stored) {
            Ok(index) => {
                self.index = Some(index);
                Ok(())
            },
            Err(error) => Err(IndexError::from_index(error)),
        }
    }

    /// The document to store when the job is done, where an index is in use.
    pub fn persist(&self) -> (document: Option<Document>)
        ensures
            document is Some <==> self.spec_index() is Some,
            document matches Some(written) ==> written.version == 1 && views(written.resources@)
                == self.spec_index()->0.records(),
    {
        match &self.index {
            Some(index) => Some(index.write()),
            None => None,
        }
    }

    /// What the commands are fed: each input to a command of its own, or,
    /// where the inputs are joined, the array of all inputs to a single
    /// command.
    pub fn stdin(&self, inputs: Vec<Json>) -> (fed: Result<Vec<Json>, CommandError>)
        ensures
            !self.spec_manifest().joined ==> fed == Ok::<Vec<Json>, CommandError>(inputs),
            self.spec_manifest().joined ==> match json::spec_array_of(json::texts_of(inputs@)) {
                Some(text) => fed matches Ok(all) && all.len() == 1 && all[0]@ == text,
                None => fed matches Err(CommandError::Json(_)),
            },
    {
        if self.manifest.joined {
            match json::array_of(&inputs) {
                Ok(text) => {
                    let mut all: Vec<Json> = Vec::new();
                    all.push(text);
                    Ok(all)
                },
                Err(why) => Err(CommandError::Json(why)),
            }
        } else {
            Ok(inputs)
        }
    }

    /// Reads what a command wrote as a JSON value. A command that failed
    /// stays failed; one that wrote no JSON value has failed as well.
    pub fn answer(written: Result<Vec<u8>, CommandError>) -> (read: Result<Answer, CommandError>)
        ensures
            match written {
                Err(error) => read == Err::<Answer, CommandError>(error),
                Ok(bytes) => match json::spec_read(bytes@) {
                    Some(value) => read matches Ok(answer) && answer@ == value,
                    None => read matches Err(CommandError::Json(_)),
                },
            },
    {
        match written {
            Err(error) => Err(error),
            Ok(bytes) => match json::read(bytes.as_slice()) {
                Ok(answer) => Ok(answer),
                Err(why) => Err(CommandError::Json(why)),
            },
        }
    }

    /// The answers of a single command that was fed all inputs: it must have
    /// answered an array with one element for each input.
    pub fn joined_output(length: usize, answer: Result<Answer, CommandError>) -> (gathered:
        ExecutionResult<Gathered>)
        ensures
            match answer {
                Err(error) => gathered matches Err(ExecutionError::Command(failed)) && failed@
                    == seq![error],
                Ok(value) => if value.items matches Some(items) && items.len() == length {
                    gathered == Ok::<Gathered, ExecutionError>(
                        Gathered { items: value.items->0, whole: Some(value.text) },
                    )
                } else {
                    gathered matches Err(ExecutionError::Command(failed)) && failed@
                        == seq![CommandError::Array]
                },
            },
    {
        match answer {
            Err(error) => Err(ExecutionError::from_command(error)),
            Ok(value) => {
                match value.items {
                    Some(items) => {
                        if items.len() == length {
                            Ok(Gathered { items, whole: Some(value.text) })
                        } else {
                            Err(ExecutionError::from_command(CommandError::Array))
                        }
                    },
                    None => Err(ExecutionError::from_command(CommandError::Array)),
                }
            },
        }
    }

    /// The answers of commands that were fed one input each: if any of them
    /// failed, the job fails with the errors of all that failed.
    pub fn separate_outputs(answers: Vec<Result<Answer, CommandError>>) -> (gathered:
        ExecutionResult<Gathered>)
        ensures
            match gathered {
                Ok(all) => {
                    &&& failures(answers@).len() == 0
                    &&& all.whole is None
                    &&& all.items.len() == answers.len()
                    &&& forall|k: int|
                        0 <= k < all.items.len() ==> #[trigger] all.items[k] == successes(
                            answers@,
                        )[k].text
                },
                Err(error) => failures(answers@).len() > 0 && (error matches ExecutionError::Command(
                    failed,
                ) && failed@ == failures(answers@)),
            },
    {
        proof {
            lemma_partition_sizes(answers@);
        }
        match all_or_errors(answers) {
            Err(errors) => Err(ExecutionError::Command(MultipleCommandError::new(errors))),
            Ok(values) => {
                let ghost all = values@;
                let mut items: Vec<Json> = Vec::new();
                for value in it: values
                    invariant
                        it.seq() == all,
                        items.len() == it.index(),
                        forall|k: int| 0 <= k < items.len() ==> #[trigger] items[k] == all[k].text,
                {
                    items.push(value.text);
                }
                Ok(Gathered { items, whole: None })
            },
        }
    }

    /// The files to write, each with its content: one file with the array of
    /// all answers, or a file for each answer, as far as there are both files
    /// and answers.
    pub fn files(output: Output, gathered: Gathered) -> (files: ExecutionResult<Vec<(String, Json)>>)
        ensures
            match output {
                Output::SharedOutput(path) => match gathered.whole {
                    Some(whole) => files matches Ok(all) && all@ == seq![(path, whole)],
                    None => match json::spec_array_of(json::texts_of(gathered.items@)) {
                        Some(text) => files matches Ok(all) && all.len() == 1 && all[0].0 == path
                            && all[0].1@ == text,
                        None => files matches Err(ExecutionError::Command(failed)) && failed@.len()
                            == 1 && failed@[0] is Json,
                    },
                },
                Output::IndividualOutput(paths) => {
                    &&& files matches Ok(all)
                    &&& all.len() == if paths.len() <= gathered.items.len() {
                        paths.len()
                    } else {
                        gathered.items.len()
                    }
                    &&& forall|k: int|
                        0 <= k < all.len() ==> (#[trigger] all[k]).0 == paths[k] && all[k].1@
                            == gathered.items[k]@
                },
            },
    {
        match output {
            Output::SharedOutput(path) => {
                let content = match gathered.whole {
                    Some(whole) => whole,
                    None => match json::array_of(&gathered.items) {
                        Ok(text) => text,
                        Err(why) => {
                            return Err(ExecutionError::from_command(CommandError::Json(why)));
                        },
                    },
                };
                let mut all: Vec<(String, Json)> = Vec::new();
                all.push((path, content));
                Ok(all)
            },
            Output::IndividualOutput(paths) => {
                let items = gathered.items;
                let n = if paths.len() <= items.len() {
                    paths.len()
                } else {
                    items.len()
                };
                let mut all: Vec<(String, Json)> = Vec::new();
                let mut k: usize = 0;
                while k < n
                    invariant
                        k <= n,
                        n <= paths.len(),
                        n <= items.len(),
                        all.len() == k,
                        forall|j: int|
                            0 <= j < k ==> (#[trigger] all[j]).0 == paths[j] && all[j].1@
                                == items[j]@,
                    decreases n - k,
                {
                    let content = items[k].clone();
                    assert(content@ =~= items[k as int]@);
                    all.push((paths[k].clone(), content));
                    k = k + 1;
                }
                Ok(all)
            },
        }
    }

    /// How writing the files went: if any file could not be written, the job
    /// fails with the errors of all that could not.
    pub fn written(results: Vec<Result<(), FileError>>) -> (done: ExecutionResult<()>)
        ensures
            match done {
                Ok(_) => failures(results@).len() == 0,
                Err(error) => failures(results@).len() > 0 && (error matches ExecutionError::File(
                    failed,
                ) && failed@ == failures(results@)),
            },
    {
        match all_or_errors(results) {
            Ok(_) => Ok(()),
            Err(errors) => Err(ExecutionError::File(MultipleFileError::new(errors))),
        }
    }

    /// The line that says which command is executed, and for how many inputs.
    pub open spec fn spec_executing(
        name: Seq<char>,
        command: Seq<char>,
        inputs: nat,
        joined: bool,
    ) -> Seq<char> {
        if joined {
            "["@ + name + "] executing command \""@ + command + "\" with "@ + spec_decimal(inputs)
                + " joined inputs..."@
        } else {
            "["@ + name + "] executing command \""@ + command + "\" for "@ + spec_decimal(inputs)
                + " inputs..."@
        }
    }

    /// The line that says which command the job executes, and for how many inputs.
    pub fn executing(&self, inputs: usize) -> (line: String)
        ensures
            line@ == Self::spec_executing(
                self.spec_name(),
                manifest::spec_spaced(crate::text::lines_of(self.spec_manifest().command.0@)),
                inputs as nat,
                self.spec_manifest().joined,
            ),
    {
        let mut line = "[".to_owned();
        line.append(self.name.as_str());
        line.append("] executing command \"");
        line.append(self.manifest.command.display().as_str());
        if self.manifest.joined {
            line.append("\" with ");
            line.append(decimal(inputs).as_str());
            line.append(" joined inputs...");
        } else {
            line.append("\" for ");
            line.append(decimal(inputs).as_str());
            line.append(" inputs...");
        }
        line
    }

    /// The line that says that the answers are saved, and where if they share a file.
    pub open spec fn spec_saving(name: Seq<char>, output: Output) -> Seq<char> {
        match output {
            Output::SharedOutput(path) => "["@ + name + "] execution finished, saving to "@ + path@
                + "..."@,
            Output::IndividualOutput(_) => "["@ + name + "] execution finished, saving..."@,
        }
    }

    /// The line that says that the job saves the answers.
    pub fn saving(&self, output: &Output) -> (line: String)
        ensures
            line@ == Self::spec_saving(self.spec_name(), *output),
    {
        let mut line = "[".to_owned();
        line.append(self.name.as_str());
        match output {
            Output::SharedOutput(path) => {
                line.append("] execution finished, saving to ");
                line.append(path.as_str());
                line.append("...");
            },
            Output::IndividualOutput(_) => {
                line.append("] execution finished, saving...");
            },
        }
        line
    }

    /// The line that says that the job has saved the answers.
    pub fn saved(&self) -> (line: String)
        ensures
            line@ == "["@ + self.spec_name() + "] command results saved"@,
    {
        let mut line = "[".to_owned();
        line.append(self.name.as_str());
        line.append("] command results saved");
        line
    }

    /// Whether a run of a job with the given settings may end with the given
    /// error: an index error needs an index to be kept, and failed commands
    /// or files are only reported if there are any.
    pub open spec fn may_end_with(manifest: Manifest, error: ExecutionError) -> bool {
        &&& error is Index ==> manifest.index is Some
        &&& error matches ExecutionError::Command(failed) ==> failed@.len() > 0
        &&& error matches ExecutionError::File(failed) ==> failed@.len() > 0
    }

    /// Runs the job in the given world, one step after the other: populates
    /// the index where the settings name one, queries the document, runs the
    /// command on all inputs at once or on each in turn, whether or not an
    /// earlier one failed, writes the answers to their files, and stores the
    /// index where one is in use. Every failure ends the job, but not before
    /// all commands of a step were run or all files of a step were written.
    pub fn run_impl<W: World>(&mut self, world: &W) -> (ended: ExecutionResult<()>)
        ensures
            old(self).same_job(final(self)),
            old(self).spec_manifest().index is None ==> final(self).spec_index() is None,
            old(self).spec_manifest().index is None ==> !(ended matches Err(
                ExecutionError::Index(_),
            )),
            ended matches Err(ExecutionError::Command(failed)) ==> failed@.len() > 0,
            ended matches Err(ExecutionError::File(failed)) ==> failed@.len() > 0,
            ended is Ok ==> (final(self).spec_index() is Some <==> old(self).spec_manifest().index
                is Some),
    {
        let location = match &self.manifest.index {
            Some(path) => Some(path.clone()),
            None => None,
        };
        match &location {
            Some(path) => {
                let stored = world.read_index(path.as_str());
                match self.populate_index(path.clone(), stored) {
                    Ok(_) => {},
                    Err(error) => {
                        return Err(ExecutionError::Index(error));
                    },
                }
            },
            None => {
                self.index = None;
            },
        }
        let data = match world.query(&self.query) {
            Ok(data) => data,
            Err(error) => {
                return Err(ExecutionError::Query(error));
            },
        };
        let (output, inputs) = data.split();
        let length = inputs.len();
        world.log(self.executing(length).as_str());
        let fed = match self.stdin(inputs) {
            Ok(fed) => fed,
            Err(error) => {
                return Err(ExecutionError::from_command(error));
            },
        };
        let gathered = if self.manifest.joined {
            let written = world.run_command(&self.manifest.command.0, fed[0].as_slice());
            Self::joined_output(length, Self::answer(written))
        } else {
            let mut answers: Vec<Result<Answer, CommandError>> = Vec::new();
            let mut i: usize = 0;
            while i < fed.len()
                invariant
                    i <= fed.len(),
                decreases fed.len() - i,
            {
                let written = world.run_command(&self.manifest.command.0, fed[i].as_slice());
                answers.push(Self::answer(written));
                i = i + 1;
            }
            Self::separate_outputs(answers)
        };
        let gathered = match gathered {
            Ok(gathered) => gathered,
            Err(error) => {
                return Err(error);
            },
        };
        world.log(self.saving(&output).as_str());
        let files = match Self::files(output, gathered) {
            Ok(files) => files,
            Err(error) => {
                return Err(error);
            },
        };
        let mut results: Vec<Result<(), FileError>> = Vec::new();
        let mut i: usize = 0;
        while i < files.len()
            invariant
                i <= files.len(),
            decreases files.len() - i,
        {
            results.push(world.write_output(files[i].0.as_str(), files[i].1.as_slice()));
            i = i + 1;
        }
        match Self::written(results) {
            Ok(_) => {},
            Err(error) => {
                return Err(error);
            },
        }
        world.log(self.saved().as_str());
        match (&location, self.persist()) {
            (Some(path), Some(document)) => {
                match world.write_index(path.as_str(), &document) {
                    Ok(_) => {},
                    Err(error) => {
                        return Err(ExecutionError::Index(error));
                    },
                }
            },
            _ => {},
        }
        Ok(())
    }
}

impl<W: World> Preprocessor<W> for Shell {
    /// The job's name.
    open spec fn named(&self) -> String {
        self.job_named()
    }

    /// The job's name.
    fn name(&self) -> (name: String) {
        self.name.clone()
    }

    /// What a run brings about: the job stays the same but for its index,
    /// which is in use after a run that succeeded exactly if the settings
    /// name an index file, and a failure is handed on as the chain of an
    /// error that the run may end with.
    open spec fn runs(&self, after: &Self, world: &W, ended: Result<(), DynError>) -> bool {
        &&& self.same_job(after)
        &&& self.spec_manifest().index is None ==> after.spec_index() is None
        &&& ended is Ok ==> (after.spec_index() is Some <==> self.spec_manifest().index is Some)
        &&& ended matches Err(chain) ==> exists|error: ExecutionError| #[trigger]
            describes(error, chain) && Self::may_end_with(self.spec_manifest(), error)
    }

    /// Runs the job as `run_impl` does. A failure is handed on as the chain of
    /// the job's error: its text with the texts of what lay behind it.
    fn run(&mut self, world: &W) -> (ended: Result<(), DynError>) {
        let ended = self.run_impl(world);
        let ghost outcome = ended;
        proof {
            if let Err(error) = outcome {
                assert(Self::may_end_with(old(self).spec_manifest(), error));
            }
        }
        handed_on(ended)
    }
}

impl PreprocessorDefinition for ShellFactory {
    type Manifest = Result<Manifest, String>;

    type Job = Shell;

    type Error = ManifestError;

    open spec fn spec_name(&self) -> &str {
        "shell"
    }

    fn name(&self) -> (name: String) {
        "shell".to_owned()
    }

    /// What configuring a job gives: what the factory's own `configure` gives.
    open spec fn configures(
        &self,
        name: String,
        manifest: Result<Manifest, String>,
        query: crate::manifest::Query,
        configured: Result<Shell, ManifestError>,
    ) -> bool {
        factory::spec_configured(name@, manifest, query, configured)
    }

    /// Creates the job, as the factory's own `configure` does.
    fn configure(
        &self,
        name: String,
        manifest: Result<Manifest, String>,
        query: crate::manifest::Query,
    ) -> (configured: Result<Shell, ManifestError>) {
        ShellFactory::configure(self, name, manifest, query)
    }
}

} // verus!
