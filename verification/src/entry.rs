//! Running all jobs of a document

use vstd::prelude::*;
use vstd::string::StringExecFns;
use crate::error::{Error, MultiplePreprocessorExecutionError};
use crate::manifest;
use crate::manifest::PrequeryManifest;
use crate::preprocessor::{
    DynError, ExecutionError, Preprocessor, PreprocessorDefinition, PreprocessorMap,
};
use crate::reporting::{error_chain, Log};

verus! {

/// The line that says that a job begins.
pub open spec fn spec_beginning(name: Seq<char>) -> Seq<char> {
    "["@ + name + "] beginning job..."@
}

/// The line that says how a job ended.
pub open spec fn spec_ending(name: Seq<char>, failure: Option<Seq<char>>) -> Seq<char> {
    match failure {
        None => "["@ + name + "] job finished"@,
        Some(why) => "["@ + name + "] job failed: "@ + why,
    }
}

/// The line that says that the job `name` begins.
pub fn beginning(name: &str) -> (line: String)
    ensures
        line@ == spec_beginning(name@),
{
    let mut line = "[".to_owned();
    line.append(name);
    line.append("] beginning job...");
    line
}

/// The line that says how the job `name` ended: that it finished, or why it failed.
pub fn ending(name: &str, failure: Option<&str>) -> (line: String)
    ensures
        line@ == spec_ending(
            name@,
            match failure {
                Some(why) => Some(why@),
                None => None,
            },
        ),
{
    let mut line = "[".to_owned();
    line.append(name);
    match failure {
        None => {
            line.append("] job finished");
        },
        Some(why) => {
            line.append("] job failed: ");
            line.append(why);
        },
    }
    line
}

/// How a job ended, as the run takes it up: a success as it is, a failure as
/// a failure of the job's execution.
pub fn job_ended(result: Result<(), DynError>) -> (ended: Result<(), ExecutionError>)
    ensures
        match result {
            Ok(_) => ended is Ok,
            Err(error) => ended == Err::<(), ExecutionError>(ExecutionError::Execution(error)),
        },
{
    match result {
        Ok(_) => Ok(()),
        Err(error) => Err(ExecutionError::Execution(error)),
    }
}

/// Runs one job and logs its beginning and its end. The job is run exactly
/// once, and how it ended is how the job's run ended.
pub fn run_job<W: Log, P: Preprocessor<W>>(world: &W, job: &mut P) -> (ended: Result<
    (),
    ExecutionError,
>)
    ensures
        match ended {
            Ok(_) => old(job).runs(final(job), world, Ok(())),
            Err(ExecutionError::Execution(error)) => old(job).runs(final(job), world, Err(error)),
            Err(ExecutionError::Join(_)) => false,
        },
{
    let name = job.name();
    world.log(beginning(name.as_str()).as_str());
    let result = job.run(world);
    proof {
        if let Ok(unit) = result {
            assert(unit == ());
            assert(result == Ok::<(), DynError>(()));
        }
    }
    match &result {
        Ok(_) => {
            world.log(ending(name.as_str(), None).as_str());
        },
        Err(error) => {
            world.log(ending(name.as_str(), Some(error.message.as_str())).as_str());
        },
    }
    job_ended(result)
}

/// How a run ends, from the errors of the jobs that failed: with all of them
/// together, or well if there are none.
pub fn finish(errors: Vec<ExecutionError>) -> (ended: Result<(), Error>)
    ensures
        errors.len() == 0 ==> ended is Ok,
        errors.len() > 0 ==> (ended matches Err(Error::PreprocessorExecution(failed)) && failed@
            == errors@),
{
    if errors.len() > 0 {
        Err(Error::PreprocessorExecution(MultiplePreprocessorExecutionError::new(errors)))
    } else {
        Ok(())
    }
}

/// Executes preprocessors according to the manifest that was read: configures
/// every job, and only if all are configured runs every job, whether or not
/// an earlier one failed. An error that ends the run is logged with what lay
/// behind it.
pub fn run<W: Log, D: PreprocessorDefinition>(
    world: &W,
    preprocessors: &PreprocessorMap<D>,
    manifest: Result<PrequeryManifest<D::Manifest>, manifest::Error>,
) -> (ended: Result<(), Error>) where D::Job: Preprocessor<W>
    ensures
        manifest matches Err(error) ==> ended == Err::<(), Error>(Error::Manifest(error)),
        manifest matches Ok(config) ==> (config.jobs.len() == 0 ==> ended is Ok),
        manifest matches Ok(config) ==> ((exists|i: int|
            0 <= i < config.jobs.len() && !preprocessors.knows((#[trigger] config.jobs[i]).kind@))
            ==> ended matches Err(Error::PreprocessorConfig(_))),
        ended matches Err(Error::PreprocessorExecution(failed)) ==> failed@.len() > 0,
{
    let config = match manifest {
        Ok(config) => config,
        Err(error) => {
            return Err(Error::Manifest(error));
        },
    };
    let ghost count = config.jobs.len();
    let jobs = match config.get_preprocessors(preprocessors) {
        Ok(jobs) => jobs,
        Err(error) => {
            return Err(Error::PreprocessorConfig(error));
        },
    };
    let mut errors: Vec<ExecutionError> = Vec::new();
    for job in it: jobs
        invariant
            errors.len() <= it.index(),
    {
        let mut job = job;
        match run_job(world, &mut job) {
            Ok(_) => {},
            Err(error) => {
                errors.push(error);
            },
        }
    }
    let ended = finish(errors);
    match &ended {
        Ok(_) => {},
        Err(error) => {
            world.log(error_chain(error).render().as_str());
        },
    }
    ended
}

} // verus!
