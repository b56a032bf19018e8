use std::cell::RefCell;

use prequery_preprocess::entry::{beginning, ending, finish, run, run_job};
use prequery_preprocess::error::{
    Error, MultiplePreprocessorConfigError, MultiplePreprocessorExecutionError,
};
use prequery_preprocess::manifest::{self, Job, PrequeryManifest, Query};
use prequery_preprocess::preprocessor::{
    configure, ConfigError, DynError, ExecutionError, ManifestError, Preprocessor,
    PreprocessorDefinition, PreprocessorMap,
};
use prequery_preprocess::reporting::{ErrorChain, Log};

struct VecLog(RefCell<Vec<String>>);

impl Log for VecLog {
    fn log(&self, line: &str) {
        self.0.borrow_mut().push(line.to_string());
    }
}

fn refused(text: String) -> ErrorChain {
    ErrorChain {
        message: text,
        sources: vec!["because".to_string()],
    }
}

/// A job that only logs something, or fails if its manifest says so.
#[derive(Debug, PartialEq, Eq)]
struct Dummy {
    name: String,
    fails: bool,
}

impl Preprocessor<VecLog> for Dummy {
    fn named(&self) -> String {
        self.name.clone()
    }

    fn name(&self) -> String {
        self.name.clone()
    }

    fn runs(&self, _after: &Self, _world: &VecLog, _ended: Result<(), DynError>) -> bool {
        true
    }

    fn run(&mut self, world: &VecLog) -> Result<(), DynError> {
        world.log(&format!("[{}] this is a dummy preprocessor", self.name));
        if self.fails {
            Err(ErrorChain {
                message: "dummy failed".to_string(),
                sources: vec!["on purpose".to_string()],
            })
        } else {
            Ok(())
        }
    }
}

struct DummyDefinition {
    kind: &'static str,
    tag: u8,
}

impl PreprocessorDefinition for DummyDefinition {
    type Manifest = &'static str;
    type Job = Dummy;
    type Error = ErrorChain;

    fn spec_name(&self) -> &str {
        self.kind
    }

    fn name(&self) -> String {
        self.kind.to_string()
    }

    fn configures(
        &self,
        _name: String,
        _manifest: &'static str,
        _query: Query,
        _configured: Result<Dummy, ErrorChain>,
    ) -> bool {
        true
    }

    fn configure(
        &self,
        name: String,
        manifest: &'static str,
        _query: Query,
    ) -> Result<Dummy, ErrorChain> {
        match manifest {
            "invalid" => Err(refused(format!("refused by {}", self.tag))),
            "fails" => Ok(Dummy { name, fails: true }),
            _ => Ok(Dummy { name, fails: false }),
        }
    }
}

fn job(name: &str, kind: &str, manifest: &'static str) -> Job<&'static str> {
    Job {
        name: name.to_string(),
        kind: kind.to_string(),
        query: Query::default(),
        manifest,
    }
}

fn preprocessors() -> PreprocessorMap<DummyDefinition> {
    let mut preprocessors = PreprocessorMap::new();
    preprocessors.register(DummyDefinition { kind: "dummy", tag: 1 });
    preprocessors.register(DummyDefinition { kind: "dummy2", tag: 2 });
    preprocessors
}

#[test]
fn run_dummy() {
    let log = VecLog(RefCell::new(Vec::new()));
    let manifest = PrequeryManifest {
        jobs: vec![job("test", "dummy", "")],
    };
    assert_eq!(run(&log, &preprocessors(), Ok(manifest)), Ok(()));
    assert_eq!(
        *log.0.borrow(),
        vec![
            "[test] beginning job...".to_string(),
            "[test] this is a dummy preprocessor".to_string(),
            "[test] job finished".to_string(),
        ]
    );
}

#[test]
fn run_dummy_preprocessor() {
    let log = VecLog(RefCell::new(Vec::new()));
    let mut job = Dummy {
        name: "test".to_string(),
        fails: false,
    };
    assert_eq!(run_job(&log, &mut job), Ok(()));
    job.fails = true;
    assert_eq!(
        run_job(&log, &mut job),
        Err(ExecutionError::Execution(ErrorChain {
            message: "dummy failed".to_string(),
            sources: vec!["on purpose".to_string()],
        }))
    );
    assert_eq!(
        log.0.borrow()[3..],
        [
            "[test] beginning job...".to_string(),
            "[test] this is a dummy preprocessor".to_string(),
            "[test] job failed: dummy failed".to_string(),
        ]
    );
}

#[test]
fn a_manifest_that_cannot_be_read_ends_the_run() {
    let log = VecLog(RefCell::new(Vec::new()));
    assert_eq!(
        run(&log, &preprocessors(), Err(manifest::Error::Missing)),
        Err(Error::Manifest(manifest::Error::Missing))
    );
    assert!(log.0.borrow().is_empty());
}

#[test]
fn no_job_runs_unless_all_are_configured() {
    let log = VecLog(RefCell::new(Vec::new()));
    let manifest = PrequeryManifest {
        jobs: vec![
            job("one", "dummy", ""),
            job("two", "unknown", ""),
            job("three", "dummy2", "invalid"),
        ],
    };
    match run(&log, &preprocessors(), Ok(manifest)) {
        Err(Error::PreprocessorConfig(error)) => {
            assert_eq!(error.errors().len(), 2);
            assert_eq!(
                error.errors()[0],
                ("two".to_string(), ConfigError::Unknown("unknown".to_string()))
            );
            assert_eq!(error.errors()[1].0, "three");
            assert_eq!(
                error.message(),
                "at least one job's configuration failed:\n  [two] unknown job kind: unknown\n  [three] invalid job config"
            );
            match &error.errors()[1].1 {
                ConfigError::Manifest(inner) => {
                    assert_eq!(inner.kind(), "dummy2");
                    assert_eq!(
                        inner.source(),
                        &ErrorChain {
                            message: "refused by 2".to_string(),
                            sources: vec!["because".to_string()],
                        }
                    );
                }
                other => panic!("unexpected: {other:?}"),
            }
        }
        other => panic!("the run should fail: {other:?}"),
    }
    assert!(log.0.borrow().is_empty());
}

#[test]
fn every_job_runs_and_every_failure_is_reported() {
    let log = VecLog(RefCell::new(Vec::new()));
    let manifest = PrequeryManifest {
        jobs: vec![
            job("one", "dummy", "fails"),
            job("two", "dummy", ""),
            job("three", "dummy2", "fails"),
        ],
    };
    match run(&log, &preprocessors(), Ok(manifest)) {
        Err(Error::PreprocessorExecution(error)) => {
            assert_eq!(error.errors().len(), 2);
            assert_eq!(
                error.message(),
                "at least one job's execution failed:\n  dummy failed\n  dummy failed"
            );
        }
        other => panic!("the run should fail: {other:?}"),
    }
    assert_eq!(
        *log.0.borrow(),
        vec![
            "[one] beginning job...".to_string(),
            "[one] this is a dummy preprocessor".to_string(),
            "[one] job failed: dummy failed".to_string(),
            "[two] beginning job...".to_string(),
            "[two] this is a dummy preprocessor".to_string(),
            "[two] job finished".to_string(),
            "[three] beginning job...".to_string(),
            "[three] this is a dummy preprocessor".to_string(),
            "[three] job failed: dummy failed".to_string(),
            "at least one job's execution failed:\n  dummy failed\n  dummy failed".to_string(),
        ]
    );
}

#[test]
fn an_empty_manifest_succeeds() {
    let log = VecLog(RefCell::new(Vec::new()));
    let manifest: PrequeryManifest<&'static str> = PrequeryManifest { jobs: Vec::new() };
    assert_eq!(run(&log, &preprocessors(), Ok(manifest)), Ok(()));
    assert!(log.0.borrow().is_empty());
}

#[test]
fn registering_again_replaces_the_definition() {
    let mut preprocessors = preprocessors();
    preprocessors.register(DummyDefinition { kind: "dummy", tag: 3 });
    match preprocessors.get(job("test", "dummy", "invalid")) {
        Err((name, ConfigError::Manifest(inner))) => {
            assert_eq!(name, "test");
            assert_eq!(inner.source().message, "refused by 3");
        }
        other => panic!("unexpected: {other:?}"),
    }
    assert_eq!(
        preprocessors.get(job("test", "dummy2", "")),
        Ok(Dummy {
            name: "test".to_string(),
            fails: false
        })
    );
    assert_eq!(
        preprocessors.get(job("test", "dummy3", "")),
        Err(("test".to_string(), ConfigError::Unknown("dummy3".to_string())))
    );
}

#[test]
fn configure_names_the_kind_of_the_refusing_definition() {
    let definition = DummyDefinition { kind: "dummy", tag: 7 };
    let configured = configure(&definition, "test".to_string(), "invalid", Query::default());
    assert_eq!(
        configured,
        Err(ConfigError::Manifest(ManifestError::new(
            "dummy".to_string(),
            &refused("refused by 7".to_string())
        )))
    );
}

#[test]
fn lines_of_a_run() {
    assert_eq!(beginning("download"), "[download] beginning job...");
    assert_eq!(ending("download", None), "[download] job finished");
    assert_eq!(ending("download", Some("oops")), "[download] job failed: oops");
}

#[test]
fn finish_gathers_the_failures() {
    assert_eq!(finish(Vec::new()), Ok(()));
    let errors = vec![ExecutionError::Execution(ErrorChain {
        message: "a".to_string(),
        sources: Vec::new(),
    })];
    assert_eq!(
        finish(errors.clone()),
        Err(Error::PreprocessorExecution(
            MultiplePreprocessorExecutionError::new(errors)
        ))
    );
    assert_eq!(
        MultiplePreprocessorConfigError::new(Vec::new()).message(),
        "at least one job's configuration failed:"
    );
}
