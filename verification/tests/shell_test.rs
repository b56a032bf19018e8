use std::cell::RefCell;
use std::collections::HashMap;

use prequery_preprocess::manifest;
use prequery_preprocess::query::{self, Query, QueryBuilderError};
use prequery_preprocess::shell::manifest::{CommandSetting, IndexSetting};
use prequery_preprocess::shell::query_data::{Field, Item, MissingField};
use prequery_preprocess::shell::{
    Answer, Command, CommandError, ExecutionError, FileError, Gathered, IndexError, InputItem,
    Manifest, ManifestError, MultipleCommandError, MultipleFileError, Output, QueryConfigError,
    QueryData, Shell, ShellFactory, World,
};
use prequery_preprocess::web_resource::index::{Document, Index, Stored};

/// A world that answers from a script and records what it was asked to do.
struct ScriptedWorld {
    items: Vec<Item>,
    answers: Vec<(&'static str, Result<&'static str, CommandError>)>,
    unwritable: Vec<&'static str>,
    commands: RefCell<Vec<(Vec<String>, String)>>,
    outputs: RefCell<Vec<(String, String)>>,
    read: RefCell<Vec<String>>,
    written: RefCell<Vec<(String, Document)>>,
    log: RefCell<Vec<String>>,
}

impl ScriptedWorld {
    fn new(items: Vec<Item>, answers: Vec<(&'static str, Result<&'static str, CommandError>)>) -> Self {
        ScriptedWorld {
            items,
            answers,
            unwritable: Vec::new(),
            commands: RefCell::new(Vec::new()),
            outputs: RefCell::new(Vec::new()),
            read: RefCell::new(Vec::new()),
            written: RefCell::new(Vec::new()),
            log: RefCell::new(Vec::new()),
        }
    }
}

impl World for ScriptedWorld {
    fn log(&self, line: &str) {
        self.log.borrow_mut().push(line.to_string());
    }

    fn query(&self, _query: &Query) -> Result<QueryData, query::Error> {
        QueryData::new(self.items.clone()).map_err(|missing| {
            query::Error::Json(format!("missing field {:?}", missing.field))
        })
    }

    fn read_index(&self, path: &str) -> Stored {
        self.read.borrow_mut().push(path.to_string());
        Stored::Absent
    }

    fn write_index(&self, path: &str, document: &Document) -> Result<(), IndexError> {
        self.written
            .borrow_mut()
            .push((path.to_string(), document.clone()));
        Ok(())
    }

    fn run_command(&self, command: &Vec<String>, input: &[u8]) -> Result<Vec<u8>, CommandError> {
        let input = String::from_utf8(input.to_vec()).unwrap();
        self.commands.borrow_mut().push((command.clone(), input.clone()));
        for (expected, answer) in &self.answers {
            if *expected == input {
                return answer.clone().map(|text| text.as_bytes().to_vec());
            }
        }
        panic!("unexpected command input: {input}");
    }

    fn write_output(&self, location: &str, output: &[u8]) -> Result<(), FileError> {
        self.outputs.borrow_mut().push((
            location.to_string(),
            String::from_utf8(output.to_vec()).unwrap(),
        ));
        if self.unwritable.contains(&location) {
            Err("permission denied".to_string())
        } else {
            Ok(())
        }
    }
}

fn path(path: &str) -> Item {
    Item {
        path: Some(path.to_string()),
        data: None,
    }
}

fn data(data: &str) -> Item {
    Item {
        path: None,
        data: Some(data.as_bytes().to_vec()),
    }
}

fn both(path: &str, data: &str) -> Item {
    Item {
        path: Some(path.to_string()),
        data: Some(data.as_bytes().to_vec()),
    }
}

fn job(command: CommandSetting, joined: bool, index: bool) -> Shell {
    let manifest = Manifest::new(command, Some(joined), None, Some(IndexSetting::Flag(index)));
    let mut query = manifest::Query::default();
    query.selector = Some("<python>".to_string());
    ShellFactory::new()
        .configure("python".to_string(), Ok(manifest), query)
        .unwrap()
}

fn python() -> CommandSetting {
    CommandSetting::Line("python".to_string())
}

fn python_exec() -> CommandSetting {
    CommandSetting::Words(vec!["python".to_string(), "exec.py".to_string()])
}

/// Run the shell preprocessor with two separate commands, saved to one file.
#[test]
fn run_shell_python_snippets() {
    let world = ScriptedWorld::new(
        vec![
            path("out.json"),
            data(r#""print(\"Hello World\")""#),
            data(r#""print(\"Hello Prequery\")""#),
        ],
        vec![
            (r#""print(\"Hello World\")""#, Ok(r#""Hello World\n""#)),
            (r#""print(\"Hello Prequery\")""#, Ok(r#" "Hello Prequery\n" "#)),
        ],
    );
    let mut job = job(python(), false, false);
    assert_eq!(job.run_impl(&world), Ok(()));
    assert_eq!(
        *world.commands.borrow(),
        vec![
            (vec!["python".to_string()], r#""print(\"Hello World\")""#.to_string()),
            (vec!["python".to_string()], r#""print(\"Hello Prequery\")""#.to_string()),
        ]
    );
    assert_eq!(
        *world.outputs.borrow(),
        vec![(
            "out.json".to_string(),
            r#"["Hello World\n","Hello Prequery\n"]"#.to_string()
        )]
    );
    assert!(world.read.borrow().is_empty());
    assert!(world.written.borrow().is_empty());
    assert_eq!(
        *world.log.borrow(),
        vec![
            "[python] executing command \"python\" for 2 inputs...".to_string(),
            "[python] execution finished, saving to out.json...".to_string(),
            "[python] command results saved".to_string(),
        ]
    );
}

/// Run the shell preprocessor with two separate commands, saved to separate files.
#[test]
fn run_shell_python_snippets_separate_files() {
    let world = ScriptedWorld::new(
        vec![
            both("out1.json", r#""print(\"Hello World\")""#),
            both("out2.json", r#""print(\"Hello Prequery\")""#),
        ],
        vec![
            (r#""print(\"Hello World\")""#, Ok(r#""Hello World\n""#)),
            (r#""print(\"Hello Prequery\")""#, Ok(r#""Hello Prequery\n""#)),
        ],
    );
    let mut job = job(python(), false, false);
    assert_eq!(job.run_impl(&world), Ok(()));
    assert_eq!(
        *world.outputs.borrow(),
        vec![
            ("out1.json".to_string(), r#""Hello World\n""#.to_string()),
            ("out2.json".to_string(), r#""Hello Prequery\n""#.to_string()),
        ]
    );
    assert_eq!(
        *world.log.borrow(),
        vec![
            "[python] executing command \"python\" for 2 inputs...".to_string(),
            "[python] execution finished, saving...".to_string(),
            "[python] command results saved".to_string(),
        ]
    );
}

/// Run the shell preprocessor with two joined commands, saved to one file.
#[test]
fn run_shell_python_joined_snippets() {
    let world = ScriptedWorld::new(
        vec![
            path("out.json"),
            data(r#""x = 1\nprint(x)""#),
            data(r#""y = x + 1\nprint(y)""#),
        ],
        vec![(
            r#"["x = 1\nprint(x)","y = x + 1\nprint(y)"]"#,
            Ok(r#"["1\n","2\n"]"#),
        )],
    );
    let mut job = job(python_exec(), true, false);
    assert_eq!(job.run_impl(&world), Ok(()));
    assert_eq!(
        *world.commands.borrow(),
        vec![(
            vec!["python".to_string(), "exec.py".to_string()],
            r#"["x = 1\nprint(x)","y = x + 1\nprint(y)"]"#.to_string()
        )]
    );
    assert_eq!(
        *world.outputs.borrow(),
        vec![("out.json".to_string(), r#"["1\n","2\n"]"#.to_string())]
    );
    assert_eq!(
        world.log.borrow()[0],
        "[python] executing command \"python exec.py\" with 2 joined inputs..."
    );
}

/// Run the shell preprocessor with two joined commands, saved to separate files.
#[test]
fn run_shell_python_joined_snippets_separate_files() {
    let world = ScriptedWorld::new(
        vec![
            both("out1.json", r#""x = 1\nprint(x)""#),
            both("out2.json", r#""y = x + 1\nprint(y)""#),
        ],
        vec![(
            r#"["x = 1\nprint(x)","y = x + 1\nprint(y)"]"#,
            Ok(r#"["1\n", "2\n"]"#),
        )],
    );
    let mut job = job(python_exec(), true, false);
    assert_eq!(job.run_impl(&world), Ok(()));
    assert_eq!(
        *world.outputs.borrow(),
        vec![
            ("out1.json".to_string(), r#""1\n""#.to_string()),
            ("out2.json".to_string(), r#""2\n""#.to_string()),
        ]
    );
}

/// Run the shell preprocessor, but the command fails.
#[test]
fn run_shell_python_failed_process() {
    let world = ScriptedWorld::new(
        vec![both("out.json", r#""""#)],
        vec![(r#""""#, Err(CommandError::Process("other error".to_string())))],
    );
    let mut job = job(CommandSetting::Words(vec!["python".to_string()]), false, false);
    match job.run_impl(&world) {
        Err(ExecutionError::Command(failed)) => {
            assert_eq!(
                *failed.errors(),
                vec![CommandError::Process("other error".to_string())]
            );
            assert_eq!(
                failed.message(),
                "at least one command failed:\n  other error"
            );
        }
        other => panic!("shell job should fail: {other:?}"),
    }
    assert!(world.outputs.borrow().is_empty());
}

/// Run the shell preprocessor, but the command's output is not valid.
#[test]
fn run_shell_python_invalid_output() {
    let world = ScriptedWorld::new(
        vec![both("out.json", r#""""#)],
        vec![(r#""""#, Ok("not JSON"))],
    );
    let mut job = job(python(), false, false);
    match job.run_impl(&world) {
        Err(ExecutionError::Command(failed)) => {
            assert_eq!(failed.errors().len(), 1);
            assert!(matches!(failed.errors()[0], CommandError::Json(_)));
            assert!(failed.message().starts_with(
                "at least one command failed:\n  command input or output was not valid JSON or did not fit the expected format\n  "
            ));
        }
        other => panic!("shell job should fail: {other:?}"),
    }
    assert!(world.outputs.borrow().is_empty());
}

/// Run the shell preprocessor with joined inputs, but the command returns the wrong number of
/// results.
#[test]
fn run_shell_python_joined_wrong_length() {
    let world = ScriptedWorld::new(
        vec![path("out.json"), data(r#""""#)],
        vec![(r#"[""]"#, Ok(r#"["",""]"#))],
    );
    let mut job = job(python_exec(), true, false);
    match job.run_impl(&world) {
        Err(ExecutionError::Command(failed)) => {
            assert_eq!(*failed.errors(), vec![CommandError::Array]);
            assert_eq!(
                failed.message(),
                "at least one command failed:\n  the command did not return an array of the correct length"
            );
        }
        other => panic!("shell job should fail: {other:?}"),
    }
    assert!(world.outputs.borrow().is_empty());
}

#[test]
fn joined_command_must_answer_an_array() {
    let world = ScriptedWorld::new(
        vec![path("out.json"), data("1")],
        vec![("[1]", Ok(r#"{"a": 1}"#))],
    );
    let mut job = job(python(), true, false);
    match job.run_impl(&world) {
        Err(ExecutionError::Command(failed)) => {
            assert_eq!(*failed.errors(), vec![CommandError::Array]);
        }
        other => panic!("shell job should fail: {other:?}"),
    }
}

#[test]
fn every_command_is_run_and_every_failure_reported() {
    let world = ScriptedWorld::new(
        vec![path("out.json"), data("1"), data("2"), data("3")],
        vec![
            ("1", Err(CommandError::ExitStatus("exit status: 1".to_string()))),
            ("2", Ok("20")),
            ("3", Ok("oops")),
        ],
    );
    let mut job = job(python(), false, false);
    match job.run_impl(&world) {
        Err(ExecutionError::Command(failed)) => {
            assert_eq!(failed.errors().len(), 2);
            assert_eq!(
                failed.errors()[0],
                CommandError::ExitStatus("exit status: 1".to_string())
            );
            assert!(matches!(failed.errors()[1], CommandError::Json(_)));
        }
        other => panic!("shell job should fail: {other:?}"),
    }
    assert_eq!(world.commands.borrow().len(), 3);
    assert!(world.outputs.borrow().is_empty());
}

#[test]
fn every_file_is_written_and_every_failure_reported() {
    let mut world = ScriptedWorld::new(
        vec![both("a.json", "1"), both("b.json", "2"), both("c.json", "3")],
        vec![("1", Ok("10")), ("2", Ok("20")), ("3", Ok("30"))],
    );
    world.unwritable = vec!["a.json", "c.json"];
    let mut job = job(python(), false, true);
    match job.run_impl(&world) {
        Err(ExecutionError::File(failed)) => {
            assert_eq!(
                *failed.errors(),
                vec!["permission denied".to_string(), "permission denied".to_string()]
            );
        }
        other => panic!("shell job should fail: {other:?}"),
    }
    assert_eq!(world.outputs.borrow().len(), 3);
    assert!(world.written.borrow().is_empty());
}

#[test]
fn index_is_read_and_stored_where_one_is_kept() {
    let world = ScriptedWorld::new(Vec::new(), Vec::new());
    let mut job = job(python(), false, true);
    assert_eq!(job.run_impl(&world), Ok(()));
    assert_eq!(*world.read.borrow(), vec!["shell-index.toml".to_string()]);
    assert_eq!(
        *world.written.borrow(),
        vec![(
            "shell-index.toml".to_string(),
            Index::new("shell-index.toml".to_string()).write()
        )]
    );
    assert!(world.commands.borrow().is_empty());
    assert!(world.outputs.borrow().is_empty());
}

#[test]
fn query_data_takes_its_shape_from_the_first_element() {
    assert_eq!(
        QueryData::new(Vec::new()),
        Ok(QueryData::IndividualOutput(Vec::new()))
    );
    assert_eq!(
        QueryData::new(vec![path("out.json"), data("1"), both("ignored", "2")]),
        Ok(QueryData::SharedOutput {
            path: "out.json".to_string(),
            inputs: vec![b"1".to_vec(), b"2".to_vec()],
        })
    );
    assert_eq!(
        QueryData::new(vec![both("a", "1"), both("b", "2")]),
        Ok(QueryData::IndividualOutput(vec![
            InputItem {
                path: "a".to_string(),
                data: b"1".to_vec()
            },
            InputItem {
                path: "b".to_string(),
                data: b"2".to_vec()
            },
        ]))
    );
}

#[test]
fn query_data_refuses_the_first_incomplete_element() {
    assert_eq!(
        QueryData::new(vec![data("1"), path("a")]),
        Err(MissingField {
            index: 0,
            field: Field::Path
        })
    );
    assert_eq!(
        QueryData::new(vec![path("a"), data("1"), path("b"), path("c")]),
        Err(MissingField {
            index: 2,
            field: Field::Data
        })
    );
    assert_eq!(
        QueryData::new(vec![both("a", "1"), data("2"), path("c")]),
        Err(MissingField {
            index: 1,
            field: Field::Path
        })
    );
    assert_eq!(
        QueryData::new(vec![both("a", "1"), path("b")]),
        Err(MissingField {
            index: 1,
            field: Field::Data
        })
    );
    assert_eq!(
        QueryData::new(vec![
            both("a", "1"),
            Item {
                path: None,
                data: None
            }
        ]),
        Err(MissingField {
            index: 1,
            field: Field::Path
        })
    );
}

#[test]
fn split_parts_files_from_inputs() {
    let shared = QueryData::new(vec![path("out.json"), data("1")]).unwrap();
    assert_eq!(
        shared.split(),
        (Output::SharedOutput("out.json".to_string()), vec![b"1".to_vec()])
    );
    let individual = QueryData::new(vec![both("a", "1"), both("b", "2")]).unwrap();
    assert_eq!(
        individual.split(),
        (
            Output::IndividualOutput(vec!["a".to_string(), "b".to_string()]),
            vec![b"1".to_vec(), b"2".to_vec()]
        )
    );
}

#[test]
fn steps_of_a_job() {
    let separate = job(python(), false, false);
    let joined = job(python(), true, false);
    let inputs = vec![b"1".to_vec(), b" \"a\" ".to_vec()];
    assert_eq!(separate.stdin(inputs.clone()), Ok(inputs.clone()));
    assert_eq!(joined.stdin(inputs), Ok(vec![b"[1,\"a\"]".to_vec()]));
    assert_eq!(joined.stdin(Vec::new()), Ok(vec![b"[]".to_vec()]));
    assert!(matches!(
        joined.stdin(vec![b"nonsense".to_vec()]),
        Err(CommandError::Json(_))
    ));

    assert_eq!(
        Shell::answer(Ok(b" [1, {\"b\": 2, \"a\": [ ]}] ".to_vec())),
        Ok(Answer {
            text: b"[1,{\"a\":[],\"b\":2}]".to_vec(),
            items: Some(vec![b"1".to_vec(), b"{\"a\":[],\"b\":2}".to_vec()]),
        })
    );
    assert_eq!(
        Shell::answer(Ok(b"\"text\"".to_vec())),
        Ok(Answer {
            text: b"\"text\"".to_vec(),
            items: None,
        })
    );
    assert!(matches!(
        Shell::answer(Ok(b"[1,".to_vec())),
        Err(CommandError::Json(_))
    ));
    assert_eq!(
        Shell::answer(Err(CommandError::Array)),
        Err(CommandError::Array)
    );

    let answer = Answer {
        text: b"[1,2]".to_vec(),
        items: Some(vec![b"1".to_vec(), b"2".to_vec()]),
    };
    assert_eq!(
        Shell::joined_output(2, Ok(answer.clone())),
        Ok(Gathered {
            items: vec![b"1".to_vec(), b"2".to_vec()],
            whole: Some(b"[1,2]".to_vec()),
        })
    );
    assert_eq!(
        Shell::joined_output(3, Ok(answer.clone())),
        Err(ExecutionError::Command(MultipleCommandError::new(vec![CommandError::Array])))
    );
    assert_eq!(
        Shell::separate_outputs(vec![Ok(answer.clone()), Ok(answer.clone())]),
        Ok(Gathered {
            items: vec![b"[1,2]".to_vec(), b"[1,2]".to_vec()],
            whole: None,
        })
    );
    assert_eq!(
        Shell::files(
            Output::SharedOutput("out.json".to_string()),
            Gathered {
                items: vec![b"1".to_vec(), b"2".to_vec()],
                whole: None,
            }
        ),
        Ok(vec![("out.json".to_string(), b"[1,2]".to_vec())])
    );
    assert_eq!(
        Shell::files(
            Output::IndividualOutput(vec!["a".to_string(), "b".to_string(), "c".to_string()]),
            Gathered {
                items: vec![b"1".to_vec(), b"2".to_vec()],
                whole: None,
            }
        ),
        Ok(vec![
            ("a".to_string(), b"1".to_vec()),
            ("b".to_string(), b"2".to_vec())
        ])
    );
    assert_eq!(Shell::written(vec![Ok(()), Ok(())]), Ok(()));
    assert_eq!(
        Shell::written(vec![Ok(()), Err("no".to_string())]),
        Err(ExecutionError::File(MultipleFileError::new(vec!["no".to_string()])))
    );
}

#[test]
fn factory_wants_a_selector() {
    assert_eq!(ShellFactory::new().name(), "shell");
    assert_eq!(
        ShellFactory::build_query(manifest::Query::default()),
        Err(ManifestError::Query(QueryConfigError::Builder(
            QueryBuilderError::Selector
        )))
    );
    let mut config = manifest::Query::default();
    config.selector = Some("<python>".to_string());
    assert_eq!(
        ShellFactory::build_query(config.clone()),
        Ok(Query {
            selector: "<python>".to_string(),
            field: Some("value".to_string()),
            one: false,
            inputs: HashMap::new(),
        })
    );
    config.one = Some(true);
    assert_eq!(
        ShellFactory::build_query(config),
        Err(ManifestError::Query(QueryConfigError::One))
    );
}

#[test]
fn commands_are_shown_with_blanks() {
    assert_eq!(Command(Vec::new()).display(), "");
    assert_eq!(Command::read(CommandSetting::Line("python".to_string())).display(), "python");
    assert_eq!(
        Command::read(python_exec()),
        Command(vec!["python".to_string(), "exec.py".to_string()])
    );
    assert_eq!(Command::read(python_exec()).display(), "python exec.py");
    assert_eq!(
        Command(vec!["a".to_string(), "b c".to_string(), "d".to_string()]).display(),
        "a b c d"
    );
}

#[test]
fn shell_manifest_settings() {
    assert_eq!(
        Manifest::new(python(), None, None, None),
        Manifest {
            command: Command(vec!["python".to_string()]),
            joined: false,
            concurrent: false,
            index: None,
        }
    );
    assert_eq!(
        Manifest::index_path(Some(IndexSetting::Flag(true))),
        Some("shell-index.toml".to_string())
    );
    assert_eq!(Manifest::index_path(Some(IndexSetting::Flag(false))), None);
    assert_eq!(
        Manifest::index_path(Some(IndexSetting::Path("x.toml".to_string()))),
        Some("x.toml".to_string())
    );
}

#[test]
fn shell_error_messages() {
    assert_eq!(IndexError::Version(3).message(), "expected shell index file version 1, was 3");
    assert_eq!(
        IndexError::Io("x".to_string()).message(),
        "shell index file could not be read or written"
    );
    assert_eq!(
        CommandError::ExitStatus("exit status: 2".to_string()).message(),
        "the command failed: exit status: 2"
    );
    assert_eq!(
        MultipleCommandError::new(vec![
            CommandError::Json("expected value\nat line 1".to_string()),
            CommandError::Array,
        ])
        .message(),
        "at least one command failed:\n  command input or output was not valid JSON or did not fit the expected format\n  expected value\n  at line 1\n  the command did not return an array of the correct length"
    );
    assert_eq!(
        MultipleFileError::new(vec!["a".to_string(), "b".to_string()]).message(),
        "at least one result could not be written:\n  a\n  b"
    );
    assert_eq!(
        ManifestError::Manifest("x".to_string()).message(),
        "invalid shell configuration"
    );
    assert_eq!(QueryConfigError::One.message(), "shell does not support --one");
}
