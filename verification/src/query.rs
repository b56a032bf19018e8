//! Configuring `typst query` commands

use std::collections::HashMap;
use vstd::prelude::*;
use vstd::string::StringExecFns;
use crate::manifest;
use crate::reporting::ErrorExt;
use crate::text::{lines_of, no_lines, one_line, push_line};

verus! {

/// A query that can be run against a Typst document. This is usually configured from a
/// [manifest::Query] using a [QueryBuilder].
#[derive(Debug, Clone, PartialEq, Eq)]
pub struct Query {
    /// The selector to be queried, e.g. `<label>`
    pub selector: String,
    /// The field (`--field`) to be queried from the selector (with metadata elements, this is
    /// usually `value`)
    pub field: Option<String>,
    /// Whether only one (`--one`) query result is expected and should be returned
    pub one: bool,
    /// Any additional inputs (`--input`) to be given to the queried document. Regardless of these
    /// settings, `prequery-fallback` is always set to `true` during queries.
    pub inputs: HashMap<String, String>,
}

impl Query {
    /// Creates a query builder
    pub fn builder() -> (builder: QueryBuilder)
        ensures
            builder.selector is None,
            builder.field is None,
            builder.one is None,
    {
        QueryBuilder::default()
    }
}

/// The texts of some inputs, each a key with its value.
pub open spec fn pairs_of(inputs: Seq<(String, String)>) -> Seq<(Seq<char>, Seq<char>)> {
    Seq::new(inputs.len(), |i: int| (inputs[i].0@, inputs[i].1@))
}

/// The arguments that hand the inputs to Typst: `--input` and `key=value` for each.
pub open spec fn spec_input_arguments(inputs: Seq<(Seq<char>, Seq<char>)>) -> Seq<Seq<char>>
    decreases inputs.len(),
{
    if inputs.len() == 0 {
        Seq::empty()
    } else {
        spec_input_arguments(inputs.drop_last()).push("--input"@).push(
            inputs.last().0 + "="@ + inputs.last().1,
        )
    }
}

/// The arguments of the `typst query` command: the root where one was given,
/// the field where one is asked for, `--one` where a single result is
/// expected, the inputs and after them the input that tells the document that
/// it is being queried, and at last the file to query and the selector.
pub open spec fn spec_arguments(
    query: Query,
    root: Option<Seq<char>>,
    input: Seq<char>,
    inputs: Seq<(Seq<char>, Seq<char>)>,
) -> Seq<Seq<char>> {
    seq!["query"@] + (match root {
        Some(root) => seq!["--root"@, root],
        None => Seq::empty(),
    }) + (match query.field {
        Some(field) => seq!["--field"@, field@],
        None => Seq::empty(),
    }) + (if query.one {
        seq!["--one"@]
    } else {
        Seq::empty()
    }) + spec_input_arguments(inputs) + seq![
        "--input"@,
        "prequery-fallback=true"@,
        input,
        query.selector@,
    ]
}

impl Query {
    /// Builds the arguments of the `typst query` command that executes this
    /// query on the file `input`. The inputs are handed over in the order in
    /// which they are given.
    pub fn arguments(&self, root: Option<&str>, input: &str, inputs: &Vec<(String, String)>) -> (arguments:
        Vec<String>)
        ensures
            lines_of(arguments@) == spec_arguments(
                *self,
                match root {
                    Some(root) => Some(root@),
                    None => None,
                },
                input@,
                pairs_of(inputs@),
            ),
    {
        let mut arguments: Vec<String> = Vec::new();
        assert(lines_of(arguments@) =~= Seq::<Seq<char>>::empty());
        push_line(&mut arguments, "query");
        assert(lines_of(arguments@) =~= seq!["query"@]);
        let ghost head = lines_of(arguments@);
        match root {
            Some(root) => {
                push_line(&mut arguments, "--root");
                push_line(&mut arguments, root);
                assert(lines_of(arguments@) =~= head + seq!["--root"@, root@]);
            },
            None => {
                assert(lines_of(arguments@) =~= head + Seq::<Seq<char>>::empty());
            },
        }
        let ghost head = lines_of(arguments@);
        match &self.field {
            Some(field) => {
                push_line(&mut arguments, "--field");
                push_line(&mut arguments, field.as_str());
                assert(lines_of(arguments@) =~= head + seq!["--field"@, field@]);
            },
            None => {
                assert(lines_of(arguments@) =~= head + Seq::<Seq<char>>::empty());
            },
        }
        let ghost head = lines_of(arguments@);
        if self.one {
            push_line(&mut arguments, "--one");
            assert(lines_of(arguments@) =~= head + seq!["--one"@]);
        } else {
            assert(lines_of(arguments@) =~= head + Seq::<Seq<char>>::empty());
        }
        let ghost head = lines_of(arguments@);
        let mut i: usize = 0;
        proof {
            assert(pairs_of(inputs@).subrange(0, 0) =~= Seq::<(Seq<char>, Seq<char>)>::empty());
            assert(lines_of(arguments@) =~= head + spec_input_arguments(
                pairs_of(inputs@).subrange(0, 0),
            ));
        }
        while i < inputs.len()
            invariant
                i <= inputs.len(),
                lines_of(arguments@) == head + spec_input_arguments(
                    pairs_of(inputs@).subrange(0, i as int),
                ),
            decreases inputs.len() - i,
        {
            let ghost before = spec_input_arguments(pairs_of(inputs@).subrange(0, i as int));
            proof {
                assert(pairs_of(inputs@).subrange(0, i + 1).drop_last() =~= pairs_of(
                    inputs@,
                ).subrange(0, i as int));
            }
            let mut pair = inputs[i].0.clone();
            pair.append("=");
            pair.append(inputs[i].1.as_str());
            push_line(&mut arguments, "--input");
            push_line(&mut arguments, pair.as_str());
            assert(lines_of(arguments@) =~= head + before.push("--input"@).push(pair@));
            i = i + 1;
        }
        assert(pairs_of(inputs@).subrange(0, i as int) =~= pairs_of(inputs@));
        let ghost head = lines_of(arguments@);
        push_line(&mut arguments, "--input");
        push_line(&mut arguments, "prequery-fallback=true");
        push_line(&mut arguments, input);
        push_line(&mut arguments, self.selector.as_str());
        assert(lines_of(arguments@) =~= head + seq![
            "--input"@,
            "prequery-fallback=true"@,
            input@,
            self.selector@,
        ]);
        arguments
    }
}

/// Error in the query builder: a required configuration is missing
#[derive(Debug, Clone, Copy, PartialEq, Eq, Structural)]
pub enum QueryBuilderError {
    /// `selector` is missing
    Selector,
    /// `field` is missing
    Field,
    /// `one` is missing
    One,
}

impl QueryBuilderError {
    /// The text of this error.
    pub open spec fn spec_message(self) -> &'static str {
        match self {
            QueryBuilderError::Selector => "`selector` was not specified but is required",
            QueryBuilderError::Field => "`field` was not specified but is required",
            QueryBuilderError::One => "`one` was not specified but is required",
        }
    }

    /// Says which setting is missing.
    pub fn message(self) -> (text: &'static str)
        ensures
            text == self.spec_message(),
    {
        match self {
            QueryBuilderError::Selector => "`selector` was not specified but is required",
            QueryBuilderError::Field => "`field` was not specified but is required",
            QueryBuilderError::One => "`one` was not specified but is required",
        }
    }
}

/// A query builder. Default values for the various configs can be set. If a setting is missing from
/// the [manifest::Query], that default will be used.
#[derive(Debug, Clone, PartialEq, Eq)]
pub struct QueryBuilder {
    /// The selector to be queried, e.g. `<label>`
    pub selector: Option<String>,
    /// The field (`--field`) to be queried from the selector (with metadata elements, this is
    /// usually `value`)
    pub field: Option<Option<String>>,
    /// Whether only one (`--one`) query result is expected and should be returned
    pub one: Option<bool>,
}

impl Default for QueryBuilder {
    /// A builder without defaults.
    fn default() -> (builder: Self)
        ensures
            builder.selector is None,
            builder.field is None,
            builder.one is None,
    {
        QueryBuilder { selector: None, field: None, one: None }
    }
}

/// The first of two settings that is given: the configured one before the default.
pub open spec fn first_of<T>(configured: Option<T>, default: Option<T>) -> Option<T> {
    if configured is Some {
        configured
    } else {
        default
    }
}

impl QueryBuilder {
    /// Set the selector to be queried, e.g. `<label>`
    pub fn default_selector(self, selector: String) -> (builder: Self)
        ensures
            builder == (QueryBuilder { selector: Some(selector), ..self }),
    {
        let mut builder = self;
        builder.selector = Some(selector);
        builder
    }

    /// Set the field (`--field`) to be queried from the selector (with metadata elements, this is
    /// usually `value`)
    pub fn default_field(self, field: Option<String>) -> (builder: Self)
        ensures
            builder == (QueryBuilder { field: Some(field), ..self }),
    {
        let mut builder = self;
        builder.field = Some(field);
        builder
    }

    /// Set whether only one (`--one`) query result is expected and should be returned
    pub fn default_one(self, one: bool) -> (builder: Self)
        ensures
            builder == (QueryBuilder { one: Some(one), ..self }),
    {
        let mut builder = self;
        builder.one = Some(one);
        builder
    }

    /// What `build` returns: each setting is taken from the configuration, or
    /// else from the builder's defaults; the first setting found in neither, in
    /// the order selector, field, one, is the error.
    pub open spec fn spec_build(self, config: manifest::Query) -> Result<Query, QueryBuilderError> {
        let selector = first_of(config.selector, self.selector);
        let field = first_of(config.field, self.field);
        let one = first_of(config.one, self.one);
        if selector is None {
            Err(QueryBuilderError::Selector)
        } else if field is None {
            Err(QueryBuilderError::Field)
        } else if one is None {
            Err(QueryBuilderError::One)
        } else {
            Ok(
                Query {
                    selector: selector->0,
                    field: field->0,
                    one: one->0,
                    inputs: config.inputs,
                },
            )
        }
    }

    /// build a [Query] using the given defaults. If the [manifest::Query] doesn't contain a field
    /// that also doesn't have a default value, this will fail.
    pub fn build(self, config: manifest::Query) -> (built: Result<Query, QueryBuilderError>)
        ensures
            built == self.spec_build(config),
    {
        let selector = match config.selector {
            Some(selector) => selector,
            None => match self.selector {
                Some(selector) => selector,
                None => {
                    return Err(QueryBuilderError::Selector);
                },
            },
        };
        let field = match config.field {
            Some(field) => field,
            None => match self.field {
                Some(field) => field,
                None => {
                    return Err(QueryBuilderError::Field);
                },
            },
        };
        let one = match config.one {
            Some(one) => one,
            None => match self.one {
                Some(one) => one,
                None => {
                    return Err(QueryBuilderError::One);
                },
            },
        };
        Ok(Query { selector, field, one, inputs: config.inputs })
    }
}

/// Error while executing the query
#[derive(Debug, Clone, PartialEq, Eq)]
pub enum Error {
    /// Reading command output failed, with the system's account of it.
    Io(String),
    /// The subprocess failed
    Failure {
        /// The command that was executed
        command: String,
        /// The status with which the command failed
        status: String,
    },
    /// The response to the query was not valid, with the parser's account of it.
    Json(String),
}

impl Error {
    /// The text of this error.
    pub open spec fn spec_message(self) -> Seq<char> {
        match self {
            Error::Io(_) => "reading from the `typst query` child process failed"@,
            Error::Failure { command, status } => "query command failed: "@ + status@ + "\n\n\t"@
                + command@,
            Error::Json(_) => "query response was not valid JSON or did not fit the expected schema"@,
        }
    }

    /// Says what went wrong with the query.
    pub fn message(&self) -> (text: String)
        ensures
            text@ == self.spec_message(),
    {
        match self {
            Error::Io(_) => "reading from the `typst query` child process failed".to_owned(),
            Error::Failure { command, status } => {
                let mut text = "query command failed: ".to_owned();
                text.append(status.as_str());
                text.append("\n\n\t");
                text.append(command.as_str());
                text
            },
            Error::Json(_) => "query response was not valid JSON or did not fit the expected schema".to_owned(),
        }
    }

    /// The account of what lies behind this error, where there is one.
    pub fn source(&self) -> (cause: Option<&String>)
        ensures
            cause == match *self {
                Error::Io(why) => Some(&why),
                Error::Failure { .. } => None,
                Error::Json(why) => Some(&why),
            },
    {
        match self {
            Error::Io(why) => Some(why),
            Error::Failure { .. } => None,
            Error::Json(why) => Some(why),
        }
    }
}

impl ErrorExt for QueryBuilderError {
    open spec fn spec_text(&self) -> Seq<char> {
        self.spec_message()@
    }

    open spec fn spec_causes(&self) -> Seq<Seq<char>> {
        Seq::empty()
    }

    fn text(&self) -> (text: String) {
        self.message().to_owned()
    }

    fn causes(&self) -> (lines: Vec<String>) {
        no_lines()
    }
}

impl ErrorExt for Error {
    open spec fn spec_text(&self) -> Seq<char> {
        self.spec_message()
    }

    open spec fn spec_causes(&self) -> Seq<Seq<char>> {
        match *self {
            Error::Io(why) => seq![why@],
            Error::Failure { .. } => Seq::empty(),
            Error::Json(why) => seq![why@],
        }
    }

    fn text(&self) -> (text: String) {
        self.message()
    }

    fn causes(&self) -> (lines: Vec<String>) {
        match self.source() {
            Some(why) => one_line(why.as_str()),
            None => no_lines(),
        }
    }
}

} // verus!
