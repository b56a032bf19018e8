use std::collections::HashMap;

use prequery_preprocess::manifest;
use prequery_preprocess::query::{Error, Query, QueryBuilder, QueryBuilderError};

fn config(
    selector: Option<&str>,
    field: Option<Option<&str>>,
    one: Option<bool>,
) -> manifest::Query {
    manifest::Query {
        selector: selector.map(str::to_string),
        field: field.map(|field| field.map(str::to_string)),
        one,
        inputs: HashMap::new(),
    }
}

#[test]
fn builder_starts_without_defaults() {
    let builder = Query::builder();
    assert_eq!(builder, QueryBuilder::default());
    assert_eq!(builder.selector, None);
    assert_eq!(builder.field, None);
    assert_eq!(builder.one, None);
}

#[test]
fn builder_setters_set_one_default_each() {
    let builder = Query::builder().default_selector("<label>".to_string());
    assert_eq!(builder.selector, Some("<label>".to_string()));
    assert_eq!(builder.field, None);
    assert_eq!(builder.one, None);
    let builder = builder.default_field(None);
    assert_eq!(builder.field, Some(None));
    let builder = builder.default_one(true);
    assert_eq!(builder.one, Some(true));
    assert_eq!(builder.selector, Some("<label>".to_string()));
}

#[test]
fn build_prefers_the_configuration() {
    let mut inputs = HashMap::new();
    inputs.insert("key".to_string(), "value".to_string());
    let mut config = config(Some("<mine>"), Some(None), Some(true));
    config.inputs = inputs.clone();
    let query = Query::builder()
        .default_selector("<default>".to_string())
        .default_field(Some("value".to_string()))
        .default_one(false)
        .build(config)
        .unwrap();
    assert_eq!(
        query,
        Query {
            selector: "<mine>".to_string(),
            field: None,
            one: true,
            inputs,
        }
    );
}

#[test]
fn build_falls_back_to_the_defaults() {
    let query = Query::builder()
        .default_selector("<web-resource>".to_string())
        .default_field(Some("value".to_string()))
        .default_one(false)
        .build(manifest::Query::default())
        .unwrap();
    assert_eq!(
        query,
        Query {
            selector: "<web-resource>".to_string(),
            field: Some("value".to_string()),
            one: false,
            inputs: HashMap::new(),
        }
    );
}

#[test]
fn build_names_the_first_missing_setting() {
    assert_eq!(
        Query::builder().build(config(None, None, None)),
        Err(QueryBuilderError::Selector)
    );
    assert_eq!(
        Query::builder().default_one(false).build(config(None, Some(None), None)),
        Err(QueryBuilderError::Selector)
    );
    assert_eq!(
        Query::builder().build(config(Some("<a>"), None, Some(true))),
        Err(QueryBuilderError::Field)
    );
    assert_eq!(
        Query::builder().build(config(Some("<a>"), Some(Some("value")), None)),
        Err(QueryBuilderError::One)
    );
}

#[test]
fn builder_error_messages() {
    assert_eq!(
        QueryBuilderError::Selector.message(),
        "`selector` was not specified but is required"
    );
    assert_eq!(
        QueryBuilderError::Field.message(),
        "`field` was not specified but is required"
    );
    assert_eq!(
        QueryBuilderError::One.message(),
        "`one` was not specified but is required"
    );
}

#[test]
fn query_error_messages() {
    assert_eq!(
        Error::Io("broken pipe".to_string()).message(),
        "reading from the `typst query` child process failed"
    );
    assert_eq!(Error::Io("broken pipe".to_string()).source(), Some(&"broken pipe".to_string()));
    assert_eq!(
        Error::Failure {
            command: "typst query input.typ <a>".to_string(),
            status: "exit status: 1".to_string(),
        }
        .message(),
        "query command failed: exit status: 1\n\n\ttypst query input.typ <a>"
    );
    assert_eq!(
        Error::Json("eof".to_string()).message(),
        "query response was not valid JSON or did not fit the expected schema"
    );
}

#[test]
fn arguments_of_the_query_command() {
    let query = Query {
        selector: "<web-resource>".to_string(),
        field: Some("value".to_string()),
        one: false,
        inputs: HashMap::new(),
    };
    assert_eq!(
        query.arguments(None, "input.typ", &Vec::new()),
        vec![
            "query",
            "--field",
            "value",
            "--input",
            "prequery-fallback=true",
            "input.typ",
            "<web-resource>",
        ]
    );
    let query = Query {
        selector: "<a>".to_string(),
        field: None,
        one: true,
        inputs: HashMap::new(),
    };
    let inputs = vec![
        ("key".to_string(), "value".to_string()),
        ("other".to_string(), "a=b".to_string()),
    ];
    assert_eq!(
        query.arguments(Some("project"), "doc/input.typ", &inputs),
        vec![
            "query",
            "--root",
            "project",
            "--one",
            "--input",
            "key=value",
            "--input",
            "other=a=b",
            "--input",
            "prequery-fallback=true",
            "doc/input.typ",
            "<a>",
        ]
    );
}
