use std::collections::HashMap;

use prequery_preprocess::manifest;
use prequery_preprocess::query::QueryBuilderError;
use prequery_preprocess::web_resource::index::{IndexError, Resource};
use prequery_preprocess::web_resource::manifest::IndexSetting;
use prequery_preprocess::web_resource::query_data::Conflict;
use prequery_preprocess::web_resource::{
    Manifest, ManifestError, QueryConfigError, QueryData, WebResourceFactory,
};

fn resource(path: &str, url: &str) -> Resource {
    Resource {
        path: path.to_string(),
        url: url.to_string(),
    }
}

#[test]
fn index_setting_names_the_index_file() {
    assert_eq!(Manifest::index_path(None), None);
    assert_eq!(Manifest::index_path(Some(IndexSetting::Flag(false))), None);
    assert_eq!(
        Manifest::index_path(Some(IndexSetting::Flag(true))),
        Some("web-resource-index.toml".to_string())
    );
    assert_eq!(
        Manifest::index_path(Some(IndexSetting::Path("my-index.toml".to_string()))),
        Some("my-index.toml".to_string())
    );
}

#[test]
fn manifest_defaults_are_off() {
    assert_eq!(
        Manifest::new(None, None, None),
        Manifest {
            overwrite: false,
            index: None,
            evict: false,
        }
    );
    assert_eq!(
        Manifest::new(Some(true), Some(IndexSetting::Flag(true)), Some(true)),
        Manifest {
            overwrite: true,
            index: Some("web-resource-index.toml".to_string()),
            evict: true,
        }
    );
}

#[test]
fn factory_builds_the_default_query() {
    assert_eq!(WebResourceFactory::new().name(), "web-resource");
    let query = WebResourceFactory::build_query(manifest::Query::default()).unwrap();
    assert_eq!(query.selector, "<web-resource>");
    assert_eq!(query.field, Some("value".to_string()));
    assert!(!query.one);
    assert_eq!(query.inputs, HashMap::new());
}

#[test]
fn factory_refuses_a_query_for_one_element() {
    let mut config = manifest::Query::default();
    config.one = Some(true);
    assert_eq!(
        WebResourceFactory::build_query(config.clone()),
        Err(ManifestError::Query(QueryConfigError::One))
    );
    assert_eq!(
        WebResourceFactory::new()
            .configure("download".to_string(), Ok(Manifest::new(None, None, None)), config)
            .err(),
        Some(ManifestError::Query(QueryConfigError::One))
    );
}

#[test]
fn factory_reports_unreadable_settings_first() {
    let mut config = manifest::Query::default();
    config.one = Some(true);
    assert_eq!(
        WebResourceFactory::new()
            .configure("download".to_string(), Err("invalid type".to_string()), config)
            .err(),
        Some(ManifestError::Manifest("invalid type".to_string()))
    );
}

#[test]
fn configured_job_has_no_index_yet() {
    let manifest = Manifest::new(None, Some(IndexSetting::Flag(true)), None);
    let job = WebResourceFactory::new()
        .configure("download".to_string(), Ok(manifest.clone()), manifest::Query::default())
        .unwrap();
    assert_eq!(job.job_name(), "download");
    assert_eq!(job.manifest(), &manifest);
    assert!(job.index().is_none());
    assert_eq!(job.query().selector, "<web-resource>");
}

#[test]
fn config_error_messages() {
    assert_eq!(
        ManifestError::Manifest("x".to_string()).message(),
        "invalid web-resource configuration"
    );
    assert_eq!(
        ManifestError::Query(QueryConfigError::One).message(),
        "web-resource does not support --one"
    );
    assert_eq!(
        QueryConfigError::Builder(QueryBuilderError::Selector).message(),
        "invalid web-resource query configuration"
    );
}

#[test]
fn index_error_messages() {
    assert_eq!(
        IndexError::Io("x".to_string()).message(),
        "web-resource index file could not be read or written"
    );
    assert_eq!(
        IndexError::Version(2).message(),
        "expected web-resource index file version 1, was 2"
    );
    assert_eq!(
        IndexError::Version(120).message(),
        "expected web-resource index file version 1, was 120"
    );
    assert_eq!(
        IndexError::Parse("x".to_string()).message(),
        "invalid web-resource index file content"
    );
    assert_eq!(
        IndexError::Write("x".to_string()).message(),
        "web-resource index: TOML writing error"
    );
    assert_eq!(IndexError::Version(2).source(), None);
    assert_eq!(IndexError::Io("x".to_string()).source(), Some(&"x".to_string()));
}

#[test]
fn query_data_is_sorted_and_unique() {
    let data = QueryData::new(vec![
        resource("b.png", "https://example.com/b"),
        resource("a.png", "https://example.com/a"),
        resource("b.png", "https://example.com/b"),
    ])
    .unwrap();
    assert_eq!(data.len(), 2);
    assert_eq!(
        *data.resources(),
        vec![
            resource("a.png", "https://example.com/a"),
            resource("b.png", "https://example.com/b"),
        ]
    );
    assert_eq!(QueryData::new(Vec::new()).unwrap().len(), 0);
}

#[test]
fn query_data_refuses_conflicting_urls() {
    let gathered = QueryData::new(vec![
        resource("a.png", "https://example.com/first"),
        resource("b.png", "https://example.com/b"),
        resource("a.png", "https://example.com/first"),
        resource("a.png", "https://example.com/second"),
        resource("b.png", "https://example.com/other"),
    ]);
    assert_eq!(
        gathered,
        Err(Conflict {
            path: "a.png".to_string(),
            url: "https://example.com/first".to_string(),
        })
    );
}
