use std::cell::RefCell;
use std::collections::HashMap;

use prequery_preprocess::manifest;
use prequery_preprocess::query::{self, Query};
use prequery_preprocess::web_resource::index::{Document, Index, Resource, Stored};
use prequery_preprocess::web_resource::{
    DownloadError, ExecutionError, IndexError, Manifest, QueryData, WebResource,
    WebResourceFactory, World,
};

fn resource(path: &str, url: &str) -> Resource {
    Resource {
        path: path.to_string(),
        url: url.to_string(),
    }
}

/// A world that answers from a script and records what it was asked to do.
struct ScriptedWorld {
    resources: Vec<Resource>,
    stored: Stored,
    existing: Vec<&'static str>,
    failing: Vec<&'static str>,
    query_fails: bool,
    write_fails: bool,
    queries: RefCell<Vec<Query>>,
    read: RefCell<Vec<String>>,
    written: RefCell<Vec<(String, Document)>>,
    checked: RefCell<Vec<String>>,
    downloads: RefCell<Vec<(String, String)>>,
    log: RefCell<Vec<String>>,
}

impl ScriptedWorld {
    fn new(resources: Vec<Resource>) -> Self {
        ScriptedWorld {
            resources,
            stored: Stored::Absent,
            existing: Vec::new(),
            failing: Vec::new(),
            query_fails: false,
            write_fails: false,
            queries: RefCell::new(Vec::new()),
            read: RefCell::new(Vec::new()),
            written: RefCell::new(Vec::new()),
            checked: RefCell::new(Vec::new()),
            downloads: RefCell::new(Vec::new()),
            log: RefCell::new(Vec::new()),
        }
    }

    fn stored_index(mut self, resources: Vec<Resource>) -> Self {
        self.stored = Stored::Present(Document {
            version: 1,
            resources,
        });
        self
    }
}

impl World for ScriptedWorld {
    fn root(&self) -> String {
        String::new()
    }

    fn log(&self, line: &str) {
        self.log.borrow_mut().push(line.to_string());
    }

    fn query(&self, query: &Query) -> Result<QueryData, query::Error> {
        self.queries.borrow_mut().push(query.clone());
        if self.query_fails {
            return Err(query::Error::Json("expected value".to_string()));
        }
        Ok(QueryData::new(self.resources.clone()).unwrap())
    }

    fn read_index(&self, path: &str) -> Stored {
        self.read.borrow_mut().push(path.to_string());
        self.stored.clone()
    }

    fn write_index(&self, path: &str, document: &Document) -> Result<(), IndexError> {
        self.written
            .borrow_mut()
            .push((path.to_string(), document.clone()));
        if self.write_fails {
            Err(IndexError::Io("disk full".to_string()))
        } else {
            Ok(())
        }
    }

    fn resource_exists(&self, location: &str) -> bool {
        self.checked.borrow_mut().push(location.to_string());
        self.existing.contains(&location)
    }

    fn download(&self, location: &str, url: &str) -> Result<(), DownloadError> {
        self.downloads
            .borrow_mut()
            .push((location.to_string(), url.to_string()));
        if self.failing.contains(&location) {
            Err(DownloadError::Network("connection reset".to_string()))
        } else {
            Ok(())
        }
    }
}

fn job(overwrite: bool, index: bool) -> WebResource {
    let manifest = Manifest::new(
        Some(overwrite),
        Some(prequery_preprocess::web_resource::manifest::IndexSetting::Flag(index)),
        None,
    );
    WebResourceFactory::new()
        .configure("download".to_string(), Ok(manifest), manifest::Query::default())
        .unwrap()
}

fn expected_query() -> Query {
    Query {
        selector: "<web-resource>".to_string(),
        field: Some("value".to_string()),
        one: false,
        inputs: HashMap::new(),
    }
}

fn example() -> Vec<Resource> {
    vec![resource("assets/example.png", "https://example.com/example.png")]
}

fn index_of(resources: Vec<Resource>) -> Document {
    let mut index = Index::new("web-resource-index.toml".to_string());
    for resource in resources {
        index.update(resource);
    }
    index.write()
}

/// Run the web resource preprocessor without any resources and no index.
/// No downloads should happen, and no index should be saved.
#[test]
fn run_web_resource_no_resources_no_index() {
    let world = ScriptedWorld::new(Vec::new());
    let mut job = job(false, false);
    assert_eq!(job.run_impl(&world), Ok(()));
    assert_eq!(*world.queries.borrow(), vec![expected_query()]);
    assert!(world.read.borrow().is_empty());
    assert!(world.written.borrow().is_empty());
    assert!(world.checked.borrow().is_empty());
    assert!(world.downloads.borrow().is_empty());
    assert!(world.log.borrow().is_empty());
    assert!(job.index().is_none());
}

/// Run the web resource preprocessor without any resources and an index.
/// No downloads should happen, but the index should be saved.
#[test]
fn run_web_resource_no_resources_with_index() {
    let world = ScriptedWorld::new(Vec::new());
    let mut job = job(false, true);
    assert_eq!(job.run_impl(&world), Ok(()));
    assert_eq!(*world.read.borrow(), vec!["web-resource-index.toml".to_string()]);
    assert_eq!(
        *world.written.borrow(),
        vec![("web-resource-index.toml".to_string(), index_of(Vec::new()))]
    );
    assert_eq!(
        job.index(),
        Some(&Index::new("web-resource-index.toml".to_string()))
    );
    assert!(world.checked.borrow().is_empty());
    assert!(world.downloads.borrow().is_empty());
    assert!(world.log.borrow().is_empty());
}

/// Run the web resource preprocessor with one resource and no index.
/// The resource is outside the root and should not be downloaded.
#[test]
fn run_web_resource_download_outside_root() {
    let world = ScriptedWorld::new(vec![resource(
        "../example.png",
        "https://example.com/example.png",
    )]);
    let mut job = job(false, false);
    let result = job.run_impl(&world);
    match result {
        Err(ExecutionError::Download(failed)) => {
            assert_eq!(
                *failed.errors(),
                vec![DownloadError::File(
                    "../example.png is outside the project root".to_string()
                )]
            );
            assert_eq!(
                failed.message(),
                "at least one download failed:\n  file I/O error during download"
            );
        }
        other => panic!("access to file outside root should be denied: {other:?}"),
    }
    assert!(world.read.borrow().is_empty());
    assert!(world.written.borrow().is_empty());
    assert!(world.checked.borrow().is_empty());
    assert!(world.downloads.borrow().is_empty());
}

/// Run the web resource preprocessor with one resource and no index.
/// The resource does not exist locally and should be downloaded.
#[test]
fn run_web_resource_no_index_missing() {
    let world = ScriptedWorld::new(example());
    let mut job = job(false, false);
    assert_eq!(job.run_impl(&world), Ok(()));
    assert!(world.read.borrow().is_empty());
    assert!(world.written.borrow().is_empty());
    assert_eq!(*world.checked.borrow(), vec!["assets/example.png".to_string()]);
    assert_eq!(
        *world.downloads.borrow(),
        vec![(
            "assets/example.png".to_string(),
            "https://example.com/example.png".to_string()
        )]
    );
    assert_eq!(
        *world.log.borrow(),
        vec![
            "[download] Downloading https://example.com/example.png to assets/example.png..."
                .to_string(),
            "[download] Downloading https://example.com/example.png to assets/example.png finished"
                .to_string(),
        ]
    );
}

/// Run the web resource preprocessor with one resource and no index.
/// The resource exists locally and should not be downloaded.
#[test]
fn run_web_resource_no_index_existing() {
    let mut world = ScriptedWorld::new(example());
    world.existing = vec!["assets/example.png"];
    let mut job = job(false, false);
    assert_eq!(job.run_impl(&world), Ok(()));
    assert!(world.read.borrow().is_empty());
    assert!(world.written.borrow().is_empty());
    assert_eq!(*world.checked.borrow(), vec!["assets/example.png".to_string()]);
    assert!(world.downloads.borrow().is_empty());
    assert_eq!(
        *world.log.borrow(),
        vec![
            "[download] Downloading of https://example.com/example.png to assets/example.png skipped (file exists)"
                .to_string(),
        ]
    );
}

/// Run the web resource preprocessor with one resource and no index.
/// The resource exists locally and should be re-downloaded according to the manifest.
#[test]
fn run_web_resource_no_index_existing_forced() {
    let mut world = ScriptedWorld::new(example());
    world.existing = vec!["assets/example.png"];
    let mut job = job(true, false);
    assert_eq!(job.run_impl(&world), Ok(()));
    assert!(world.read.borrow().is_empty());
    assert!(world.written.borrow().is_empty());
    assert_eq!(
        *world.downloads.borrow(),
        vec![(
            "assets/example.png".to_string(),
            "https://example.com/example.png".to_string()
        )]
    );
    assert_eq!(
        *world.log.borrow(),
        vec![
            "[download] Downloading https://example.com/example.png to assets/example.png (overwrite of existing files was forced)..."
                .to_string(),
            "[download] Downloading https://example.com/example.png to assets/example.png finished"
                .to_string(),
        ]
    );
}

/// Run the web resource preprocessor with one resource and an index.
/// The resource does not exist locally and should be downloaded.
/// The index should be saved with the downloaded resource in it.
#[test]
fn run_web_resource_with_index_missing() {
    let world = ScriptedWorld::new(example());
    let mut job = job(false, true);
    assert_eq!(job.run_impl(&world), Ok(()));
    assert_eq!(*world.read.borrow(), vec!["web-resource-index.toml".to_string()]);
    assert_eq!(
        *world.written.borrow(),
        vec![("web-resource-index.toml".to_string(), index_of(example()))]
    );
    assert_eq!(*world.checked.borrow(), vec!["assets/example.png".to_string()]);
    assert_eq!(
        *world.downloads.borrow(),
        vec![(
            "assets/example.png".to_string(),
            "https://example.com/example.png".to_string()
        )]
    );
    let mut expected = Index::new("web-resource-index.toml".to_string());
    expected.update(resource("assets/example.png", "https://example.com/example.png"));
    assert_eq!(job.index(), Some(&expected));
}

/// Run the web resource preprocessor with one resource and an index.
/// The resource exists locally and should not be downloaded.
/// The index should be saved with the downloaded resource in it (no change).
#[test]
fn run_web_resource_with_index_existing() {
    let mut world = ScriptedWorld::new(example()).stored_index(example());
    world.existing = vec!["assets/example.png"];
    let mut job = job(false, true);
    assert_eq!(job.run_impl(&world), Ok(()));
    assert_eq!(
        *world.written.borrow(),
        vec![("web-resource-index.toml".to_string(), index_of(example()))]
    );
    assert_eq!(*world.checked.borrow(), vec!["assets/example.png".to_string()]);
    assert!(world.downloads.borrow().is_empty());
    assert_eq!(
        *world.log.borrow(),
        vec![
            "[download] Downloading of https://example.com/example.png to assets/example.png skipped (file exists)"
                .to_string(),
        ]
    );
}

/// Run the web resource preprocessor with one resource and an index.
/// The resource exists locally and should be re-downloaded according to the manifest.
/// The index should be saved with the downloaded resource in it (no change).
#[test]
fn run_web_resource_with_index_existing_forced() {
    let mut world = ScriptedWorld::new(example()).stored_index(example());
    world.existing = vec!["assets/example.png"];
    let mut job = job(true, true);
    assert_eq!(job.run_impl(&world), Ok(()));
    assert_eq!(
        *world.written.borrow(),
        vec![("web-resource-index.toml".to_string(), index_of(example()))]
    );
    assert_eq!(
        *world.downloads.borrow(),
        vec![(
            "assets/example.png".to_string(),
            "https://example.com/example.png".to_string()
        )]
    );
}

/// Run the web resource preprocessor with one resource and an index.
/// The resource exists locally and should be re-downloaded because the URL has changed.
/// The index should be saved with the downloaded resource in it (changed URL).
#[test]
fn run_web_resource_with_index_outdated() {
    let mut world = ScriptedWorld::new(example()).stored_index(vec![resource(
        "assets/example.png",
        "https://example.com/example-old.png",
    )]);
    world.existing = vec!["assets/example.png"];
    let mut job = job(false, true);
    assert_eq!(job.run_impl(&world), Ok(()));
    assert_eq!(
        *world.written.borrow(),
        vec![("web-resource-index.toml".to_string(), index_of(example()))]
    );
    assert_eq!(
        *world.downloads.borrow(),
        vec![(
            "assets/example.png".to_string(),
            "https://example.com/example.png".to_string()
        )]
    );
    assert_eq!(
        *world.log.borrow(),
        vec![
            "[download] Downloading https://example.com/example.png to assets/example.png (URL has changed)..."
                .to_string(),
            "[download] Downloading https://example.com/example.png to assets/example.png finished"
                .to_string(),
        ]
    );
}

/// Three resources, the second of which cannot be downloaded: the job fails with
/// that one error, and the other two are in the stored index.
#[test]
fn partial_failure_keeps_the_successes() {
    let resources = vec![
        resource("a.png", "https://example.com/a.png"),
        resource("b.png", "https://example.com/b.png"),
        resource("c.png", "https://example.com/c.png"),
    ];
    let mut world = ScriptedWorld::new(resources);
    world.failing = vec!["b.png"];
    let mut job = job(false, true);
    match job.run_impl(&world) {
        Err(ExecutionError::Download(failed)) => {
            assert_eq!(
                *failed.errors(),
                vec![DownloadError::Network("connection reset".to_string())]
            );
        }
        other => panic!("the job should fail with one download error: {other:?}"),
    }
    assert_eq!(world.downloads.borrow().len(), 3);
    let stored = index_of(vec![
        resource("a.png", "https://example.com/a.png"),
        resource("c.png", "https://example.com/c.png"),
    ]);
    assert_eq!(
        *world.written.borrow(),
        vec![("web-resource-index.toml".to_string(), stored)]
    );
    assert_eq!(
        *world.log.borrow().last().unwrap(),
        "[download] Downloading https://example.com/c.png to c.png finished"
    );
    assert!(world.log.borrow().contains(
        &"[download] Downloading https://example.com/b.png to b.png failed: network I/O error during download"
            .to_string()
    ));
}

/// A second run over unchanged files downloads nothing and stores the same index.
#[test]
fn second_run_is_idle() {
    let resources = vec![
        resource("b.png", "https://example.com/b.png"),
        resource("a.png", "https://example.com/a.png"),
    ];
    let first = ScriptedWorld::new(resources.clone());
    let mut job1 = job(false, true);
    assert_eq!(job1.run_impl(&first), Ok(()));
    assert_eq!(first.downloads.borrow().len(), 2);
    let stored = first.written.borrow()[0].1.clone();

    let mut second = ScriptedWorld::new(resources);
    second.stored = Stored::Present(stored.clone());
    second.existing = vec!["a.png", "b.png"];
    let mut job2 = job(false, true);
    assert_eq!(job2.run_impl(&second), Ok(()));
    assert!(second.downloads.borrow().is_empty());
    assert_eq!(
        *second.written.borrow(),
        vec![("web-resource-index.toml".to_string(), stored)]
    );
}

#[test]
fn unusable_index_ends_the_job_before_any_work() {
    let mut world = ScriptedWorld::new(example());
    world.stored = Stored::Present(Document {
        version: 2,
        resources: Vec::new(),
    });
    let mut job = job(false, true);
    assert_eq!(
        job.run_impl(&world),
        Err(ExecutionError::Index(IndexError::Version(2)))
    );
    assert!(world.queries.borrow().is_empty());
    assert!(world.checked.borrow().is_empty());
    assert!(world.downloads.borrow().is_empty());
    assert!(world.written.borrow().is_empty());
    assert!(job.index().is_none());
}

#[test]
fn failed_query_ends_the_job_before_any_work() {
    let mut world = ScriptedWorld::new(example());
    world.query_fails = true;
    let mut job = job(false, true);
    assert_eq!(
        job.run_impl(&world),
        Err(ExecutionError::Query(query::Error::Json(
            "expected value".to_string()
        )))
    );
    assert!(world.checked.borrow().is_empty());
    assert!(world.downloads.borrow().is_empty());
    assert!(world.written.borrow().is_empty());
}

#[test]
fn failure_to_store_the_index_comes_first() {
    let mut world = ScriptedWorld::new(example());
    world.write_fails = true;
    world.failing = vec!["assets/example.png"];
    let mut job = job(false, true);
    assert_eq!(
        job.run_impl(&world),
        Err(ExecutionError::Index(IndexError::Io("disk full".to_string())))
    );
    assert_eq!(world.written.borrow().len(), 1);
}

#[test]
fn report_orders_the_failures() {
    assert_eq!(WebResource::report(Ok(()), Vec::new()), Ok(()));
    assert_eq!(
        WebResource::report(Err(IndexError::Write("x".to_string())), Vec::new()),
        Err(ExecutionError::Index(IndexError::Write("x".to_string())))
    );
    match WebResource::report(
        Ok(()),
        vec![
            DownloadError::Network("a".to_string()),
            DownloadError::File("b".to_string()),
        ],
    ) {
        Err(error @ ExecutionError::Download(_)) => assert_eq!(
            error.message(),
            "at least one download failed:\n  network I/O error during download\n  file I/O error during download"
        ),
        other => panic!("unexpected: {other:?}"),
    }
}

#[test]
fn steps_of_one_download() {
    let mut job = job(false, true);
    assert_eq!(
        job.populate_index("web-resource-index.toml".to_string(), Stored::Absent),
        Ok(())
    );
    let wanted = resource("assets/example.png", "https://example.com/example.png");
    assert_eq!(job.locate("root", &wanted), Ok("root/assets/example.png".to_string()));
    assert_eq!(
        job.locate("root", &resource("../x", "u")),
        Err(DownloadError::File("../x is outside the project root".to_string()))
    );
    assert!(job.resource_state(&wanted, false).download());
    assert!(job.resource_state(&wanted, true).download());
    job.downloaded(wanted.clone());
    assert!(!job.resource_state(&wanted, true).download());
    assert_eq!(job.persist(), Some(index_of(vec![wanted.clone()])));
    assert_eq!(
        job.outcome("u", "p", &Ok(())),
        "[download] Downloading u to p finished"
    );
    assert_eq!(
        job.outcome("u", "p", &Err(DownloadError::File("x".to_string()))),
        "[download] Downloading u to p failed: file I/O error during download"
    );
}

#[test]
fn a_job_without_index_setting_uses_none() {
    let mut job = job(false, false);
    assert_eq!(
        job.populate_index("web-resource-index.toml".to_string(), Stored::Malformed("x".to_string())),
        Ok(())
    );
    assert!(job.index().is_none());
    assert_eq!(job.persist(), None);
    job.downloaded(resource("a", "b"));
    assert!(job.index().is_none());
}
