use prequery_preprocess::web_resource::index::{Document, Index, IndexError, Resource, Stored};

fn resource(path: &str, url: &str) -> Resource {
    Resource {
        path: path.to_string(),
        url: url.to_string(),
    }
}

#[test]
fn new_index_is_empty() {
    let index = Index::new("web-resource-index.toml".to_string());
    assert_eq!(index.version(), 1);
    assert_eq!(index.len(), 0);
    assert_eq!(index.location(), "web-resource-index.toml");
    assert!(index.get("assets/example.png").is_none());
    assert!(!index.is_up_to_date("assets/example.png", "https://example.com/example.png"));
}

#[test]
fn update_inserts_and_overwrites() {
    let mut index = Index::new("index.toml".to_string());
    index.update(resource("assets/example.png", "https://example.com/example-old.png"));
    assert!(index.is_up_to_date("assets/example.png", "https://example.com/example-old.png"));
    assert!(!index.is_up_to_date("assets/example.png", "https://example.com/example.png"));

    index.update(resource("assets/example.png", "https://example.com/example.png"));
    assert_eq!(index.len(), 1);
    assert!(index.is_up_to_date("assets/example.png", "https://example.com/example.png"));
    assert!(!index.is_up_to_date("assets/example.png", "https://example.com/example-old.png"));
    assert_eq!(
        index.get("assets/example.png"),
        Some(&resource("assets/example.png", "https://example.com/example.png"))
    );
}

#[test]
fn fingerprints_are_compared_exactly() {
    let mut index = Index::new("index.toml".to_string());
    index.update(resource("a.png", "https://example.com/a.png"));
    assert!(!index.is_up_to_date("a.png", "https://example.com/a.png/"));
    assert!(!index.is_up_to_date("a.png", "https://EXAMPLE.com/a.png"));
    assert!(!index.is_up_to_date("A.png", "https://example.com/a.png"));
    assert!(!index.is_up_to_date("a.png", ""));
}

#[test]
fn written_records_are_sorted_by_path() {
    let mut index = Index::new("index.toml".to_string());
    index.update(resource("b.png", "https://example.com/b"));
    index.update(resource("a/z.png", "https://example.com/z"));
    index.update(resource("c.png", "https://example.com/c"));
    index.update(resource("a.png", "https://example.com/a"));
    index.update(resource("b.png", "https://example.com/b2"));
    let document = index.write();
    assert_eq!(document.version, 1);
    assert_eq!(
        document.resources,
        vec![
            resource("a.png", "https://example.com/a"),
            resource("a/z.png", "https://example.com/z"),
            resource("b.png", "https://example.com/b2"),
            resource("c.png", "https://example.com/c"),
        ]
    );
}

#[test]
fn read_absent_file_gives_empty_index() {
    let index = Index::read("index.toml".to_string(), Stored::Absent).unwrap();
    assert_eq!(index, Index::new("index.toml".to_string()));
}

#[test]
fn read_reports_each_error() {
    assert_eq!(
        Index::read("i".to_string(), Stored::Unreadable("denied".to_string())),
        Err(IndexError::Io("denied".to_string()))
    );
    assert_eq!(
        Index::read("i".to_string(), Stored::Malformed("expected `=`".to_string())),
        Err(IndexError::Parse("expected `=`".to_string()))
    );
    let document = Document {
        version: 2,
        resources: vec![resource("a.png", "https://example.com/a")],
    };
    assert_eq!(
        Index::read("i".to_string(), Stored::Present(document)),
        Err(IndexError::Version(2))
    );
    let document = Document {
        version: 0,
        resources: Vec::new(),
    };
    assert_eq!(
        Index::read("i".to_string(), Stored::Present(document)),
        Err(IndexError::Version(0))
    );
}

#[test]
fn read_keeps_the_last_record_of_a_path() {
    let document = Document {
        version: 1,
        resources: vec![
            resource("b.png", "https://example.com/b"),
            resource("a.png", "https://example.com/old"),
            resource("a.png", "https://example.com/new"),
        ],
    };
    let index = Index::read("i".to_string(), Stored::Present(document)).unwrap();
    assert_eq!(index.len(), 2);
    assert!(index.is_up_to_date("a.png", "https://example.com/new"));
    assert!(index.is_up_to_date("b.png", "https://example.com/b"));
}

#[test]
fn write_then_read_gives_the_same_index() {
    let mut index = Index::new("index.toml".to_string());
    index.update(resource("x/2.png", "https://example.com/2"));
    index.update(resource("x/1.png", "https://example.com/1"));
    index.update(resource("assets/example.png", "https://example.com/example.png"));
    let document = index.write();
    let mut shuffled = document.clone();
    shuffled.resources.reverse();
    let reread = Index::read("index.toml".to_string(), Stored::Present(document)).unwrap();
    assert_eq!(reread, index);
    let reread = Index::read("index.toml".to_string(), Stored::Present(shuffled)).unwrap();
    assert_eq!(reread, index);
    assert_eq!(reread.write(), index.write());
}

#[test]
fn duplicate_is_equal() {
    let mut index = Index::new("index.toml".to_string());
    index.update(resource("a.png", "https://example.com/a"));
    assert_eq!(index.duplicate(), index);
}
